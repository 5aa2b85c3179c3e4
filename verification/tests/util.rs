use bytes::{Bytes, BytesMut};
use drcom4scut::net::{IpAddress, MacAddr};
use drcom4scut::shutdown::ShutdownSignal;
use drcom4scut::util::{
    get_mac, ip_to_vec, mac_bytes, next_wake, put_mac, random_vec, sleep_slice, try_get_mac,
    try_put_mac, wake_slice, SleepStep,
    DAY_NANOS,
};

#[test]
fn mac_written_then_read_back() {
    let mac = MacAddr(0x00, 0x1a, 0x2b, 0x3c, 0x4d, 0x5e);
    let mut buf = BytesMut::new();
    buf.extend_from_slice(&[0xaa]);
    put_mac(&mut buf, &mac);
    buf.extend_from_slice(&[0xbb]);
    assert_eq!(&buf[..], &[0xaa, 0x00, 0x1a, 0x2b, 0x3c, 0x4d, 0x5e, 0xbb]);
    let mut bytes: Bytes = buf.freeze();
    let _ = bytes.split_to(1);
    let back = get_mac(&mut bytes);
    assert_eq!(back, mac);
    assert_eq!(&bytes[..], &[0xbb]);
}

#[test]
fn get_mac_consumes_six_bytes() {
    let mut bytes = Bytes::from_static(&[1, 2, 3, 4, 5, 6, 7, 8]);
    assert_eq!(get_mac(&mut bytes), MacAddr(1, 2, 3, 4, 5, 6));
    assert_eq!(bytes.len(), 2);
}

#[test]
fn ip_octets_in_network_order() {
    assert_eq!(ip_to_vec(&IpAddress::V4(202, 38, 193, 33)), vec![202, 38, 193, 33]);
    let v6 = IpAddress::V6(0x2001, 0x0db8, 0, 0, 0, 0, 0xff00, 0x0042);
    assert_eq!(
        ip_to_vec(&v6),
        vec![0x20, 0x01, 0x0d, 0xb8, 0, 0, 0, 0, 0, 0, 0, 0, 0xff, 0x00, 0x00, 0x42]
    );
}

#[test]
fn random_vec_has_requested_length() {
    assert_eq!(random_vec(0).len(), 0);
    assert_eq!(random_vec(16).len(), 16);
}

#[test]
fn sleep_slices_stop_at_the_deadline() {
    assert_eq!(sleep_slice(0, 1000, false), SleepStep::Sleep(200));
    assert_eq!(sleep_slice(900, 1000, false), SleepStep::Sleep(100));
    assert_eq!(sleep_slice(1000, 1000, false), SleepStep::Done(true));
    assert_eq!(sleep_slice(10, 1000, true), SleepStep::Done(false));
    assert_eq!(sleep_slice(1000, 1000, true), SleepStep::Done(true));
}

#[test]
fn wake_time_moves_to_the_next_day() {
    let hour = 3_600_000_000_000i64;
    assert_eq!(next_wake(7 * hour, 8 * hour), 7 * hour + DAY_NANOS);
    assert_eq!(next_wake(7 * hour, 6 * hour), 7 * hour);
    assert_eq!(next_wake(7 * hour, 7 * hour), 7 * hour);
    assert_eq!(next_wake(7 * hour, 7 * hour + 1), 7 * hour + DAY_NANOS);
}

#[test]
fn wake_slices_poll_every_second() {
    assert_eq!(wake_slice(5, 10, false), SleepStep::Sleep(1000));
    assert_eq!(wake_slice(5, 10, true), SleepStep::Done(false));
    assert_eq!(wake_slice(10, 10, true), SleepStep::Done(true));
}

#[test]
fn shutdown_signal_is_shared_by_clones() {
    let s = ShutdownSignal::new();
    let t = s.clone();
    assert!(!s.is_shutdown());
    t.request_shutdown();
    assert!(s.is_shutdown());
    assert!(t.is_shutdown());
}

#[test]
fn mac_bytes_read_back() {
    let mac = MacAddr(0xde, 0xad, 0xbe, 0xef, 0x00, 0x01);
    let mut b = mac_bytes(&mac);
    assert_eq!(get_mac(&mut b), mac);
    assert!(b.is_empty());
    let mut short = Bytes::from_static(&[1, 2, 3]);
    assert_eq!(try_get_mac(&mut short), None);
    assert_eq!(short.len(), 3);
    let mut buf = BytesMut::new();
    assert!(try_put_mac(&mut buf, &mac));
    let mut frozen = buf.freeze();
    assert_eq!(try_get_mac(&mut frozen), Some(mac));
}
