//! Small helpers shared by the EAP and UDP sides: address octets, the MAC
//! codec on byte buffers, random padding and the channel message type.
use crate::net::{ip_octets, IpAddress, MacAddr};
use bytes::{Buf, BufMut, Bytes, BytesMut};
use vstd::prelude::*;

verus! {

/// The outcome of a run of the EAP or UDP process, as sent between them.
#[derive(Debug, Clone, Copy, PartialEq, Eq, Structural)]
pub enum State {
    Success,
    Stop,
    Sleep,
    Quit,
}

/// A message between the EAP and UDP processes.
#[derive(Debug, Clone)]
pub struct ChannelData {
    pub state: State,
    pub data: Vec<u8>,
}

#[verifier::external_type_specification]
#[verifier::external_body]
pub struct ExBytes(Bytes);

#[verifier::external_type_specification]
#[verifier::external_body]
pub struct ExBytesMut(BytesMut);

/// The bytes a `bytes::Bytes` buffer still holds, from its read position on.
pub uninterp spec fn bytes_contents(b: Bytes) -> Seq<u8>;

/// The bytes written so far into a `bytes::BytesMut` buffer.
pub uninterp spec fn bytes_mut_contents(b: BytesMut) -> Seq<u8>;

/// `BufMut::put_u8` on a `BytesMut`: appends `v` at the end of the written
/// bytes (through `put_slice`, i.e. `extend_from_slice`). It only panics
/// when the length would pass `isize::MAX`, which `requires` rules out.
#[verifier::external_body]
fn buf_put_u8(buf: &mut BytesMut, v: u8)
    requires
        bytes_mut_contents(*old(buf)).len() < isize::MAX,
    ensures
        bytes_mut_contents(*final(buf)) == bytes_mut_contents(*old(buf)).push(v),
{
    buf.put_u8(v);
}

/// `Buf::get_u8` on a `Bytes`: returns the first remaining byte and
/// advances past it. It panics on an empty buffer, which `requires` rules out.
#[verifier::external_body]
fn buf_get_u8(buf: &mut Bytes) -> (r: u8)
    requires
        bytes_contents(*old(buf)).len() >= 1,
    ensures
        r == bytes_contents(*old(buf))[0],
        bytes_contents(*final(buf)) == bytes_contents(*old(buf)).drop_first(),
{
    buf.get_u8()
}

/// Octet `j` of a sequence of 16-bit segments laid out in network order.
spec fn octet_of(segs: Seq<u16>, j: int) -> u8 {
    if j % 2 == 0 {
        (segs[j / 2] / 256) as u8
    } else {
        (segs[j / 2] % 256) as u8
    }
}

/// `BytesMut::new`: an empty buffer.
#[verifier::external_body]
fn new_bytes_mut() -> (r: BytesMut)
    ensures
        bytes_mut_contents(r).len() == 0,
{
    BytesMut::new()
}

/// `BytesMut::freeze`: the written bytes, now readable as `Bytes`.
#[verifier::external_body]
fn freeze(buf: BytesMut) -> (r: Bytes)
    ensures
        bytes_contents(r) == bytes_mut_contents(buf),
{
    buf.freeze()
}

/// `Bytes::len`: how many bytes are left to read.
#[verifier::external_body]
fn bytes_len(buf: &Bytes) -> (r: usize)
    ensures
        r == bytes_contents(*buf).len(),
{
    buf.len()
}

/// `BytesMut::len`: how many bytes have been written.
#[verifier::external_body]
fn bytes_mut_len(buf: &BytesMut) -> (r: usize)
    ensures
        r == bytes_mut_contents(*buf).len(),
{
    buf.len()
}

/// The octets of an IP address in network order (4 or 16 of them).
pub fn ip_to_vec(ip: &IpAddress) -> (r: Vec<u8>)
    ensures
        r@ == ip_octets(*ip),
{
    match ip {
        IpAddress::V4(a, b, c, d) => {
            let v: Vec<u8> = vec![*a, *b, *c, *d];
            assert(v@ =~= ip_octets(*ip));
            v
        },
        IpAddress::V6(s0, s1, s2, s3, s4, s5, s6, s7) => {
            let segs: [u16; 8] = [*s0, *s1, *s2, *s3, *s4, *s5, *s6, *s7];
            let mut v: Vec<u8> = Vec::new();
            let mut i: usize = 0;
            while i < 8
                invariant
                    0 <= i <= 8,
                    segs@ == seq![*s0, *s1, *s2, *s3, *s4, *s5, *s6, *s7],
                    v@.len() == 2 * i,
                    forall|j: int| 0 <= j < 2 * i ==> #[trigger] v@[j] == octet_of(segs@, j),
                decreases 8 - i,
            {
                let s: u16 = segs[i];
                v.push((s / 256) as u8);
                v.push((s % 256) as u8);
                i = i + 1;
            }
            assert(v@ =~= ip_octets(*ip)) by {
                assert forall|k: int| 0 <= k < 16 implies #[trigger] v@[k] == ip_octets(*ip)[k] by {
                    assert(v@[k] == octet_of(segs@, k));
                }
            }
            v
        },
    }
}

/// Writes the six octets of `mac` at the end of `data`.
pub fn put_mac(data: &mut BytesMut, mac: &MacAddr)
    requires
        bytes_mut_contents(*old(data)).len() + 6 <= isize::MAX,
    ensures
        bytes_mut_contents(*final(data)) == bytes_mut_contents(*old(data)) + mac.octets(),
{
    buf_put_u8(data, mac.0);
    buf_put_u8(data, mac.1);
    buf_put_u8(data, mac.2);
    buf_put_u8(data, mac.3);
    buf_put_u8(data, mac.4);
    buf_put_u8(data, mac.5);
    assert(bytes_mut_contents(*data) =~= bytes_mut_contents(*old(data)) + mac.octets());
}

/// Reads a MAC address from the next six bytes of `data` and consumes them.
pub fn get_mac(data: &mut Bytes) -> (mac: MacAddr)
    requires
        bytes_contents(*old(data)).len() >= 6,
    ensures
        mac == MacAddr::from_octets(bytes_contents(*old(data))),
        bytes_contents(*final(data)) == bytes_contents(*old(data)).skip(6),
{
    let ghost start = bytes_contents(*data);
    let a: u8 = buf_get_u8(data);
    let b: u8 = buf_get_u8(data);
    let c: u8 = buf_get_u8(data);
    let d: u8 = buf_get_u8(data);
    let e: u8 = buf_get_u8(data);
    let f: u8 = buf_get_u8(data);
    assert(bytes_contents(*data) =~= start.skip(6));
    MacAddr(a, b, c, d, e, f)
}

/// Writes the six octets of `mac` at the end of `data`, unless the buffer
/// is too long to grow by six bytes; says whether it wrote them.
pub fn try_put_mac(data: &mut BytesMut, mac: &MacAddr) -> (written: bool)
    ensures
        written == (bytes_mut_contents(*old(data)).len() + 6 <= isize::MAX),
        written ==> bytes_mut_contents(*final(data)) == bytes_mut_contents(*old(data))
            + mac.octets(),
        !written ==> bytes_mut_contents(*final(data)) == bytes_mut_contents(*old(data)),
{
    let len = bytes_mut_len(data);
    if len <= (isize::MAX as usize) - 6 {
        put_mac(data, mac);
        true
    } else {
        false
    }
}

/// Reads a MAC address from the next six bytes of `data` and consumes
/// them; `None`, with nothing consumed, when fewer than six bytes are left.
pub fn try_get_mac(data: &mut Bytes) -> (mac: Option<MacAddr>)
    ensures
        bytes_contents(*old(data)).len() >= 6 ==> mac == Some(
            MacAddr::from_octets(bytes_contents(*old(data))),
        ) && bytes_contents(*final(data)) == bytes_contents(*old(data)).skip(6),
        bytes_contents(*old(data)).len() < 6 ==> mac is None && bytes_contents(*final(data))
            == bytes_contents(*old(data)),
{
    if bytes_len(data) >= 6 {
        Some(get_mac(data))
    } else {
        None
    }
}

/// The six octets of `mac` in a readable buffer.
pub fn mac_bytes(mac: &MacAddr) -> (r: Bytes)
    ensures
        bytes_contents(r) == mac.octets(),
{
    let mut buf = new_bytes_mut();
    put_mac(&mut buf, mac);
    assert(bytes_mut_contents(buf) =~= mac.octets());
    freeze(buf)
}

/// Reading back the buffer `mac_bytes` writes gives the same address and
/// leaves nothing unread.
pub proof fn lemma_mac_bytes_roundtrip(mac: MacAddr)
    ensures
        MacAddr::from_octets(mac.octets()) == mac,
        mac.octets().skip(6).len() == 0,
{
}

/// Writing a MAC address and reading six bytes back gives the same address,
/// whatever the buffer held before.
pub proof fn lemma_mac_roundtrip(prefix: Seq<u8>, mac: MacAddr, suffix: Seq<u8>)
    ensures
        MacAddr::from_octets((prefix + mac.octets() + suffix).skip(prefix.len() as int)) == mac,
        (prefix + mac.octets() + suffix).skip(prefix.len() as int).skip(6) == suffix,
{
    let s = prefix + mac.octets() + suffix;
    assert(s.skip(prefix.len() as int).skip(6) =~= suffix);
    assert(s.skip(prefix.len() as int)[0] == mac.0);
    assert(s.skip(prefix.len() as int)[5] == mac.5);
}

// ------------------------------------------------------------------ random

/// `rand::random::<u8>()`: a random byte; nothing is claimed of it.
#[verifier::external_body]
fn random_u8() -> u8 {
    rand::random::<u8>()
}

/// `n` random bytes.
pub fn random_vec(n: usize) -> (v: Vec<u8>)
    ensures
        v@.len() == n,
{
    let mut v: Vec<u8> = Vec::with_capacity(n);
    let mut i: usize = 0;
    while i < n
        invariant
            i <= n,
            v@.len() == i,
        decreases n - i,
    {
        v.push(random_u8());
        i = i + 1;
    }
    v
}

// ----------------------------------------------------------------- sleeping

/// The longest single sleep while waiting for a duration, in milliseconds,
/// so that a requested shutdown is noticed soon.
pub const SLEEP_SLICE_MS: u128 = 200;

/// The sleep while waiting for a time of day, in milliseconds.
pub const WAKE_POLL_MS: u128 = 1000;

/// A day in nanoseconds.
pub const DAY_NANOS: i64 = 86_400_000_000_000;

/// The next step of a wait that can be cut short.
#[derive(Debug, Clone, Copy, PartialEq, Eq, Structural)]
pub enum SleepStep {
    /// The wait is over: `true` when it ran its course, `false` when a
    /// shutdown cut it short.
    Done(bool),
    /// Sleep this many milliseconds, then look again.
    Sleep(u128),
}

/// One round of waiting `duration_ms` of which `elapsed_ms` have passed:
/// done once the time is up, cut short by a shutdown, else a sleep of the
/// rest of the time but at most `SLEEP_SLICE_MS`.
pub fn sleep_slice(elapsed_ms: u128, duration_ms: u128, shutdown: bool) -> (r: SleepStep)
    ensures
        elapsed_ms >= duration_ms ==> r == SleepStep::Done(true),
        elapsed_ms < duration_ms && shutdown ==> r == SleepStep::Done(false),
        elapsed_ms < duration_ms && !shutdown ==> r == SleepStep::Sleep(
            if duration_ms - elapsed_ms < SLEEP_SLICE_MS {
                (duration_ms - elapsed_ms) as u128
            } else {
                SLEEP_SLICE_MS
            },
        ),
{
    if elapsed_ms >= duration_ms {
        SleepStep::Done(true)
    } else if shutdown {
        SleepStep::Done(false)
    } else {
        let remaining: u128 = duration_ms - elapsed_ms;
        if remaining < SLEEP_SLICE_MS {
            SleepStep::Sleep(remaining)
        } else {
            SleepStep::Sleep(SLEEP_SLICE_MS)
        }
    }
}

/// The first occurrence, at or after `now`, of the time of day that falls
/// at `target` today (both in nanoseconds on the same clock): `target`
/// moved forward by whole days until it is no longer before `now`.
pub fn next_wake(target: i64, now: i64) -> (r: i64)
    requires
        now <= i64::MAX - DAY_NANOS,
    ensures
        r >= now,
        r >= target,
        (r - target) % (DAY_NANOS as int) == 0,
        r == target || r - DAY_NANOS < now,
{
    let mut t: i64 = target;
    while t < now
        invariant
            t >= target,
            (t - target) % (DAY_NANOS as int) == 0,
            t == target || t - DAY_NANOS < now,
            now <= i64::MAX - DAY_NANOS,
        decreases now + DAY_NANOS - t,
    {
        assert((t + DAY_NANOS - target) % (DAY_NANOS as int) == 0) by {
            vstd::arithmetic::div_mod::lemma_mod_add_multiples_vanish(
                t - target,
                DAY_NANOS as int,
            );
        }
        t = t + DAY_NANOS;
    }
    t
}

/// One round of waiting for the time of day `wake_at`: done once it is
/// reached, cut short by a shutdown, else sleep `WAKE_POLL_MS`.
pub fn wake_slice(now: i64, wake_at: i64, shutdown: bool) -> (r: SleepStep)
    ensures
        now >= wake_at ==> r == SleepStep::Done(true),
        now < wake_at && shutdown ==> r == SleepStep::Done(false),
        now < wake_at && !shutdown ==> r == SleepStep::Sleep(WAKE_POLL_MS),
{
    if wake_at > now {
        if shutdown {
            SleepStep::Done(false)
        } else {
            SleepStep::Sleep(WAKE_POLL_MS)
        }
    } else {
        SleepStep::Done(true)
    }
}

} // verus!
