use drcom4scut::settings::{Heartbeat, LevelFilter, Retry, Settings, TimeOfDay};
use drcom4scut::source::SettingsError;

#[test]
fn default_settings() {
    let s = Settings::default();
    assert_eq!(s.config_path, "config.yml");
    assert_eq!(s.host, "s.scut.edu.cn");
    assert_eq!(s.time, TimeOfDay { hour: 7, minute: 0, second: 0 });
    assert_eq!(s.reconnect, 15);
    assert_eq!(s.heartbeat, Heartbeat { eap_timeout: 60, udp_timeout: 12 });
    assert_eq!(s.retry, Retry { count: 2, interval: 5000 });
    assert!(s.dns.is_empty());
    assert!(s.username.is_empty());
    assert!(s.log.enable_console && s.log.enable_file);
    assert_eq!(s.log.file_directory, "./logs");
    assert_eq!(s.log.level_filter, LevelFilter::Info);
}

#[test]
fn default_protocol_constants() {
    let d = Settings::default().data;
    assert_eq!(d.response_identity.unknown, vec![0x00, 0x44, 0x61, 0x00, 0x00]);
    assert_eq!(d.response_md5_challenge.unknown, vec![0x00, 0x44, 0x61, 0x2a, 0x00]);
    assert_eq!(d.misc_info.unknown1, vec![0x02, 0x22, 0x00, 0x2a]);
    assert_eq!(d.misc_info.cks32_param, vec![0xc7, 0x2f, 0x31, 0x01]);
    assert_eq!(d.misc_info.os_build, vec![0xf0, 0x23, 0x00, 0x00]);
    assert_eq!(d.misc_info.version, vec![0x44, 0x72, 0x43, 0x4f, 0x4d, 0x00, 0x96, 0x02, 0x2a]);
    assert_eq!(d.misc_info.hash, "4eb81fc048a5585b7dfe1783155241a328b103c6");
}

#[test]
fn error_messages() {
    assert_eq!(SettingsError::UsernameRequired.message(), "Username is REQUIRED!");
    assert_eq!(SettingsError::ServiceConfigNotAbsolute.message(), "Service config path must be absolute.");
}
