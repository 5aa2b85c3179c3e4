use drcom4scut::net::{IpAddress, IpText, MacAddr, SocketAddress};
use drcom4scut::settings::{LevelFilter, Settings, TimeOfDay};
use drcom4scut::source::{
    ConfigValues, DataTable, DnsEntry, HeartbeatTable, LogTable, MiscInfoTable,
    RetryTable, RunArgs, SettingsError, UnknownTable,
};
use drcom4scut::resolve::resolve_log_directory;
use drcom4scut::text::dns_server_text;

fn args() -> RunArgs {
    RunArgs {
        config: "/etc/drcom/config.yml".to_string(),
        debug: false,
        mac: None,
        ip: None,
        username: None,
        password: None,
        host: None,
        hostname: None,
        time: None,
    }
}

fn config() -> ConfigValues {
    ConfigValues {
        mac: None,
        ip: None,
        username: Some("alice".to_string()),
        password: Some("secret".to_string()),
        dns: None,
        host: None,
        hostname: Some("laptop".to_string()),
        time: None,
        reconnect: None,
        heartbeat: None,
        retry: None,
        log: None,
        data: None,
    }
}

fn base() -> Settings {
    let mut s = Settings::default();
    s.config_path = "/etc/drcom/config.yml".to_string();
    s
}

fn v4(a: u8, b: u8, c: u8, d: u8, port: u16) -> SocketAddress {
    SocketAddress { ip: IpAddress::V4(a, b, c, d), port, flowinfo: 0, scope_id: 0 }
}

#[test]
fn config_values_fill_required_settings() {
    let s = Settings::resolve(base(), &args(), &config()).unwrap();
    assert_eq!(s.username, "alice");
    assert_eq!(s.password, "secret");
    assert_eq!(s.hostname, "laptop");
    assert_eq!(s.host, "s.scut.edu.cn");
    assert_eq!(s.time, TimeOfDay { hour: 7, minute: 0, second: 0 });
    assert_eq!(s.reconnect, 15);
    assert!(s.mac.is_none());
    assert!(s.ip.is_none());
}

#[test]
fn arguments_win_over_config() {
    let mut a = args();
    a.username = Some("bob".to_string());
    a.host = Some("auth.example".to_string());
    a.hostname = Some("desk".to_string());
    let mut c = config();
    c.host = Some("other.example".to_string());
    let s = Settings::resolve(base(), &a, &c).unwrap();
    assert_eq!(s.username, "bob");
    assert_eq!(s.password, "secret");
    assert_eq!(s.host, "auth.example");
    assert_eq!(s.hostname, "desk");
}

#[test]
fn blank_username_argument_is_missing() {
    let mut a = args();
    a.username = Some("   ".to_string());
    let r = Settings::resolve(base(), &a, &config());
    assert_eq!(r.unwrap_err(), SettingsError::UsernameRequired);
}

#[test]
fn missing_password_is_an_error() {
    let mut c = config();
    c.password = None;
    assert_eq!(Settings::resolve(base(), &args(), &c).unwrap_err(), SettingsError::PasswordRequired);
    c.password = Some("\t\n".to_string());
    assert_eq!(Settings::resolve(base(), &args(), &c).unwrap_err(), SettingsError::PasswordRequired);
}

#[test]
fn mac_from_config_is_parsed() {
    let mut c = config();
    c.mac = Some("12:34:56:78:9a:BC".to_string());
    let s = Settings::resolve(base(), &args(), &c).unwrap();
    assert_eq!(s.mac, Some(MacAddr(0x12, 0x34, 0x56, 0x78, 0x9a, 0xbc)));
}

#[test]
fn blank_mac_in_config_is_ignored() {
    let mut c = config();
    c.mac = Some("  ".to_string());
    let s = Settings::resolve(base(), &args(), &c).unwrap();
    assert_eq!(s.mac, None);
}

#[test]
fn invalid_mac_argument_is_an_error() {
    let mut a = args();
    a.mac = Some("12:34:56".to_string());
    assert_eq!(Settings::resolve(base(), &a, &config()).unwrap_err(), SettingsError::InvalidMac);
    a.mac = Some(String::new());
    assert_eq!(Settings::resolve(base(), &a, &config()).unwrap_err(), SettingsError::InvalidMac);
}

#[test]
fn ip_argument_and_config() {
    let mut a = args();
    a.ip = Some(IpText { text: "10.0.0.2".to_string(), parsed: Some(IpAddress::V4(10, 0, 0, 2)) });
    let s = Settings::resolve(base(), &a, &config()).unwrap();
    assert_eq!(s.ip, Some(IpAddress::V4(10, 0, 0, 2)));
    let mut c = config();
    c.ip = Some(IpText { text: "nonsense".to_string(), parsed: None });
    assert_eq!(Settings::resolve(base(), &args(), &c).unwrap_err(), SettingsError::InvalidIp);
    c.ip = Some(IpText { text: " ".to_string(), parsed: None });
    assert_eq!(Settings::resolve(base(), &args(), &c).unwrap().ip, None);
}

#[test]
fn dns_servers_get_default_port() {
    assert_eq!(dns_server_text("202.38.193.33"), "202.38.193.33:53");
    assert_eq!(dns_server_text("202.38.193.33:5353"), "202.38.193.33:5353");
    assert_eq!(dns_server_text("[::1]"), "[::1]:53");
    assert_eq!(dns_server_text("[::1]:5353"), "[::1]:5353");
    assert_eq!(dns_server_text("::1"), "::1");
}

#[test]
fn dns_servers_are_deduplicated_in_order() {
    let mut c = config();
    c.dns = Some(vec![
        DnsEntry::Address(v4(1, 1, 1, 1, 53)),
        DnsEntry::Address(v4(8, 8, 8, 8, 53)),
        DnsEntry::Address(v4(1, 1, 1, 1, 53)),
    ]);
    let s = Settings::resolve(base(), &args(), &c).unwrap();
    assert_eq!(s.dns, vec![v4(1, 1, 1, 1, 53), v4(8, 8, 8, 8, 53)]);
}

#[test]
fn dns_errors_are_reported() {
    let mut c = config();
    c.dns = Some(vec![DnsEntry::Address(v4(1, 1, 1, 1, 53)), DnsEntry::NotText]);
    assert_eq!(Settings::resolve(base(), &args(), &c).unwrap_err(), SettingsError::InvalidDnsValue);
    c.dns = Some(vec![DnsEntry::Unparsable]);
    assert_eq!(Settings::resolve(base(), &args(), &c).unwrap_err(), SettingsError::InvalidDnsAddress);
}

#[test]
fn first_error_in_order_wins() {
    let mut a = args();
    a.mac = Some("zz".to_string());
    let mut c = config();
    c.username = None;
    assert_eq!(Settings::resolve(base(), &a, &c).unwrap_err(), SettingsError::InvalidMac);
}

#[test]
fn time_is_parsed_as_hours_and_minutes() {
    let mut c = config();
    c.time = Some("08:30".to_string());
    let s = Settings::resolve(base(), &args(), &c).unwrap();
    assert_eq!(s.time, TimeOfDay { hour: 8, minute: 30, second: 0 });
    c.time = Some("25:00".to_string());
    assert_eq!(Settings::resolve(base(), &args(), &c).unwrap_err(), SettingsError::InvalidTime);
    c.time = Some("seven".to_string());
    assert_eq!(Settings::resolve(base(), &args(), &c).unwrap_err(), SettingsError::InvalidTime);
}

#[test]
fn integers_are_truncated_to_their_fields() {
    let mut c = config();
    c.reconnect = Some(-1);
    c.heartbeat = Some(HeartbeatTable { eap_timeout: Some(30), udp_timeout: Some(4294967297) });
    c.retry = Some(RetryTable { count: None, interval: Some(1000) });
    let s = Settings::resolve(base(), &args(), &c).unwrap();
    assert_eq!(s.reconnect, u64::MAX);
    assert_eq!(s.heartbeat.eap_timeout, 30);
    assert_eq!(s.heartbeat.udp_timeout, 1);
    assert_eq!(s.retry.count, 2);
    assert_eq!(s.retry.interval, 1000);
}

#[test]
fn log_table_is_applied() {
    let mut c = config();
    c.log = Some(LogTable {
        enable_console: Some(false),
        enable_file: None,
        file_directory: Some("/var/log/drcom".to_string()),
        level: Some("debug".to_string()),
    });
    let s = Settings::resolve(base(), &args(), &c).unwrap();
    assert!(!s.log.enable_console);
    assert!(s.log.enable_file);
    assert_eq!(s.log.level_filter, LevelFilter::Debug);
    assert_eq!(s.log.file_directory, "/var/log/drcom");
}

#[test]
fn unknown_log_level_keeps_current() {
    let mut c = config();
    c.log = Some(LogTable { enable_console: None, enable_file: None, file_directory: None, level: Some("loud".to_string()) });
    let s = Settings::resolve(base(), &args(), &c).unwrap();
    assert_eq!(s.log.level_filter, LevelFilter::Info);
}

#[test]
fn log_table_ignored_when_logging_is_off() {
    let mut b = base();
    b.log.level_filter = LevelFilter::Off;
    let mut c = config();
    c.log = Some(LogTable { enable_console: Some(false), enable_file: Some(false), file_directory: None, level: Some("trace".to_string()) });
    let s = Settings::resolve(b, &args(), &c).unwrap();
    assert!(s.log.enable_console);
    assert!(s.log.enable_file);
    assert_eq!(s.log.level_filter, LevelFilter::Off);
}

#[test]
fn relative_log_directory_follows_config_file() {
    let s = Settings::resolve(base(), &args(), &config()).unwrap();
    assert!(s.log.file_directory.starts_with("/etc/drcom"));
    assert!(s.log.file_directory.ends_with("logs"));
    assert!(!s.log.file_directory.contains("config.yml"));
}

#[test]
fn log_directory_placement() {
    let mut s = base();
    s.log.file_directory = "logs".to_string();
    resolve_log_directory(&mut s);
    assert_eq!(std::path::Path::new(&s.log.file_directory), std::path::Path::new("/etc/drcom/logs"));
    s.log.file_directory = "/var/log/drcom".to_string();
    resolve_log_directory(&mut s);
    assert_eq!(s.log.file_directory, "/var/log/drcom");
    s.config_path = "config.yml".to_string();
    s.log.file_directory = "logs".to_string();
    resolve_log_directory(&mut s);
    assert_eq!(std::path::Path::new(&s.log.file_directory), std::path::Path::new("logs"));
}

#[test]
fn data_constants_are_overridden_by_valid_hex() {
    let mut c = config();
    c.data = Some(DataTable {
        response_identity: Some(UnknownTable { unknown: Some("00FF10".to_string()) }),
        response_md5_challenge: Some(UnknownTable { unknown: Some("xyz".to_string()) }),
        misc_info: Some(MiscInfoTable {
            unknown1: None,
            cks32_param: Some("abc".to_string()),
            unknown2: None,
            os_major: None,
            os_minor: None,
            os_build: None,
            os_unknown: None,
            version: Some("4472".to_string()),
            hash: Some("feed".to_string()),
        }),
    });
    let s = Settings::resolve(base(), &args(), &c).unwrap();
    assert_eq!(s.data.response_identity.unknown, vec![0x00, 0xff, 0x10]);
    assert_eq!(s.data.response_md5_challenge.unknown, vec![0x00, 0x44, 0x61, 0x2a, 0x00]);
    assert_eq!(s.data.misc_info.cks32_param, vec![0xc7, 0x2f, 0x31, 0x01]);
    assert_eq!(s.data.misc_info.version, vec![0x44, 0x72]);
    assert_eq!(s.data.misc_info.hash, "feed");
}

#[test]
fn hostname_falls_back_to_given_system_name() {
    let mut c = config();
    c.hostname = Some("".to_string());
    let s = Settings::resolve_with_hostname(base(), &args(), &c, Some("machine".to_string())).unwrap();
    assert_eq!(s.hostname, "machine");
    let r = Settings::resolve_with_hostname(base(), &args(), &c, None);
    assert_eq!(r.unwrap_err(), SettingsError::HostnameUnavailable);
}
