//! The client's settings, their defaults and the commands the command line
//! can ask for.
use crate::net::{IpAddress, MacAddr, SocketAddress};
use crate::text::{hex_decode, hex_decoding};
use vstd::prelude::*;

verus! {

/// Whether the client runs in a console or as a system service.
#[derive(Debug, Clone, Copy, PartialEq, Eq, Structural)]
pub enum RuntimeMode {
    Console,
    Service,
}

/// The service management commands.
#[derive(Debug, Clone)]
pub enum ServiceCommand {
    /// Install the service; it will read the configuration file at `config`.
    Install { config: String },
    Uninstall,
    Start,
    Stop,
}

/// What a run of the client was asked for, with everything it needs.
#[derive(Debug, Clone)]
pub struct RunCommand {
    pub settings: Settings,
    pub debug: bool,
    pub mode: RuntimeMode,
}

/// What the command line asks for.
#[derive(Debug, Clone)]
pub enum Command {
    Run(RunCommand),
    RunService,
    Service(ServiceCommand),
}

/// A time of day, to the second.
#[derive(Debug, Clone, Copy, PartialEq, Eq, Structural)]
pub struct TimeOfDay {
    pub hour: u32,
    pub minute: u32,
    pub second: u32,
}

impl TimeOfDay {
    /// Hours, minutes and seconds are in range.
    pub open spec fn wf(self) -> bool {
        self.hour < 24 && self.minute < 60 && self.second < 60
    }

    /// Seconds since midnight.
    pub open spec fn seconds(self) -> int {
        self.hour * 3600 + self.minute * 60 + self.second
    }
}

/// How much of the log is kept, from nothing to everything.
#[derive(Debug, Clone, Copy, PartialEq, Eq, Structural)]
pub enum LevelFilter {
    Off,
    Error,
    Warn,
    Info,
    Debug,
    Trace,
}

/// Heartbeat timeouts of the EAP and UDP sides, in seconds.
#[derive(Debug, Clone, Copy, PartialEq, Eq, Structural)]
pub struct Heartbeat {
    pub eap_timeout: i32,
    pub udp_timeout: i32,
}

/// How often and how far apart failed requests are retried.
#[derive(Debug, Clone, Copy, PartialEq, Eq, Structural)]
pub struct Retry {
    pub count: i32,
    /// In milliseconds.
    pub interval: i32,
}

/// Where and how much the client logs.
#[derive(Debug, Clone)]
pub struct Log {
    pub enable_console: bool,
    pub enable_file: bool,
    pub file_directory: String,
    pub level_filter: LevelFilter,
}

/// The unknown field of the EAP Response/Identity packet.
#[derive(Debug, Clone)]
pub struct ResponseIdentity {
    pub unknown: Vec<u8>,
}

/// The unknown field of the EAP Response/MD5-Challenge packet.
#[derive(Debug, Clone)]
pub struct ResponseMd5Challenge {
    pub unknown: Vec<u8>,
}

/// The client identification sent in the UDP MISC_INFO packet.
#[derive(Debug, Clone)]
pub struct MiscInfo {
    pub unknown1: Vec<u8>,
    pub cks32_param: Vec<u8>,
    pub unknown2: Vec<u8>,
    pub os_major: Vec<u8>,
    pub os_minor: Vec<u8>,
    pub os_build: Vec<u8>,
    pub os_unknown: Vec<u8>,
    pub version: Vec<u8>,
    pub hash: String,
}

/// The protocol constants the client sends.
#[derive(Debug, Clone)]
pub struct Data {
    pub response_identity: ResponseIdentity,
    pub response_md5_challenge: ResponseMd5Challenge,
    pub misc_info: MiscInfo,
}

/// Everything the client needs to run.
#[derive(Debug, Clone)]
pub struct Settings {
    pub config_path: String,
    pub mac: Option<MacAddr>,
    pub ip: Option<IpAddress>,
    pub username: String,
    pub password: String,
    pub dns: Vec<SocketAddress>,
    pub host: String,
    pub hostname: String,
    pub time: TimeOfDay,
    /// Seconds to wait before reconnecting.
    pub reconnect: u64,
    pub heartbeat: Heartbeat,
    pub retry: Retry,
    pub data: Data,
    pub log: Log,
}

/// Decodes a hexadecimal constant that is known to be well formed.
fn decode_constant(s: &str) -> (r: Vec<u8>)
    requires
        hex_decoding(s@) is Some,
    ensures
        hex_decoding(s@) == Some(r@),
{
    match hex_decode(s) {
        Some(v) => v,
        None => Vec::new(),
    }
}

impl ResponseIdentity {
    /// The identity field sent by the official client.
    pub open spec fn default_unknown() -> Seq<u8> {
        seq![0x00u8, 0x44, 0x61, 0x00, 0x00]
    }
}

impl Default for ResponseIdentity {
    fn default() -> (r: Self)
        ensures
            r.unknown@ == ResponseIdentity::default_unknown(),
    {
        proof {
            reveal_strlit("0044610000");
        }
        assert(hex_decoding("0044610000"@) == Some(ResponseIdentity::default_unknown()));
        ResponseIdentity { unknown: decode_constant("0044610000") }
    }
}

impl ResponseMd5Challenge {
    /// The MD5-Challenge field sent by the official client.
    pub open spec fn default_unknown() -> Seq<u8> {
        seq![0x00u8, 0x44, 0x61, 0x2a, 0x00]
    }
}

impl Default for ResponseMd5Challenge {
    fn default() -> (r: Self)
        ensures
            r.unknown@ == ResponseMd5Challenge::default_unknown(),
    {
        proof {
            reveal_strlit("0044612a00");
        }
        assert(hex_decoding("0044612a00"@) == Some(ResponseMd5Challenge::default_unknown()));
        ResponseMd5Challenge { unknown: decode_constant("0044612a00") }
    }
}

impl MiscInfo {
    /// Whether every field holds what the official client sends.
    pub open spec fn is_default(self) -> bool {
        &&& self.unknown1@ == seq![0x02u8, 0x22, 0x00, 0x2a]
        &&& self.cks32_param@ == seq![0xc7u8, 0x2f, 0x31, 0x01]
        &&& self.unknown2@ == seq![0x94u8, 0x00, 0x00, 0x00]
        &&& self.os_major@ == seq![0x06u8, 0x00, 0x00, 0x00]
        &&& self.os_minor@ == seq![0x02u8, 0x00, 0x00, 0x00]
        &&& self.os_build@ == seq![0xf0u8, 0x23, 0x00, 0x00]
        &&& self.os_unknown@ == seq![0x02u8, 0x00, 0x00, 0x00]
        &&& self.version@ == seq![0x44u8, 0x72, 0x43, 0x4f, 0x4d, 0x00, 0x96, 0x02, 0x2a]
        &&& self.hash@ == "4eb81fc048a5585b7dfe1783155241a328b103c6"@
    }
}

impl Default for MiscInfo {
    fn default() -> (r: Self)
        ensures
            r.is_default(),
    {
        proof {
            reveal_strlit("0222002a");
            reveal_strlit("c72f3101");
            reveal_strlit("94000000");
            reveal_strlit("06000000");
            reveal_strlit("02000000");
            reveal_strlit("f0230000");
            reveal_strlit("4472434f4d0096022a");
        }
        assert(hex_decoding("0222002a"@) == Some(seq![0x02u8, 0x22, 0x00, 0x2a]));
        assert(hex_decoding("c72f3101"@) == Some(seq![0xc7u8, 0x2f, 0x31, 0x01]));
        assert(hex_decoding("94000000"@) == Some(seq![0x94u8, 0x00, 0x00, 0x00]));
        assert(hex_decoding("06000000"@) == Some(seq![0x06u8, 0x00, 0x00, 0x00]));
        assert(hex_decoding("02000000"@) == Some(seq![0x02u8, 0x00, 0x00, 0x00]));
        assert(hex_decoding("f0230000"@) == Some(seq![0xf0u8, 0x23, 0x00, 0x00]));
        assert(hex_decoding("4472434f4d0096022a"@) == Some(
            seq![0x44u8, 0x72, 0x43, 0x4f, 0x4d, 0x00, 0x96, 0x02, 0x2a],
        ));
        MiscInfo {
            unknown1: decode_constant("0222002a"),
            cks32_param: decode_constant("c72f3101"),
            unknown2: decode_constant("94000000"),
            os_major: decode_constant("06000000"),
            os_minor: decode_constant("02000000"),
            os_build: decode_constant("f0230000"),
            os_unknown: decode_constant("02000000"),
            version: decode_constant("4472434f4d0096022a"),
            hash: "4eb81fc048a5585b7dfe1783155241a328b103c6".to_owned(),
        }
    }
}

impl Data {
    /// Whether every constant holds what the official client sends.
    pub open spec fn is_default(self) -> bool {
        &&& self.response_identity.unknown@ == ResponseIdentity::default_unknown()
        &&& self.response_md5_challenge.unknown@ == ResponseMd5Challenge::default_unknown()
        &&& self.misc_info.is_default()
    }
}

impl Default for Data {
    fn default() -> (r: Self)
        ensures
            r.is_default(),
    {
        Data {
            response_identity: ResponseIdentity::default(),
            response_md5_challenge: ResponseMd5Challenge::default(),
            misc_info: MiscInfo::default(),
        }
    }
}

impl Default for Heartbeat {
    fn default() -> (r: Self)
        ensures
            r == (Heartbeat { eap_timeout: 60, udp_timeout: 12 }),
    {
        Heartbeat { eap_timeout: 60, udp_timeout: 12 }
    }
}

impl Default for Retry {
    fn default() -> (r: Self)
        ensures
            r == (Retry { count: 2, interval: 5000 }),
    {
        Retry { count: 2, interval: 5000 }
    }
}

impl Log {
    /// Console and file logging on, into `./logs`, at level `Info`.
    pub open spec fn is_default(self) -> bool {
        &&& self.enable_console
        &&& self.enable_file
        &&& self.file_directory@ == "./logs"@
        &&& self.level_filter == LevelFilter::Info
    }
}

impl Default for Log {
    fn default() -> (r: Self)
        ensures
            r.is_default(),
    {
        Log {
            enable_console: true,
            enable_file: true,
            file_directory: "./logs".to_owned(),
            level_filter: LevelFilter::Info,
        }
    }
}

impl Settings {
    /// The settings before any argument or configuration file is applied.
    pub open spec fn is_default(self) -> bool {
        &&& self.config_path@ == "config.yml"@
        &&& self.is_default_at(self.config_path@)
    }

    /// The default settings, but for the configuration file read from `path`.
    pub open spec fn is_default_at(self, path: Seq<char>) -> bool {
        &&& self.config_path@ == path
        &&& self.mac is None
        &&& self.ip is None
        &&& self.username@.len() == 0
        &&& self.password@.len() == 0
        &&& self.dns@.len() == 0
        &&& self.host@ == "s.scut.edu.cn"@
        &&& self.hostname@.len() == 0
        &&& self.time == (TimeOfDay { hour: 7, minute: 0, second: 0 })
        &&& self.reconnect == 15
        &&& self.heartbeat == (Heartbeat { eap_timeout: 60, udp_timeout: 12 })
        &&& self.retry == (Retry { count: 2, interval: 5000 })
        &&& self.data.is_default()
        &&& self.log.is_default()
    }
}

impl Default for Settings {
    fn default() -> (r: Self)
        ensures
            r.is_default(),
    {
        Settings {
            config_path: "config.yml".to_owned(),
            mac: None,
            ip: None,
            username: String::new(),
            password: String::new(),
            dns: Vec::new(),
            host: "s.scut.edu.cn".to_owned(),
            hostname: String::new(),
            time: TimeOfDay { hour: 7, minute: 0, second: 0 },
            reconnect: 15,
            heartbeat: Heartbeat::default(),
            retry: Retry::default(),
            data: Data::default(),
            log: Log::default(),
        }
    }
}

} // verus!
