//! The inputs settings are resolved from, as plain values: the arguments of
//! a run and what the configuration file holds, read through the
//! configuration loader's own conversions.
use crate::net::{IpText, SocketAddress};
use vstd::prelude::*;

verus! {

/// Why settings could not be resolved or a command could not be built.
#[derive(Debug, Clone, Copy, PartialEq, Eq, Structural)]
pub enum SettingsError {
    InvalidMac,
    InvalidIp,
    UsernameRequired,
    PasswordRequired,
    /// A DNS entry of the configuration file is not text.
    InvalidDnsValue,
    /// A DNS entry is not a socket address, even with the default port.
    InvalidDnsAddress,
    HostnameUnavailable,
    InvalidTime,
    ServiceConfigNotAbsolute,
    CurrentDirUnavailable,
    ServiceCommandCannotRun,
}

impl SettingsError {
    /// The text of the message shown to the user.
    pub open spec fn message_spec(self) -> Seq<char> {
        match self {
            SettingsError::InvalidMac => "Can't parse MAC address!"@,
            SettingsError::InvalidIp => "Can't parse IP address!"@,
            SettingsError::UsernameRequired => "Username is REQUIRED!"@,
            SettingsError::PasswordRequired => "Password is REQUIRED!"@,
            SettingsError::InvalidDnsValue => "Invalid DNS server!"@,
            SettingsError::InvalidDnsAddress => "Can't parse DNS server to socket address!"@,
            SettingsError::HostnameUnavailable => "Can't get current computer host name."@,
            SettingsError::InvalidTime => "Can't parse time String."@,
            SettingsError::ServiceConfigNotAbsolute => "Service config path must be absolute."@,
            SettingsError::CurrentDirUnavailable => "Can't resolve current directory."@,
            SettingsError::ServiceCommandCannotRun => "Service management command cannot start the service runtime."@,
        }
    }

    /// The message shown to the user.
    pub fn message(&self) -> (r: &'static str)
        ensures
            r@ == self.message_spec(),
    {
        match self {
            SettingsError::InvalidMac => "Can't parse MAC address!",
            SettingsError::InvalidIp => "Can't parse IP address!",
            SettingsError::UsernameRequired => "Username is REQUIRED!",
            SettingsError::PasswordRequired => "Password is REQUIRED!",
            SettingsError::InvalidDnsValue => "Invalid DNS server!",
            SettingsError::InvalidDnsAddress => "Can't parse DNS server to socket address!",
            SettingsError::HostnameUnavailable => "Can't get current computer host name.",
            SettingsError::InvalidTime => "Can't parse time String.",
            SettingsError::ServiceConfigNotAbsolute => "Service config path must be absolute.",
            SettingsError::CurrentDirUnavailable => "Can't resolve current directory.",
            SettingsError::ServiceCommandCannotRun => "Service management command cannot start the service runtime.",
        }
    }
}

/// The arguments of a run, as given on the command line.
#[derive(Debug, Clone)]
pub struct RunArgs {
    /// The path of the configuration file.
    pub config: String,
    pub debug: bool,
    pub mac: Option<String>,
    pub ip: Option<IpText>,
    pub username: Option<String>,
    pub password: Option<String>,
    pub host: Option<String>,
    pub hostname: Option<String>,
    pub time: Option<String>,
}

/// One entry of the `dns` list of the configuration file. The loader reads
/// it as text, appends the default port where `dns_server_text` says so and
/// parses the result as a socket address.
#[derive(Debug, Clone, Copy, PartialEq, Eq, Structural)]
pub enum DnsEntry {
    /// The entry is not text.
    NotText,
    /// The text is not a socket address.
    Unparsable,
    Address(SocketAddress),
}

/// The `heartbeat` table.
#[derive(Debug, Clone, Copy, PartialEq, Eq, Structural)]
pub struct HeartbeatTable {
    pub eap_timeout: Option<i64>,
    pub udp_timeout: Option<i64>,
}

/// The `retry` table.
#[derive(Debug, Clone, Copy, PartialEq, Eq, Structural)]
pub struct RetryTable {
    pub count: Option<i64>,
    pub interval: Option<i64>,
}

/// The `log` table.
#[derive(Debug, Clone)]
pub struct LogTable {
    pub enable_console: Option<bool>,
    pub enable_file: Option<bool>,
    pub file_directory: Option<String>,
    pub level: Option<String>,
}

/// A table of `data` with a single hexadecimal `unknown` entry.
#[derive(Debug, Clone)]
pub struct UnknownTable {
    pub unknown: Option<String>,
}

/// The `data.misc_info` table; all entries but `hash` are hexadecimal.
#[derive(Debug, Clone)]
pub struct MiscInfoTable {
    pub unknown1: Option<String>,
    pub cks32_param: Option<String>,
    pub unknown2: Option<String>,
    pub os_major: Option<String>,
    pub os_minor: Option<String>,
    pub os_build: Option<String>,
    pub os_unknown: Option<String>,
    pub version: Option<String>,
    pub hash: Option<String>,
}

/// The `data` table.
#[derive(Debug, Clone)]
pub struct DataTable {
    pub response_identity: Option<UnknownTable>,
    pub response_md5_challenge: Option<UnknownTable>,
    pub misc_info: Option<MiscInfoTable>,
}

/// What the configuration file holds: for each key, its value read as the
/// type the client expects, or `None` when it is missing or of another type.
#[derive(Debug, Clone)]
pub struct ConfigValues {
    pub mac: Option<String>,
    pub ip: Option<IpText>,
    pub username: Option<String>,
    pub password: Option<String>,
    pub dns: Option<Vec<DnsEntry>>,
    pub host: Option<String>,
    pub hostname: Option<String>,
    pub time: Option<String>,
    pub reconnect: Option<i64>,
    pub heartbeat: Option<HeartbeatTable>,
    pub retry: Option<RetryTable>,
    pub log: Option<LogTable>,
    pub data: Option<DataTable>,
}

} // verus!
