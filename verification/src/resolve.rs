//! Resolution of the settings from the command line arguments and the
//! configuration file: arguments win over the file, blank values count as
//! absent, a few values are required and the rest keep their defaults.
use crate::net::{parse_mac, parsed_mac, IpAddress, IpText, MacAddr, SocketAddress};
use crate::settings::{
    Data, Heartbeat, LevelFilter, Log, MiscInfo, ResponseIdentity, ResponseMd5Challenge, Retry,
    Settings, TimeOfDay,
};
use crate::source::{
    ConfigValues, DataTable, DnsEntry, HeartbeatTable, LogTable, MiscInfoTable, RetryTable, RunArgs,
    SettingsError, UnknownTable,
};
use crate::text::{
    ascii_upper, blank, hex_decode, hex_decoding, is_blank, level_named, parse_level_filter,
    parse_time, parsed_naive_time, path_is_relative, path_join, path_joined, path_parent,
    path_parent_text, path_relative, system_hostname, to_ascii_uppercase,
};
use vstd::prelude::*;

verus! {

// ------------------------------------------------------------------ choices

/// The text of an optional `String`.
pub open spec fn opt_view(o: Option<String>) -> Option<Seq<char>> {
    match o {
        Some(s) => Some(s@),
        None => None,
    }
}

/// The argument if one was given, else the configuration file's value.
pub open spec fn given(arg: Option<String>, cfg: Option<String>) -> Option<Seq<char>> {
    match arg {
        Some(a) => Some(a@),
        None => opt_view(cfg),
    }
}

/// A value, unless it is blank.
pub open spec fn unless_blank(o: Option<Seq<char>>) -> Option<Seq<char>> {
    match o {
        Some(s) => if is_blank(s) {
            None
        } else {
            Some(s)
        },
        None => None,
    }
}

/// The text the MAC address is read from: the argument as given, else the
/// configuration file's value unless blank.
pub open spec fn mac_text(a: RunArgs, c: ConfigValues) -> Option<Seq<char>> {
    match a.mac {
        Some(s) => Some(s@),
        None => unless_blank(opt_view(c.mac)),
    }
}

/// What the IP address is read from, parsed: the argument as given, else the
/// configuration file's value unless blank.
pub open spec fn ip_choice(a: RunArgs, c: ConfigValues) -> Option<Option<IpAddress>> {
    match a.ip {
        Some(t) => Some(t.parsed),
        None => match c.ip {
            Some(t) => if is_blank(t.text@) {
                None
            } else {
                Some(t.parsed)
            },
            None => None,
        },
    }
}

/// A required text: the argument if given (else the file's value), unless blank.
pub open spec fn required(arg: Option<String>, cfg: Option<String>) -> Option<Seq<char>> {
    unless_blank(given(arg, cfg))
}

/// Adds the DNS servers of `entries`, in order, to `acc`, skipping those
/// already there; the first entry that is no address is an error.
pub open spec fn dns_merge(acc: Seq<SocketAddress>, entries: Seq<DnsEntry>) -> Result<
    Seq<SocketAddress>,
    SettingsError,
>
    decreases entries.len(),
{
    if entries.len() == 0 {
        Ok(acc)
    } else {
        match entries[0] {
            DnsEntry::NotText => Err(SettingsError::InvalidDnsValue),
            DnsEntry::Unparsable => Err(SettingsError::InvalidDnsAddress),
            DnsEntry::Address(x) => dns_merge(
                if acc.contains(x) {
                    acc
                } else {
                    acc.push(x)
                },
                entries.drop_first(),
            ),
        }
    }
}

/// The DNS servers after the configuration file's `dns` list is added.
pub open spec fn dns_outcome(s: Settings, c: ConfigValues) -> Result<Seq<SocketAddress>, SettingsError> {
    dns_added(s.dns@, c.dns)
}

/// The DNS servers `acc` with the entries of a `dns` list added, if there is one.
pub open spec fn dns_added(acc: Seq<SocketAddress>, entries: Option<Vec<DnsEntry>>) -> Result<
    Seq<SocketAddress>,
    SettingsError,
> {
    match entries {
        Some(e) => dns_merge(acc, e@),
        None => Ok(acc),
    }
}

/// The format clock times are written in: hours and minutes.
pub open spec fn time_format() -> Seq<char> {
    seq!['%', 'H', ':', '%', 'M']
}

/// The time of day after the argument or file value is applied; `None`
/// when that value is no time.
pub open spec fn time_outcome(current: TimeOfDay, a: RunArgs, c: ConfigValues) -> Option<TimeOfDay> {
    match required(a.time, c.time) {
        Some(t) => match parsed_naive_time(t, time_format()) {
            Some((h, m, sec)) => Some(TimeOfDay { hour: h, minute: m, second: sec }),
            None => None,
        },
        None => Some(current),
    }
}

/// The first reason resolution fails for, in the order the settings are
/// resolved: MAC, IP, username, password, DNS, host name, time.
/// `system` is the host's own name, used when none is configured.
pub open spec fn resolve_failure(
    s: Settings,
    a: RunArgs,
    c: ConfigValues,
    system: Option<String>,
) -> Option<SettingsError> {
    if mac_text(a, c) matches Some(t) && parsed_mac(t) is None {
        Some(SettingsError::InvalidMac)
    } else if ip_choice(a, c) == Some(None::<IpAddress>) {
        Some(SettingsError::InvalidIp)
    } else if required(a.username, c.username) is None {
        Some(SettingsError::UsernameRequired)
    } else if required(a.password, c.password) is None {
        Some(SettingsError::PasswordRequired)
    } else {
        match dns_outcome(s, c) {
            Err(e) => Some(e),
            Ok(_) => if required(a.hostname, c.hostname) is None && system is None {
                Some(SettingsError::HostnameUnavailable)
            } else if time_outcome(s.time, a, c) is None {
                Some(SettingsError::InvalidTime)
            } else {
                None
            },
        }
    }
}

// ------------------------------------------------------------ plain values

/// An integer of the file, truncated to the width of the field it goes to.
pub open spec fn heartbeat_outcome(h: Heartbeat, t: Option<HeartbeatTable>) -> Heartbeat {
    match t {
        Some(t) => Heartbeat {
            eap_timeout: match t.eap_timeout {
                Some(x) => x as i32,
                None => h.eap_timeout,
            },
            udp_timeout: match t.udp_timeout {
                Some(x) => x as i32,
                None => h.udp_timeout,
            },
        },
        None => h,
    }
}

/// The retry settings after the `retry` table is applied.
pub open spec fn retry_outcome(r: Retry, t: Option<RetryTable>) -> Retry {
    match t {
        Some(t) => Retry {
            count: match t.count {
                Some(x) => x as i32,
                None => r.count,
            },
            interval: match t.interval {
                Some(x) => x as i32,
                None => r.interval,
            },
        },
        None => r,
    }
}

/// The reconnect interval after the file's `reconnect` is applied.
pub open spec fn reconnect_outcome(r: u64, x: Option<i64>) -> u64 {
    match x {
        Some(x) => x as u64,
        None => r,
    }
}

/// The `log` table is only read while logging is not switched off.
pub open spec fn log_table(l: Log, t: Option<LogTable>) -> Option<LogTable> {
    if l.level_filter != LevelFilter::Off {
        t
    } else {
        None
    }
}

/// A flag of the `log` table, or the current value.
pub open spec fn flag_or(current: bool, x: Option<bool>) -> bool {
    match x {
        Some(b) => b,
        None => current,
    }
}

/// The log level after the `log` table is applied: its `level` read as a
/// level name in upper case, when it is one.
pub open spec fn level_outcome(l: Log, t: Option<LogTable>) -> LevelFilter {
    match log_table(l, t) {
        Some(t) => match t.level {
            Some(x) => match level_named(x@.map_values(|c: char| ascii_upper(c))) {
                Some(v) => v,
                None => l.level_filter,
            },
            None => l.level_filter,
        },
        None => l.level_filter,
    }
}

/// Whether console logging is on after the `log` table is applied.
pub open spec fn console_outcome(l: Log, t: Option<LogTable>) -> bool {
    match log_table(l, t) {
        Some(t) => flag_or(l.enable_console, t.enable_console),
        None => l.enable_console,
    }
}

/// Whether file logging is on after the `log` table is applied.
pub open spec fn file_outcome(l: Log, t: Option<LogTable>) -> bool {
    match log_table(l, t) {
        Some(t) => flag_or(l.enable_file, t.enable_file),
        None => l.enable_file,
    }
}

/// A protocol constant after a hexadecimal text of the file is applied:
/// replaced when the text decodes, kept otherwise.
pub open spec fn hex_or(current: Seq<u8>, text: Option<String>) -> Seq<u8> {
    match text {
        Some(t) => match hex_decoding(t@) {
            Some(v) => v,
            None => current,
        },
        None => current,
    }
}

/// The `unknown` text of a table of `data`.
pub open spec fn unknown_of(t: Option<UnknownTable>) -> Option<String> {
    match t {
        Some(t) => t.unknown,
        None => None,
    }
}

/// The `data.misc_info` table, if any.
pub open spec fn misc_table(t: Option<DataTable>) -> Option<MiscInfoTable> {
    match t {
        Some(d) => d.misc_info,
        None => None,
    }
}

/// A text of the `data.misc_info` table.
pub open spec fn misc_text(t: Option<DataTable>, f: spec_fn(MiscInfoTable) -> Option<String>) -> Option<
    String,
> {
    match misc_table(t) {
        Some(m) => f(m),
        None => None,
    }
}

/// The `unknown` text of the `data.response_identity` table.
pub open spec fn identity_text(t: Option<DataTable>) -> Option<String> {
    match t {
        Some(d) => unknown_of(d.response_identity),
        None => None,
    }
}

/// The `unknown` text of the `data.response_md5_challenge` table.
pub open spec fn challenge_text(t: Option<DataTable>) -> Option<String> {
    match t {
        Some(d) => unknown_of(d.response_md5_challenge),
        None => None,
    }
}

/// The protocol constants `out` after the `data` table is applied to `d`.
pub open spec fn data_outcome(d: Data, t: Option<DataTable>, out: Data) -> bool {
    let m = d.misc_info;
    let n = out.misc_info;
    &&& out.response_identity.unknown@ == hex_or(d.response_identity.unknown@, identity_text(t))
    &&& out.response_md5_challenge.unknown@ == hex_or(
        d.response_md5_challenge.unknown@,
        challenge_text(t),
    )
    &&& n.unknown1@ == hex_or(m.unknown1@, misc_text(t, |x: MiscInfoTable| x.unknown1))
    &&& n.cks32_param@ == hex_or(m.cks32_param@, misc_text(t, |x: MiscInfoTable| x.cks32_param))
    &&& n.unknown2@ == hex_or(m.unknown2@, misc_text(t, |x: MiscInfoTable| x.unknown2))
    &&& n.os_major@ == hex_or(m.os_major@, misc_text(t, |x: MiscInfoTable| x.os_major))
    &&& n.os_minor@ == hex_or(m.os_minor@, misc_text(t, |x: MiscInfoTable| x.os_minor))
    &&& n.os_build@ == hex_or(m.os_build@, misc_text(t, |x: MiscInfoTable| x.os_build))
    &&& n.os_unknown@ == hex_or(m.os_unknown@, misc_text(t, |x: MiscInfoTable| x.os_unknown))
    &&& n.version@ == hex_or(m.version@, misc_text(t, |x: MiscInfoTable| x.version))
    &&& n.hash@ == match misc_text(t, |x: MiscInfoTable| x.hash) {
        Some(h) => h@,
        None => m.hash@,
    }
}

/// What resolution gives when it succeeds, field by field. A relative log
/// directory is joined to the directory of the configuration file.
pub open spec fn resolved(
    s: Settings,
    a: RunArgs,
    c: ConfigValues,
    system: Option<String>,
    out: Settings,
) -> bool {
    &&& out.config_path@ == s.config_path@
    &&& out.mac == match mac_text(a, c) {
        Some(t) => parsed_mac(t),
        None => s.mac,
    }
    &&& out.ip == match ip_choice(a, c) {
        Some(p) => p,
        None => s.ip,
    }
    &&& Some(out.username@) == required(a.username, c.username)
    &&& Some(out.password@) == required(a.password, c.password)
    &&& dns_outcome(s, c) == Ok::<Seq<SocketAddress>, SettingsError>(out.dns@)
    &&& out.host@ == match required(a.host, c.host) {
        Some(h) => h,
        None => s.host@,
    }
    &&& Some(out.hostname@) == match required(a.hostname, c.hostname) {
        Some(h) => Some(h),
        None => opt_view(system),
    }
    &&& Some(out.time) == time_outcome(s.time, a, c)
    &&& out.reconnect == reconnect_outcome(s.reconnect, c.reconnect)
    &&& out.heartbeat == heartbeat_outcome(s.heartbeat, c.heartbeat)
    &&& out.retry == retry_outcome(s.retry, c.retry)
    &&& out.log.enable_console == console_outcome(s.log, c.log)
    &&& out.log.enable_file == file_outcome(s.log, c.log)
    &&& out.log.level_filter == level_outcome(s.log, c.log)
    &&& out.log.file_directory@ == placed_log_directory(
        s.config_path@,
        directory_outcome(s.log, c.log),
    )
    &&& data_outcome(s.data, c.data, out.data)
}

/// The outcome of resolution: an error exactly when `resolve_failure`
/// names one, else settings as `resolved` describes them.
pub open spec fn resolve_result(
    s: Settings,
    a: RunArgs,
    c: ConfigValues,
    system: Option<String>,
    r: Result<Settings, SettingsError>,
) -> bool {
    match r {
        Ok(out) => resolve_failure(s, a, c, system) is None && resolved(s, a, c, system, out),
        Err(e) => resolve_failure(s, a, c, system) == Some(e),
    }
}

/// The log directory after the `log` table is applied, before a relative
/// directory is joined to the configuration file's.
pub open spec fn directory_outcome(l: Log, t: Option<LogTable>) -> Seq<char> {
    match log_table(l, t) {
        Some(t) => match t.file_directory {
            Some(d) => d@,
            None => l.file_directory@,
        },
        None => l.file_directory@,
    }
}

/// Everything but the log directory is the same.
pub open spec fn same_but_log_directory(a: Settings, b: Settings) -> bool {
    &&& same_outside_log(a, b)
    &&& a.log.enable_console == b.log.enable_console
    &&& a.log.enable_file == b.log.enable_file
    &&& a.log.level_filter == b.log.level_filter
}

/// All settings but those of the log are the same.
pub open spec fn same_outside_log(a: Settings, b: Settings) -> bool {
    &&& a.config_path == b.config_path
    &&& a.mac == b.mac
    &&& a.ip == b.ip
    &&& a.username == b.username
    &&& a.password == b.password
    &&& a.dns == b.dns
    &&& a.host == b.host
    &&& a.hostname == b.hostname
    &&& a.time == b.time
    &&& a.reconnect == b.reconnect
    &&& a.heartbeat == b.heartbeat
    &&& a.retry == b.retry
    &&& a.data == b.data
}

// ------------------------------------------------------------ executable

fn clone_text(o: &Option<String>) -> (r: Option<String>)
    ensures
        opt_view(r) == opt_view(*o),
{
    match o {
        Some(s) => Some(s.clone()),
        None => None,
    }
}

/// The argument if given, else the configuration file's value.
fn given_text(arg: &Option<String>, cfg: &Option<String>) -> (r: Option<String>)
    ensures
        opt_view(r) == given(*arg, *cfg),
{
    match arg {
        Some(s) => Some(s.clone()),
        None => clone_text(cfg),
    }
}

/// A value unless it is blank.
fn non_blank(o: Option<String>) -> (r: Option<String>)
    ensures
        opt_view(r) == unless_blank(opt_view(o)),
{
    match o {
        Some(s) => if blank(s.as_str()) {
            None
        } else {
            Some(s)
        },
        None => None,
    }
}

/// The argument or the configuration file's value, unless blank.
fn required_text(arg: &Option<String>, cfg: &Option<String>) -> (r: Option<String>)
    ensures
        opt_view(r) == required(*arg, *cfg),
{
    non_blank(given_text(arg, cfg))
}

fn resolve_mac(current: Option<MacAddr>, a: &RunArgs, c: &ConfigValues) -> (r: Result<
    Option<MacAddr>,
    SettingsError,
>)
    ensures
        match mac_text(*a, *c) {
            Some(t) => match parsed_mac(t) {
                Some(m) => r == Ok::<Option<MacAddr>, SettingsError>(Some(m)),
                None => r == Err::<Option<MacAddr>, SettingsError>(SettingsError::InvalidMac),
            },
            None => r == Ok::<Option<MacAddr>, SettingsError>(current),
        },
{
    let text = match &a.mac {
        Some(s) => Some(s.clone()),
        None => non_blank(clone_text(&c.mac)),
    };
    match text {
        Some(t) => match parse_mac(t.as_str()) {
            Some(m) => Ok(Some(m)),
            None => Err(SettingsError::InvalidMac),
        },
        None => Ok(current),
    }
}

fn parsed_ip(t: &IpText) -> (r: Result<Option<IpAddress>, SettingsError>)
    ensures
        match t.parsed {
            Some(x) => r == Ok::<Option<IpAddress>, SettingsError>(Some(x)),
            None => r == Err::<Option<IpAddress>, SettingsError>(SettingsError::InvalidIp),
        },
{
    match t.parsed {
        Some(x) => Ok(Some(x)),
        None => Err(SettingsError::InvalidIp),
    }
}

fn resolve_ip(current: Option<IpAddress>, a: &RunArgs, c: &ConfigValues) -> (r: Result<
    Option<IpAddress>,
    SettingsError,
>)
    ensures
        match ip_choice(*a, *c) {
            Some(Some(x)) => r == Ok::<Option<IpAddress>, SettingsError>(Some(x)),
            Some(None) => r == Err::<Option<IpAddress>, SettingsError>(SettingsError::InvalidIp),
            None => r == Ok::<Option<IpAddress>, SettingsError>(current),
        },
{
    match &a.ip {
        Some(t) => parsed_ip(t),
        None => match &c.ip {
            Some(t) => if blank(t.text.as_str()) {
                Ok(current)
            } else {
                parsed_ip(t)
            },
            None => Ok(current),
        },
    }
}

/// Whether `x` is one of `v`.
fn contains_address(v: &Vec<SocketAddress>, x: &SocketAddress) -> (r: bool)
    ensures
        r == v@.contains(*x),
{
    let mut i: usize = 0;
    while i < v.len()
        invariant
            i <= v.len(),
            forall|j: int| 0 <= j < i ==> v@[j] != *x,
        decreases v.len() - i,
    {
        if v[i] == *x {
            assert(v@[i as int] == *x);
            return true;
        }
        i = i + 1;
    }
    false
}

/// Adds the DNS servers of the configuration file to `dns`.
fn resolve_dns(dns: Vec<SocketAddress>, entries: &Option<Vec<DnsEntry>>) -> (r: Result<
    Vec<SocketAddress>,
    SettingsError,
>)
    ensures
        r matches Ok(v) ==> dns_added(dns@, *entries) == Ok::<Seq<SocketAddress>, SettingsError>(
            v@,
        ),
        r matches Err(x) ==> dns_added(dns@, *entries) == Err::<Seq<SocketAddress>, SettingsError>(
            x,
        ),
{
    match entries {
        None => Ok(dns),
        Some(e) => {
            let mut acc = dns;
            let mut i: usize = 0;
            assert(e@.skip(0) =~= e@);
            while i < e.len()
                invariant
                    i <= e.len(),
                    dns_merge(acc@, e@.skip(i as int)) == dns_merge(dns@, e@),
                    dns_added(dns@, *entries) == dns_merge(dns@, e@),
                decreases e.len() - i,
            {
                let ghost rest = e@.skip(i as int);
                assert(rest[0] == e@[i as int]);
                assert(rest.drop_first() =~= e@.skip(i + 1));
                match e[i] {
                    DnsEntry::NotText => {
                        assert(dns_merge(acc@, rest) == Err::<Seq<SocketAddress>, SettingsError>(
                            SettingsError::InvalidDnsValue,
                        ));
                        return Err(SettingsError::InvalidDnsValue);
                    },
                    DnsEntry::Unparsable => {
                        assert(dns_merge(acc@, rest) == Err::<Seq<SocketAddress>, SettingsError>(
                            SettingsError::InvalidDnsAddress,
                        ));
                        return Err(SettingsError::InvalidDnsAddress);
                    },
                    DnsEntry::Address(x) => {
                        if !contains_address(&acc, &x) {
                            acc.push(x);
                        }
                    },
                }
                i = i + 1;
            }
            assert(e@.skip(e.len() as int) =~= Seq::<DnsEntry>::empty());
            Ok(acc)
        },
    }
}

fn resolve_time(current: TimeOfDay, a: &RunArgs, c: &ConfigValues) -> (r: Result<
    TimeOfDay,
    SettingsError,
>)
    ensures
        match time_outcome(current, *a, *c) {
            Some(t) => r == Ok::<TimeOfDay, SettingsError>(t),
            None => r == Err::<TimeOfDay, SettingsError>(SettingsError::InvalidTime),
        },
{
    proof {
        reveal_strlit("%H:%M");
    }
    assert("%H:%M"@ == time_format());
    match required_text(&a.time, &c.time) {
        Some(t) => match parse_time(t.as_str(), "%H:%M") {
            Some(v) => Ok(v),
            None => Err(SettingsError::InvalidTime),
        },
        None => Ok(current),
    }
}

fn heartbeat_resolved(h: Heartbeat, t: &Option<HeartbeatTable>) -> (r: Heartbeat)
    ensures
        r == heartbeat_outcome(h, *t),
{
    match t {
        Some(t) => Heartbeat {
            eap_timeout: match t.eap_timeout {
                Some(x) => x as i32,
                None => h.eap_timeout,
            },
            udp_timeout: match t.udp_timeout {
                Some(x) => x as i32,
                None => h.udp_timeout,
            },
        },
        None => h,
    }
}

fn retry_resolved(r0: Retry, t: &Option<RetryTable>) -> (r: Retry)
    ensures
        r == retry_outcome(r0, *t),
{
    match t {
        Some(t) => Retry {
            count: match t.count {
                Some(x) => x as i32,
                None => r0.count,
            },
            interval: match t.interval {
                Some(x) => x as i32,
                None => r0.interval,
            },
        },
        None => r0,
    }
}

fn flag_resolved(current: bool, x: Option<bool>) -> (r: bool)
    ensures
        r == flag_or(current, x),
{
    match x {
        Some(b) => b,
        None => current,
    }
}

/// Applies the `log` table, unless logging is switched off.
fn log_resolved(l: Log, t: &Option<LogTable>) -> (r: Log)
    ensures
        r.enable_console == console_outcome(l, *t),
        r.enable_file == file_outcome(l, *t),
        r.level_filter == level_outcome(l, *t),
        r.file_directory@ == directory_outcome(l, *t),
{
    if l.level_filter != LevelFilter::Off {
        match t {
            Some(t) => {
                let level = match &t.level {
                    Some(x) => {
                        let upper = to_ascii_uppercase(x.as_str());
                        match parse_level_filter(upper.as_str()) {
                            Some(v) => v,
                            None => l.level_filter,
                        }
                    },
                    None => l.level_filter,
                };
                let dir = match &t.file_directory {
                    Some(d) => d.clone(),
                    None => l.file_directory,
                };
                Log {
                    enable_console: flag_resolved(l.enable_console, t.enable_console),
                    enable_file: flag_resolved(l.enable_file, t.enable_file),
                    file_directory: dir,
                    level_filter: level,
                }
            },
            None => l,
        }
    } else {
        l
    }
}

/// A protocol constant replaced by a hexadecimal text that decodes.
fn hex_override(current: Vec<u8>, text: &Option<String>) -> (r: Vec<u8>)
    ensures
        r@ == hex_or(current@, *text),
{
    match text {
        Some(t) => match hex_decode(t.as_str()) {
            Some(v) => v,
            None => current,
        },
        None => current,
    }
}

fn unknown_text(t: &Option<UnknownTable>) -> (r: Option<String>)
    ensures
        opt_view(r) == opt_view(unknown_of(*t)),
        r is Some <==> unknown_of(*t) is Some,
{
    match t {
        Some(t) => clone_text(&t.unknown),
        None => None,
    }
}

/// Applies the `misc_info` table.
fn misc_resolved(m: MiscInfo, t: &MiscInfoTable) -> (r: MiscInfo)
    ensures
        r.unknown1@ == hex_or(m.unknown1@, t.unknown1),
        r.cks32_param@ == hex_or(m.cks32_param@, t.cks32_param),
        r.unknown2@ == hex_or(m.unknown2@, t.unknown2),
        r.os_major@ == hex_or(m.os_major@, t.os_major),
        r.os_minor@ == hex_or(m.os_minor@, t.os_minor),
        r.os_build@ == hex_or(m.os_build@, t.os_build),
        r.os_unknown@ == hex_or(m.os_unknown@, t.os_unknown),
        r.version@ == hex_or(m.version@, t.version),
        r.hash@ == match t.hash {
            Some(h) => h@,
            None => m.hash@,
        },
{
    MiscInfo {
        unknown1: hex_override(m.unknown1, &t.unknown1),
        cks32_param: hex_override(m.cks32_param, &t.cks32_param),
        unknown2: hex_override(m.unknown2, &t.unknown2),
        os_major: hex_override(m.os_major, &t.os_major),
        os_minor: hex_override(m.os_minor, &t.os_minor),
        os_build: hex_override(m.os_build, &t.os_build),
        os_unknown: hex_override(m.os_unknown, &t.os_unknown),
        version: hex_override(m.version, &t.version),
        hash: match &t.hash {
            Some(h) => h.clone(),
            None => m.hash,
        },
    }
}

/// Applies the `data` table.
fn data_resolved(d: Data, t: &Option<DataTable>) -> (r: Data)
    ensures
        data_outcome(d, *t, r),
{
    match t {
        Some(table) => {
            let identity = unknown_text(&table.response_identity);
            let challenge = unknown_text(&table.response_md5_challenge);
            let misc = match &table.misc_info {
                Some(m) => misc_resolved(d.misc_info, m),
                None => d.misc_info,
            };
            Data {
                response_identity: ResponseIdentity {
                    unknown: hex_override(d.response_identity.unknown, &identity),
                },
                response_md5_challenge: ResponseMd5Challenge {
                    unknown: hex_override(d.response_md5_challenge.unknown, &challenge),
                },
                misc_info: misc,
            }
        },
        None => d,
    }
}

/// Where the log files of a configuration file at `config` go, for a log
/// directory `dir`: a relative directory is joined to the directory of the
/// configuration file (or to `.` when it has none); any other is kept.
pub open spec fn placed_log_directory(config: Seq<char>, dir: Seq<char>) -> Seq<char> {
    if path_relative(dir) {
        path_joined(
            match path_parent_text(config) {
                Some(p) => p,
                None => seq!['.'],
            },
            dir,
        )
    } else {
        dir
    }
}

/// Joins a relative log directory to the directory of the configuration
/// file (or `.` when it has none); everything else stays as it is.
pub fn resolve_log_directory(settings: &mut Settings)
    ensures
        same_but_log_directory(*old(settings), *final(settings)),
        final(settings).log.file_directory@ == placed_log_directory(
            old(settings).config_path@,
            old(settings).log.file_directory@,
        ),
{
    proof {
        reveal_strlit(".");
    }
    assert("."@ =~= seq!['.']);
    if path_is_relative(settings.log.file_directory.as_str()) {
        let parent = match path_parent(settings.config_path.as_str()) {
            Some(p) => p,
            None => ".".to_owned(),
        };
        let joined = path_join(parent.as_str(), settings.log.file_directory.as_str());
        settings.log.file_directory = joined;
    }
}

impl Settings {
    /// Resolves the settings from the arguments and the configuration file,
    /// with `system` as the host name when none is configured.
    pub fn resolve_with_hostname(
        settings: Settings,
        args: &RunArgs,
        cfg: &ConfigValues,
        system: Option<String>,
    ) -> (r: Result<Settings, SettingsError>)
        ensures
            resolve_result(settings, *args, *cfg, system, r),
    {
        let mac = match resolve_mac(settings.mac, args, cfg) {
            Ok(m) => m,
            Err(e) => {
                return Err(e);
            },
        };
        let ip = match resolve_ip(settings.ip, args, cfg) {
            Ok(x) => x,
            Err(e) => {
                return Err(e);
            },
        };
        let username = match required_text(&args.username, &cfg.username) {
            Some(u) => u,
            None => {
                return Err(SettingsError::UsernameRequired);
            },
        };
        let password = match required_text(&args.password, &cfg.password) {
            Some(p) => p,
            None => {
                return Err(SettingsError::PasswordRequired);
            },
        };
        let dns = match resolve_dns(settings.dns, &cfg.dns) {
            Ok(d) => d,
            Err(e) => {
                return Err(e);
            },
        };
        let host = match required_text(&args.host, &cfg.host) {
            Some(h) => h,
            None => settings.host,
        };
        let hostname = match required_text(&args.hostname, &cfg.hostname) {
            Some(h) => h,
            None => match system {
                Some(h) => h,
                None => {
                    return Err(SettingsError::HostnameUnavailable);
                },
            },
        };
        let time = match resolve_time(settings.time, args, cfg) {
            Ok(t) => t,
            Err(e) => {
                return Err(e);
            },
        };
        let reconnect: u64 = match cfg.reconnect {
            Some(x) => x as u64,
            None => settings.reconnect,
        };
        let mut out = Settings {
            config_path: settings.config_path,
            mac,
            ip,
            username,
            password,
            dns,
            host,
            hostname,
            time,
            reconnect,
            heartbeat: heartbeat_resolved(settings.heartbeat, &cfg.heartbeat),
            retry: retry_resolved(settings.retry, &cfg.retry),
            data: data_resolved(settings.data, &cfg.data),
            log: log_resolved(settings.log, &cfg.log),
        };
        resolve_log_directory(&mut out);
        Ok(out)
    }

    /// Resolves the settings from the arguments and the configuration file.
    /// When neither names the host, the machine's own name is used; when
    /// that cannot be had either, the result is `HostnameUnavailable`.
    pub fn resolve(settings: Settings, args: &RunArgs, cfg: &ConfigValues) -> (r: Result<
        Settings,
        SettingsError,
    >)
        ensures
            required(args.hostname, cfg.hostname) is Some ==> resolve_result(
                settings,
                *args,
                *cfg,
                None,
                r,
            ),
            exists|system: Option<String>| resolve_result(settings, *args, *cfg, system, r),
    {
        let system = if required_text(&args.hostname, &cfg.hostname).is_some() {
            None
        } else {
            system_hostname()
        };
        let r = Settings::resolve_with_hostname(settings, args, cfg, system);
        assert(resolve_result(settings, *args, *cfg, system, r));
        r
    }
}

// ------------------------------------------------------------------- laws

/// Adding DNS servers keeps those already there first and in order, adds
/// every address of the list, adds nothing else, and adds no address twice.
pub proof fn lemma_dns_merge(acc: Seq<SocketAddress>, entries: Seq<DnsEntry>)
    requires
        dns_merge(acc, entries) is Ok,
    ensures
        ({
            let out = dns_merge(acc, entries)->Ok_0;
            &&& out.len() >= acc.len()
            &&& out.subrange(0, acc.len() as int) == acc
            &&& forall|i: int|
                0 <= i < entries.len() ==> (#[trigger] entries[i] matches DnsEntry::Address(x)
                    && out.contains(x))
            &&& forall|y: SocketAddress|
                #[trigger] out.contains(y) ==> acc.contains(y) || entries.contains(
                    DnsEntry::Address(y),
                )
            &&& acc.no_duplicates() ==> out.no_duplicates()
        }),
    decreases entries.len(),
{
    if entries.len() > 0 {
        let x: SocketAddress = entries[0]->Address_0;
        let next = if acc.contains(x) {
            acc
        } else {
            acc.push(x)
        };
        lemma_dns_merge(next, entries.drop_first());
        let out = dns_merge(acc, entries)->Ok_0;
        assert(out == dns_merge(next, entries.drop_first())->Ok_0);
        assert(out.subrange(0, next.len() as int) == next);
        assert(out.subrange(0, acc.len() as int) =~= acc) by {
            assert forall|k: int| 0 <= k < acc.len() implies out[k] == acc[k] by {
                assert(out.subrange(0, next.len() as int)[k] == next[k]);
            }
        }
        assert forall|i: int| 0 <= i < entries.len() implies (#[trigger] entries[i] matches DnsEntry::Address(z)
            && out.contains(z)) by {
            if i == 0 {
                if !acc.contains(x) {
                    assert(next[acc.len() as int] == x);
                }
                assert(next.contains(x));
                let k: int = choose|k: int| 0 <= k < next.len() && next[k] == x;
                assert(out.subrange(0, next.len() as int)[k] == next[k]);
                assert(out[k] == x);
            } else {
                assert(entries.drop_first()[i - 1] == entries[i]);
            }
        }
        assert forall|y: SocketAddress| #[trigger] out.contains(y) implies acc.contains(y)
            || entries.contains(DnsEntry::Address(y)) by {
            if next.contains(y) && !acc.contains(y) {
                assert(y == x);
                assert(entries[0] == DnsEntry::Address(y));
            } else if !next.contains(y) {
                assert(entries.drop_first().contains(DnsEntry::Address(y)));
                let k: int = choose|k: int|
                    0 <= k < entries.drop_first().len() && entries.drop_first()[k]
                        == DnsEntry::Address(y);
                assert(entries[k + 1] == DnsEntry::Address(y));
            }
        }
        if acc.no_duplicates() {
            assert(next.no_duplicates()) by {
                if !acc.contains(x) {
                    assert forall|i: int, j: int|
                        0 <= i < next.len() && 0 <= j < next.len() && i != j implies next[i]
                        != next[j] by {
                        if i == acc.len() as int {
                            assert(next[j] == acc[j]);
                        } else if j == acc.len() as int {
                            assert(next[i] == acc[i]);
                        }
                    }
                }
            }
        }
    }
}

/// An argument that is given and not blank always wins over the
/// configuration file, for every text setting that has both.
pub proof fn lemma_arguments_win(
    s: Settings,
    a: RunArgs,
    c: ConfigValues,
    system: Option<String>,
    out: Settings,
)
    requires
        resolved(s, a, c, system, out),
    ensures
        a.username is Some && !is_blank(a.username->0@) ==> out.username@ == a.username->0@,
        a.password is Some && !is_blank(a.password->0@) ==> out.password@ == a.password->0@,
        a.host is Some && !is_blank(a.host->0@) ==> out.host@ == a.host->0@,
        a.hostname is Some && !is_blank(a.hostname->0@) ==> out.hostname@ == a.hostname->0@,
        a.mac is Some ==> out.mac == parsed_mac(a.mac->0@),
        a.ip is Some ==> out.ip == a.ip->0.parsed,
        a.time is Some && !is_blank(a.time->0@) && parsed_naive_time(a.time->0@, time_format())
            is Some ==> (out.time.hour, out.time.minute, out.time.second) == parsed_naive_time(
            a.time->0@,
            time_format(),
        )->0,
{
}

/// Where no argument is given, a value of the configuration file that is
/// not blank is the one used, for every setting the file can hold beside
/// an argument.
pub proof fn lemma_file_used_without_argument(
    s: Settings,
    a: RunArgs,
    c: ConfigValues,
    system: Option<String>,
    out: Settings,
)
    requires
        resolved(s, a, c, system, out),
    ensures
        a.username is None && c.username is Some && !is_blank(c.username->0@) ==> out.username@
            == c.username->0@,
        a.password is None && c.password is Some && !is_blank(c.password->0@) ==> out.password@
            == c.password->0@,
        a.host is None && c.host is Some && !is_blank(c.host->0@) ==> out.host@ == c.host->0@,
        a.hostname is None && c.hostname is Some && !is_blank(c.hostname->0@) ==> out.hostname@
            == c.hostname->0@,
        a.mac is None && c.mac is Some && !is_blank(c.mac->0@) ==> out.mac == parsed_mac(
            c.mac->0@,
        ),
        a.ip is None && c.ip is Some && !is_blank(c.ip->0.text@) ==> out.ip == c.ip->0.parsed,
        a.time is None && c.time is Some && !is_blank(c.time->0@) && parsed_naive_time(
            c.time->0@,
            time_format(),
        ) is Some ==> (out.time.hour, out.time.minute, out.time.second) == parsed_naive_time(
            c.time->0@,
            time_format(),
        )->0,
{
}

/// Where neither an argument nor the configuration file names the host,
/// the machine's own host name is used.
pub proof fn lemma_hostname_from_system(
    s: Settings,
    a: RunArgs,
    c: ConfigValues,
    system: Option<String>,
    out: Settings,
)
    requires
        resolved(s, a, c, system, out),
        a.hostname is None,
        c.hostname is None || is_blank(c.hostname->0@),
    ensures
        system is Some ==> out.hostname@ == system->0@,
{
}

/// The tables of the configuration file replace exactly the entries they
/// hold: an integer is truncated to the width of its field, a flag is
/// taken as it is, and a hexadecimal constant replaces the default when it
/// decodes. While logging is off the `log` table is not read.
pub proof fn lemma_file_tables_applied(
    s: Settings,
    a: RunArgs,
    c: ConfigValues,
    system: Option<String>,
    out: Settings,
)
    requires
        resolved(s, a, c, system, out),
    ensures
        c.reconnect is Some ==> out.reconnect == c.reconnect->0 as u64,
        c.heartbeat is Some && c.heartbeat->0.eap_timeout is Some ==> out.heartbeat.eap_timeout
            == c.heartbeat->0.eap_timeout->0 as i32,
        c.heartbeat is Some && c.heartbeat->0.eap_timeout is None ==> out.heartbeat.eap_timeout
            == s.heartbeat.eap_timeout,
        c.heartbeat is Some && c.heartbeat->0.udp_timeout is Some ==> out.heartbeat.udp_timeout
            == c.heartbeat->0.udp_timeout->0 as i32,
        c.heartbeat is Some && c.heartbeat->0.udp_timeout is None ==> out.heartbeat.udp_timeout
            == s.heartbeat.udp_timeout,
        c.retry is Some && c.retry->0.count is Some ==> out.retry.count == c.retry->0.count->0 as i32,
        c.retry is Some && c.retry->0.count is None ==> out.retry.count == s.retry.count,
        c.retry is Some && c.retry->0.interval is Some ==> out.retry.interval
            == c.retry->0.interval->0 as i32,
        c.retry is Some && c.retry->0.interval is None ==> out.retry.interval == s.retry.interval,
        s.log.level_filter != LevelFilter::Off && c.log is Some && c.log->0.enable_console is Some
            ==> out.log.enable_console == c.log->0.enable_console->0,
        s.log.level_filter != LevelFilter::Off && c.log is Some && c.log->0.enable_file is Some
            ==> out.log.enable_file == c.log->0.enable_file->0,
        s.log.level_filter != LevelFilter::Off && c.log is Some && c.log->0.level is Some
            && level_named(c.log->0.level->0@.map_values(|ch: char| ascii_upper(ch))) is Some
            ==> Some(out.log.level_filter) == level_named(
            c.log->0.level->0@.map_values(|ch: char| ascii_upper(ch)),
        ),
        s.log.level_filter == LevelFilter::Off ==> out.log.enable_console == s.log.enable_console
            && out.log.enable_file == s.log.enable_file && out.log.level_filter == LevelFilter::Off,
        c.data is Some && c.data->0.response_identity is Some
            && c.data->0.response_identity->0.unknown is Some && hex_decoding(
            c.data->0.response_identity->0.unknown->0@,
        ) is Some ==> out.data.response_identity.unknown@ == hex_decoding(
            c.data->0.response_identity->0.unknown->0@,
        )->0,
        c.data is Some && c.data->0.response_md5_challenge is Some
            && c.data->0.response_md5_challenge->0.unknown is Some && hex_decoding(
            c.data->0.response_md5_challenge->0.unknown->0@,
        ) is Some ==> out.data.response_md5_challenge.unknown@ == hex_decoding(
            c.data->0.response_md5_challenge->0.unknown->0@,
        )->0,
        c.data is Some && c.data->0.misc_info is Some && c.data->0.misc_info->0.hash is Some
            ==> out.data.misc_info.hash@ == c.data->0.misc_info->0.hash->0@,
        c.data is Some && c.data->0.misc_info is Some && c.data->0.misc_info->0.version is Some
            && hex_decoding(c.data->0.misc_info->0.version->0@) is Some
            ==> out.data.misc_info.version@ == hex_decoding(
            c.data->0.misc_info->0.version->0@,
        )->0,
{
}

/// Each hexadecimal entry of `data.misc_info` replaces the constant of the
/// same name when it decodes, and leaves it as it was when it does not.
pub proof fn lemma_misc_info_applied(
    s: Settings,
    a: RunArgs,
    c: ConfigValues,
    system: Option<String>,
    out: Settings,
)
    requires
        resolved(s, a, c, system, out),
    ensures
        misc_table(c.data) is Some && misc_table(c.data)->0.unknown1 is Some && hex_decoding(
            misc_table(c.data)->0.unknown1->0@,
        ) is Some ==> out.data.misc_info.unknown1@ == hex_decoding(misc_table(c.data)->0.unknown1->0@)->0,
        misc_table(c.data) is Some && misc_table(c.data)->0.unknown1 is Some && hex_decoding(
            misc_table(c.data)->0.unknown1->0@,
        ) is None ==> out.data.misc_info.unknown1@ == s.data.misc_info.unknown1@,
        misc_table(c.data) is Some && misc_table(c.data)->0.cks32_param is Some && hex_decoding(
            misc_table(c.data)->0.cks32_param->0@,
        ) is Some ==> out.data.misc_info.cks32_param@ == hex_decoding(misc_table(c.data)->0.cks32_param->0@)->0,
        misc_table(c.data) is Some && misc_table(c.data)->0.cks32_param is Some && hex_decoding(
            misc_table(c.data)->0.cks32_param->0@,
        ) is None ==> out.data.misc_info.cks32_param@ == s.data.misc_info.cks32_param@,
        misc_table(c.data) is Some && misc_table(c.data)->0.unknown2 is Some && hex_decoding(
            misc_table(c.data)->0.unknown2->0@,
        ) is Some ==> out.data.misc_info.unknown2@ == hex_decoding(misc_table(c.data)->0.unknown2->0@)->0,
        misc_table(c.data) is Some && misc_table(c.data)->0.unknown2 is Some && hex_decoding(
            misc_table(c.data)->0.unknown2->0@,
        ) is None ==> out.data.misc_info.unknown2@ == s.data.misc_info.unknown2@,
        misc_table(c.data) is Some && misc_table(c.data)->0.os_major is Some && hex_decoding(
            misc_table(c.data)->0.os_major->0@,
        ) is Some ==> out.data.misc_info.os_major@ == hex_decoding(misc_table(c.data)->0.os_major->0@)->0,
        misc_table(c.data) is Some && misc_table(c.data)->0.os_major is Some && hex_decoding(
            misc_table(c.data)->0.os_major->0@,
        ) is None ==> out.data.misc_info.os_major@ == s.data.misc_info.os_major@,
        misc_table(c.data) is Some && misc_table(c.data)->0.os_minor is Some && hex_decoding(
            misc_table(c.data)->0.os_minor->0@,
        ) is Some ==> out.data.misc_info.os_minor@ == hex_decoding(misc_table(c.data)->0.os_minor->0@)->0,
        misc_table(c.data) is Some && misc_table(c.data)->0.os_minor is Some && hex_decoding(
            misc_table(c.data)->0.os_minor->0@,
        ) is None ==> out.data.misc_info.os_minor@ == s.data.misc_info.os_minor@,
        misc_table(c.data) is Some && misc_table(c.data)->0.os_build is Some && hex_decoding(
            misc_table(c.data)->0.os_build->0@,
        ) is Some ==> out.data.misc_info.os_build@ == hex_decoding(misc_table(c.data)->0.os_build->0@)->0,
        misc_table(c.data) is Some && misc_table(c.data)->0.os_build is Some && hex_decoding(
            misc_table(c.data)->0.os_build->0@,
        ) is None ==> out.data.misc_info.os_build@ == s.data.misc_info.os_build@,
        misc_table(c.data) is Some && misc_table(c.data)->0.os_unknown is Some && hex_decoding(
            misc_table(c.data)->0.os_unknown->0@,
        ) is Some ==> out.data.misc_info.os_unknown@ == hex_decoding(misc_table(c.data)->0.os_unknown->0@)->0,
        misc_table(c.data) is Some && misc_table(c.data)->0.os_unknown is Some && hex_decoding(
            misc_table(c.data)->0.os_unknown->0@,
        ) is None ==> out.data.misc_info.os_unknown@ == s.data.misc_info.os_unknown@,
        misc_table(c.data) is Some && misc_table(c.data)->0.version is Some && hex_decoding(
            misc_table(c.data)->0.version->0@,
        ) is Some ==> out.data.misc_info.version@ == hex_decoding(misc_table(c.data)->0.version->0@)->0,
        misc_table(c.data) is Some && misc_table(c.data)->0.version is Some && hex_decoding(
            misc_table(c.data)->0.version->0@,
        ) is None ==> out.data.misc_info.version@ == s.data.misc_info.version@,
{
}

/// The log directory of resolved settings: an absolute directory from the
/// `log` table, or the current one, is used as it is; a relative one is
/// placed in the directory of the configuration file.
pub proof fn lemma_log_directory_placed(
    s: Settings,
    a: RunArgs,
    c: ConfigValues,
    system: Option<String>,
    out: Settings,
)
    requires
        resolved(s, a, c, system, out),
    ensures
        s.log.level_filter != LevelFilter::Off && c.log is Some && c.log->0.file_directory is Some
            && !path_relative(c.log->0.file_directory->0@) ==> out.log.file_directory@
            == c.log->0.file_directory->0@,
        s.log.level_filter != LevelFilter::Off && c.log is Some && c.log->0.file_directory is Some
            && path_relative(c.log->0.file_directory->0@) && path_parent_text(s.config_path@)
            is Some ==> out.log.file_directory@ == path_joined(
            path_parent_text(s.config_path@)->0,
            c.log->0.file_directory->0@,
        ),
        (c.log is None || s.log.level_filter == LevelFilter::Off) && !path_relative(
            s.log.file_directory@,
        ) ==> out.log.file_directory@ == s.log.file_directory@,
        out.config_path@ == s.config_path@,
{
}

/// Resolution is refused for the first missing or malformed value, in the
/// order MAC, IP, username, password: a MAC text that is no address is
/// refused first, and with a valid MAC and IP a missing username or
/// password is refused with its own error. Settings that resolve always
/// came from a username and a password that were given and not blank.
pub proof fn lemma_resolve_refusals(
    s: Settings,
    a: RunArgs,
    c: ConfigValues,
    system: Option<String>,
    r: Result<Settings, SettingsError>,
)
    requires
        resolve_result(s, a, c, system, r),
    ensures
        a.mac is Some && parsed_mac(a.mac->0@) is None ==> r == Err::<Settings, SettingsError>(
            SettingsError::InvalidMac,
        ),
        a.mac is None && a.ip is None && c.mac is None && c.ip is None && a.username is None
            && c.username is None ==> r == Err::<Settings, SettingsError>(
            SettingsError::UsernameRequired,
        ),
        a.mac is None && a.ip is None && c.mac is None && c.ip is None && a.username is Some
            && !is_blank(a.username->0@) && a.password is None && c.password is None
            ==> r == Err::<Settings, SettingsError>(SettingsError::PasswordRequired),
        a.ip is Some && a.ip->0.parsed is None && (a.mac is None && c.mac is None)
            ==> r == Err::<Settings, SettingsError>(SettingsError::InvalidIp),
        r is Ok ==> required(a.username, c.username) is Some && required(a.password, c.password)
            is Some,
{
}

/// Resolved settings always have a username, a password and a host name
/// that are not blank.
pub proof fn lemma_required_present(
    s: Settings,
    a: RunArgs,
    c: ConfigValues,
    system: Option<String>,
    out: Settings,
)
    requires
        resolved(s, a, c, system, out),
        required(a.hostname, c.hostname) is Some,
    ensures
        !is_blank(out.username@),
        !is_blank(out.password@),
        !is_blank(out.hostname@),
{
}

/// A value that is neither given as an argument nor in the configuration
/// file keeps the value it had.
pub proof fn lemma_absent_values_kept(
    s: Settings,
    a: RunArgs,
    c: ConfigValues,
    system: Option<String>,
    out: Settings,
)
    requires
        resolved(s, a, c, system, out),
    ensures
        a.mac is None && c.mac is None ==> out.mac == s.mac,
        a.ip is None && c.ip is None ==> out.ip == s.ip,
        a.host is None && c.host is None ==> out.host@ == s.host@,
        a.host is None && c.host is Some && is_blank(c.host->0@) ==> out.host@ == s.host@,
        a.time is None && c.time is Some && is_blank(c.time->0@) ==> out.time == s.time,
        a.time is None && c.time is None ==> out.time == s.time,
        c.dns is None ==> out.dns@ == s.dns@,
        c.reconnect is None ==> out.reconnect == s.reconnect,
        c.heartbeat is None ==> out.heartbeat == s.heartbeat,
        c.retry is None ==> out.retry == s.retry,
        c.data is None ==> out.data.response_identity.unknown@ == s.data.response_identity.unknown@
            && out.data.misc_info.version@ == s.data.misc_info.version@,
{
}

/// Resolved DNS servers hold every address of the configuration file's
/// list once, after the servers there were before, and nothing else.
pub proof fn lemma_dns_resolved(
    s: Settings,
    a: RunArgs,
    c: ConfigValues,
    system: Option<String>,
    out: Settings,
)
    requires
        resolved(s, a, c, system, out),
        s.dns@.no_duplicates(),
    ensures
        out.dns@.no_duplicates(),
        out.dns@.subrange(0, s.dns@.len() as int) == s.dns@,
        c.dns matches Some(entries) ==> forall|i: int|
            0 <= i < entries@.len() ==> (#[trigger] entries@[i] matches DnsEntry::Address(x)
                && out.dns@.contains(x)),
{
    if c.dns is Some {
        lemma_dns_merge(s.dns@, c.dns->0@);
    } else {
        assert(out.dns@.subrange(0, s.dns@.len() as int) =~= s.dns@);
    }
}

} // verus!
