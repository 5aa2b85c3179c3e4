//! Text helpers used by settings resolution: blank detection, the DNS
//! server default port rule, hexadecimal decoding, log level names, clock
//! times and the host's name.
use crate::settings::{LevelFilter, TimeOfDay};
use chrono::Timelike;
use vstd::prelude::*;
use vstd::string::*;

verus! {

broadcast use vstd::string::group_string_axioms;

// ---------------------------------------------------------------- blank text

/// The characters of the Unicode property White_Space, which `str::trim`
/// removes: U+0009 to U+000D, U+0020, U+0085, U+00A0, U+1680, U+2000 to
/// U+200A, U+2028, U+2029, U+202F, U+205F and U+3000.
pub open spec fn white_space(c: char) -> bool {
    let n = c as int;
    ||| 0x9 <= n <= 0xD
    ||| n == 0x20
    ||| n == 0x85
    ||| n == 0xA0
    ||| n == 0x1680
    ||| 0x2000 <= n <= 0x200A
    ||| n == 0x2028
    ||| n == 0x2029
    ||| n == 0x202F
    ||| n == 0x205F
    ||| n == 0x3000
}

/// A text without its leading white space.
pub open spec fn trim_start(s: Seq<char>) -> Seq<char>
    decreases s.len(),
{
    if s.len() > 0 && white_space(s[0]) {
        trim_start(s.drop_first())
    } else {
        s
    }
}

/// A text without its trailing white space.
pub open spec fn trim_end(s: Seq<char>) -> Seq<char>
    decreases s.len(),
{
    if s.len() > 0 && white_space(s.last()) {
        trim_end(s.drop_last())
    } else {
        s
    }
}

/// What `str::trim` leaves of a text: leading and trailing white space cut.
pub open spec fn trimmed(s: Seq<char>) -> Seq<char> {
    trim_end(trim_start(s))
}

/// A text is blank when nothing is left of it after trimming white space.
pub open spec fn is_blank(s: Seq<char>) -> bool {
    trimmed(s).len() == 0
}

proof fn lemma_trim_start(s: Seq<char>)
    ensures
        trim_start(s).len() == 0 <==> forall|i: int| 0 <= i < s.len() ==> #[trigger] white_space(s[i]),
        trim_start(s).len() > 0 ==> !white_space(trim_start(s)[0]),
    decreases s.len(),
{
    if s.len() > 0 && white_space(s[0]) {
        lemma_trim_start(s.drop_first());
        if trim_start(s).len() == 0 {
            assert forall|i: int| 0 <= i < s.len() implies #[trigger] white_space(s[i]) by {
                if i > 0 {
                    assert(s.drop_first()[i - 1] == s[i]);
                }
            }
        }
        if forall|i: int| 0 <= i < s.len() ==> #[trigger] white_space(s[i]) {
            assert forall|i: int| 0 <= i < s.drop_first().len() implies #[trigger] white_space(
                s.drop_first()[i],
            ) by {
                assert(s.drop_first()[i] == s[i + 1]);
            }
        }
    } else if s.len() > 0 {
        assert(!white_space(s[0]));
    }
}

proof fn lemma_trim_end_keeps_start(s: Seq<char>)
    requires
        s.len() > 0,
        !white_space(s[0]),
    ensures
        trim_end(s).len() > 0,
    decreases s.len(),
{
    if white_space(s.last()) {
        if s.len() > 1 {
            assert(s.drop_last()[0] == s[0]);
            lemma_trim_end_keeps_start(s.drop_last());
        }
    }
}

/// A text is blank exactly when all its characters are white space.
pub proof fn lemma_blank_iff_white_space(s: Seq<char>)
    ensures
        is_blank(s) <==> forall|i: int| 0 <= i < s.len() ==> #[trigger] white_space(s[i]),
{
    lemma_trim_start(s);
    if trim_start(s).len() > 0 {
        lemma_trim_end_keeps_start(trim_start(s));
    }
}

/// Whether `c` is a character of the Unicode property White_Space.
fn is_white_space(c: char) -> (r: bool)
    ensures
        r == white_space(c),
{
    let n: u32 = c as u32;
    (0x9 <= n && n <= 0xD) || n == 0x20 || n == 0x85 || n == 0xA0 || n == 0x1680 || (0x2000 <= n
        && n <= 0x200A) || n == 0x2028 || n == 0x2029 || n == 0x202F || n == 0x205F || n == 0x3000
}

/// Whether `s` is empty or white space only (what trimming would leave
/// empty).
pub fn blank(s: &str) -> (r: bool)
    ensures
        r == is_blank(s@),
{
    proof {
        lemma_blank_iff_white_space(s@);
    }
    for c in it: s.chars()
        invariant
            it.seq() == s@,
            forall|i: int| 0 <= i < it.index() ==> #[trigger] white_space(s@[i]),
            is_blank(s@) <==> forall|i: int| 0 <= i < s@.len() ==> #[trigger] white_space(s@[i]),
    {
        if !is_white_space(c) {
            return false;
        }
    }
    true
}

// ------------------------------------------------------------- DNS servers

/// Whether `c` occurs in `s`.
pub open spec fn has_char(s: Seq<char>, c: char) -> bool {
    exists|i: int| 0 <= i < s.len() && s[i] == c
}

/// Whether `]` is immediately followed by `:` somewhere in `s`.
pub open spec fn has_bracket_port(s: Seq<char>) -> bool {
    exists|i: int| #![trigger s[i]] 0 <= i < s.len() - 1 && s[i] == ']' && s[i + 1] == ':'
}

/// A DNS server written without a port gets the default port 53: that is
/// the case when it has no `:` at all, or when it is a bracketed IPv6
/// address with no `]:` after it.
pub open spec fn lacks_port(s: Seq<char>) -> bool {
    (has_char(s, ']') && !has_bracket_port(s)) || !has_char(s, ':')
}

/// The text of a DNS server with the default port appended where it has none.
pub open spec fn dns_server_spec(s: Seq<char>) -> Seq<char> {
    if lacks_port(s) {
        s + seq![':', '5', '3']
    } else {
        s
    }
}

/// A DNS server text always holds a `:` once the default port rule is
/// applied, and is either left alone or given `:53` at its end: a text with
/// no `:` and a bracketed address with no port after its brackets get the
/// default port; one with a port after its brackets, and a plain address
/// with a `:` and no brackets, are left alone.
pub proof fn lemma_dns_server_port(s: Seq<char>)
    ensures
        has_char(dns_server_spec(s), ':'),
        has_bracket_port(s) ==> dns_server_spec(s) == s,
        dns_server_spec(s) == s || dns_server_spec(s) == s + seq![':', '5', '3'],
        !has_char(s, ':') ==> dns_server_spec(s) == s + seq![':', '5', '3'],
        has_char(s, ']') && !has_bracket_port(s) ==> dns_server_spec(s) == s + seq![':', '5', '3'],
        has_char(s, ':') && !has_char(s, ']') ==> dns_server_spec(s) == s,
{
    if lacks_port(s) {
        let t = s + seq![':', '5', '3'];
        assert(t[s.len() as int] == ':');
    } else {
    }
    if has_bracket_port(s) {
        let i: int = choose|i: int| #![trigger s[i]] 0 <= i < s.len() - 1 && s[i] == ']' && s[i + 1] == ':';
        assert(s[i + 1] == ':');
    }
}

/// Scans `s` for `:`, `]` and `]:`.
fn port_marks(s: &str) -> (r: (bool, bool, bool))
    ensures
        r.0 == has_char(s@, ':'),
        r.1 == has_char(s@, ']'),
        r.2 == has_bracket_port(s@),
{
    let mut colon = false;
    let mut bracket = false;
    let mut bracket_port = false;
    let mut prev_bracket = false;
    for c in it: s.chars()
        invariant
            it.seq() == s@,
            colon == (exists|i: int| 0 <= i < it.index() && s@[i] == ':'),
            bracket == (exists|i: int| 0 <= i < it.index() && s@[i] == ']'),
            bracket_port == (exists|i: int| #![trigger s@[i]]
                0 <= i < it.index() - 1 && s@[i] == ']' && s@[i + 1] == ':'),
            prev_bracket == (it.index() > 0 && s@[it.index() - 1] == ']'),
    {
        if c == ':' {
            colon = true;
            if prev_bracket {
                bracket_port = true;
            }
        }
        if c == ']' {
            bracket = true;
        }
        prev_bracket = c == ']';
    }
    (colon, bracket, bracket_port)
}

/// Appends the default DNS port 53 to a server address that has none.
pub fn dns_server_text(s: &str) -> (r: String)
    ensures
        r@ == dns_server_spec(s@),
{
    let (colon, bracket, bracket_port) = port_marks(s);
    let mut r = s.to_owned();
    if (bracket && !bracket_port) || !colon {
        r.append(":53");
        proof {
            reveal_strlit(":53");
        }
    }
    r
}

// ------------------------------------------------------------- hexadecimal

/// The value of a hexadecimal digit, either case.
pub open spec fn hex_digit(c: char) -> Option<int> {
    if '0' <= c && c <= '9' {
        Some(c as int - '0' as int)
    } else if 'a' <= c && c <= 'f' {
        Some(c as int - 'a' as int + 10)
    } else if 'A' <= c && c <= 'F' {
        Some(c as int - 'A' as int + 10)
    } else {
        None
    }
}

/// The bytes a hexadecimal text stands for, two digits per byte, high digit
/// first; `None` when the length is odd or a character is not a digit.
pub open spec fn hex_decoding(s: Seq<char>) -> Option<Seq<u8>> {
    if s.len() % 2 == 0 && forall|i: int| 0 <= i < s.len() ==> #[trigger] hex_digit(s[i]) is Some {
        Some(
            Seq::new(
                (s.len() / 2) as nat,
                |k: int| (hex_digit(s[2 * k])->0 * 16 + hex_digit(s[2 * k + 1])->0) as u8,
            ),
        )
    } else {
        None
    }
}

/// `hex::decode`: decodes a hexadecimal text of either case. As its source
/// shows, it fails on an odd length (counted in bytes, which a text with a
/// non-ASCII character fails anyway) or on a character that is no digit.
#[verifier::external_body]
pub(crate) fn hex_decode(s: &str) -> (r: Option<Vec<u8>>)
    ensures
        r is Some <==> hex_decoding(s@) is Some,
        r matches Some(v) ==> hex_decoding(s@) == Some(v@),
{
    hex::decode(s).ok()
}

// ---------------------------------------------------------------- log level

/// ASCII letters in upper case, everything else unchanged.
pub open spec fn ascii_upper(c: char) -> char {
    if 'a' <= c && c <= 'z' {
        (c as int - 32) as char
    } else {
        c
    }
}

/// ASCII letters in lower case, everything else unchanged.
pub open spec fn ascii_lower(c: char) -> char {
    if 'A' <= c && c <= 'Z' {
        (c as int + 32) as char
    } else {
        c
    }
}

/// `str::to_ascii_uppercase`: per its documentation, `a` to `z` become `A`
/// to `Z` and every other character is kept.
#[verifier::external_body]
pub(crate) fn to_ascii_uppercase(s: &str) -> (r: String)
    ensures
        r@ == s@.map_values(|c: char| ascii_upper(c)),
{
    s.to_ascii_uppercase()
}

/// The two texts are equal once ASCII letters are put in one case.
pub open spec fn eq_ignore_ascii_case(a: Seq<char>, b: Seq<char>) -> bool {
    a.len() == b.len() && forall|i: int| 0 <= i < a.len() ==> #[trigger] ascii_lower(a[i])
        == ascii_lower(b[i])
}

/// The level a name stands for, ignoring ASCII case: `OFF`, `ERROR`, `WARN`,
/// `INFO`, `DEBUG` or `TRACE`.
pub open spec fn level_named(s: Seq<char>) -> Option<LevelFilter> {
    if eq_ignore_ascii_case(s, seq!['O', 'F', 'F']) {
        Some(LevelFilter::Off)
    } else if eq_ignore_ascii_case(s, seq!['E', 'R', 'R', 'O', 'R']) {
        Some(LevelFilter::Error)
    } else if eq_ignore_ascii_case(s, seq!['W', 'A', 'R', 'N']) {
        Some(LevelFilter::Warn)
    } else if eq_ignore_ascii_case(s, seq!['I', 'N', 'F', 'O']) {
        Some(LevelFilter::Info)
    } else if eq_ignore_ascii_case(s, seq!['D', 'E', 'B', 'U', 'G']) {
        Some(LevelFilter::Debug)
    } else if eq_ignore_ascii_case(s, seq!['T', 'R', 'A', 'C', 'E']) {
        Some(LevelFilter::Trace)
    } else {
        None
    }
}

/// `log::LevelFilter::from_str`: its source compares the text, ignoring
/// ASCII case, with the names `OFF`, `ERROR`, `WARN`, `INFO`, `DEBUG`,
/// `TRACE` in that order and fails when none matches.
#[verifier::external_body]
pub(crate) fn parse_level_filter(s: &str) -> (r: Option<LevelFilter>)
    ensures
        r == level_named(s@),
{
    match s.parse::<log::LevelFilter>() {
        Ok(log::LevelFilter::Off) => Some(LevelFilter::Off),
        Ok(log::LevelFilter::Error) => Some(LevelFilter::Error),
        Ok(log::LevelFilter::Warn) => Some(LevelFilter::Warn),
        Ok(log::LevelFilter::Info) => Some(LevelFilter::Info),
        Ok(log::LevelFilter::Debug) => Some(LevelFilter::Debug),
        Ok(log::LevelFilter::Trace) => Some(LevelFilter::Trace),
        Err(_) => None,
    }
}

// --------------------------------------------------------------- clock time

/// What `chrono::NaiveTime::parse_from_str(s, fmt)` gives, as hour, minute
/// and second.
pub uninterp spec fn parsed_naive_time(s: Seq<char>, fmt: Seq<char>) -> Option<(u32, u32, u32)>;

/// `chrono::NaiveTime::parse_from_str`. The result is named; of it the
/// contract only adds what chrono's `Timelike` documents: hours are 0 to
/// 23, minutes and seconds 0 to 59.
#[verifier::external_body]
pub(crate) fn parse_time(s: &str, fmt: &str) -> (r: Option<TimeOfDay>)
    ensures
        r is Some <==> parsed_naive_time(s@, fmt@) is Some,
        r matches Some(t) ==> parsed_naive_time(s@, fmt@) == Some((t.hour, t.minute, t.second))
            && t.wf(),
{
    match chrono::NaiveTime::parse_from_str(s, fmt) {
        Ok(t) => Some(TimeOfDay { hour: t.hour(), minute: t.minute(), second: t.second() }),
        Err(_) => None,
    }
}

// ------------------------------------------------------------ host and paths

/// `hostname::get`, as UTF-8 text. The name of the machine depends on where
/// the program runs, so nothing is claimed of it.
#[verifier::external_body]
pub(crate) fn system_hostname() -> Option<String> {
    match hostname::get() {
        Ok(name) => match name.into_string() {
            Ok(s) => Some(s),
            Err(_) => None,
        },
        Err(_) => None,
    }
}

/// What `std::path::Path::join(base, rel)` gives, as text. Path syntax is
/// fixed by the platform the program is built for, so within a build the
/// result depends on the two texts alone; the name claims nothing more.
pub uninterp spec fn path_joined(base: Seq<char>, rel: Seq<char>) -> Seq<char>;

/// What `std::path::Path::parent` gives for a path, as text (`None` when
/// the path ends in a root or prefix, or is empty).
pub uninterp spec fn path_parent_text(p: Seq<char>) -> Option<Seq<char>>;

/// What `std::path::Path::is_relative` says of a path on the platform the
/// program is built for.
pub uninterp spec fn path_relative(p: Seq<char>) -> bool;

/// A path separator on some platform.
pub open spec fn is_separator(c: char) -> bool {
    c == '/' || c == '\\'
}

/// A path with no drive (`C:`), network (`\\server\share`), device or
/// verbatim prefix on any platform: it holds no `:` and does not start
/// with two separators.
pub open spec fn without_prefix(p: Seq<char>) -> bool {
    &&& !has_char(p, ':')
    &&& !(p.len() >= 2 && is_separator(p[0]) && is_separator(p[1]))
}

/// `std::path::Path::join`, as text. Joining UTF-8 texts gives UTF-8, so
/// `to_string_lossy` loses nothing; the result is named. As the
/// documentation of `PathBuf::push` and `Path::is_absolute` gives it, a
/// path without a prefix joined to an absolute one stays absolute: it is
/// appended, or (having a root) replaces all of the base but its prefix.
#[verifier::external_body]
pub(crate) fn path_join(base: &str, rel: &str) -> (r: String)
    ensures
        r@ == path_joined(base@, rel@),
        !path_relative(base@) && without_prefix(rel@) ==> !path_relative(r@),
{
    std::path::Path::new(base).join(rel).to_string_lossy().into_owned()
}

/// `std::path::Path::parent`, as text. The parent of a UTF-8 path is a
/// part of it, so `to_string_lossy` loses nothing; the result is named.
#[verifier::external_body]
pub(crate) fn path_parent(p: &str) -> (r: Option<String>)
    ensures
        r is Some <==> path_parent_text(p@) is Some,
        r matches Some(x) ==> path_parent_text(p@) == Some(x@),
{
    match std::path::Path::new(p).parent() {
        Some(parent) => Some(parent.to_string_lossy().into_owned()),
        None => None,
    }
}

/// `std::path::Path::is_relative`; the result is named.
#[verifier::external_body]
pub(crate) fn path_is_relative(p: &str) -> (r: bool)
    ensures
        r == path_relative(p@),
{
    std::path::Path::new(p).is_relative()
}

} // verus!
