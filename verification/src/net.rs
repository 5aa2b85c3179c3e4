//! Plain-value models of the link and network addresses the client works
//! with, and the trusted parser for textual MAC addresses.
use crate::text::hex_digit;
use vstd::prelude::*;

verus! {

/// A 48-bit Ethernet hardware address, octets in transmission order.
#[derive(Debug, Clone, Copy, PartialEq, Eq, Structural)]
pub struct MacAddr(pub u8, pub u8, pub u8, pub u8, pub u8, pub u8);

impl MacAddr {
    /// The six octets of the address, first octet first.
    pub open spec fn octets(self) -> Seq<u8> {
        seq![self.0, self.1, self.2, self.3, self.4, self.5]
    }

    /// The address whose octets are the first six of `s`.
    pub open spec fn from_octets(s: Seq<u8>) -> MacAddr
        recommends
            s.len() >= 6,
    {
        MacAddr(s[0], s[1], s[2], s[3], s[4], s[5])
    }
}

/// An IP address: four octets for IPv4, eight 16-bit segments for IPv6.
#[derive(Debug, Clone, Copy, PartialEq, Eq, Structural)]
pub enum IpAddress {
    V4(u8, u8, u8, u8),
    V6(u16, u16, u16, u16, u16, u16, u16, u16),
}

/// The two network-order octets of a 16-bit segment.
pub open spec fn segment_octets(s: u16) -> Seq<u8> {
    seq![(s / 256) as u8, (s % 256) as u8]
}

/// The octets of an address in network order: 4 for IPv4, 16 for IPv6.
pub open spec fn ip_octets(ip: IpAddress) -> Seq<u8> {
    match ip {
        IpAddress::V4(a, b, c, d) => seq![a, b, c, d],
        IpAddress::V6(a, b, c, d, e, f, g, h) => segment_octets(a) + segment_octets(b)
            + segment_octets(c) + segment_octets(d) + segment_octets(e) + segment_octets(f)
            + segment_octets(g) + segment_octets(h),
    }
}

/// The octets of an address are its own, in network order: an IPv4
/// address gives its four octets as written, and each 16-bit segment of an
/// IPv6 address gives two octets, the high one first, from which the
/// segment is read back.
pub proof fn lemma_ip_octets(ip: IpAddress)
    ensures
        ip matches IpAddress::V4(a, b, c, d) ==> ip_octets(ip) == seq![a, b, c, d],
        ip matches IpAddress::V6(s0, s1, s2, s3, s4, s5, s6, s7) ==> {
            let segs = seq![s0, s1, s2, s3, s4, s5, s6, s7];
            &&& ip_octets(ip).len() == 16
            &&& forall|k: int|
                0 <= k < 8 ==> #[trigger] segs[k] == ip_octets(ip)[2 * k] * 256 + ip_octets(ip)[2
                    * k + 1]
        },
{
    if let IpAddress::V6(s0, s1, s2, s3, s4, s5, s6, s7) = ip {
        let segs = seq![s0, s1, s2, s3, s4, s5, s6, s7];
        let o = ip_octets(ip);
        assert forall|k: int| 0 <= k < 8 implies #[trigger] segs[k] == o[2 * k] * 256 + o[2 * k
            + 1] by {
            let x: u16 = segs[k];
            assert(segment_octets(x) == seq![(x / 256) as u8, (x % 256) as u8]);
            assert(o[2 * k] == segment_octets(x)[0] && o[2 * k + 1] == segment_octets(x)[1]);
        }
    }
}

/// A socket address: an IP address and a port. For IPv6 the flow label
/// and scope identifier are kept too, since they take part in equality.
#[derive(Debug, Clone, Copy, PartialEq, Eq, Structural)]
pub struct SocketAddress {
    pub ip: IpAddress,
    pub port: u16,
    pub flowinfo: u32,
    pub scope_id: u32,
}

/// The text of an address together with what parsing it as an IP address
/// gave (`None` when the text is not an IP address).
#[derive(Debug, Clone)]
pub struct IpText {
    pub text: String,
    pub parsed: Option<IpAddress>,
}

/// The fields of a text between `:` separators, as `str::split(':')`
/// gives them (a text without `:` is one field; the empty text too).
pub open spec fn colon_fields(s: Seq<char>) -> Seq<Seq<char>>
    decreases s.len(),
{
    if s.len() == 0 {
        seq![Seq::<char>::empty()]
    } else {
        let rest = colon_fields(s.drop_first());
        if s[0] == ':' {
            seq![Seq::<char>::empty()] + rest
        } else {
            rest.update(0, seq![s[0]] + rest[0])
        }
    }
}

/// The value of a sequence of hexadecimal digits, if all are digits.
pub open spec fn hex_digits_value(d: Seq<char>) -> Option<int>
    decreases d.len(),
{
    if d.len() == 0 {
        Some(0)
    } else {
        match (hex_digits_value(d.drop_last()), hex_digit(d.last())) {
            (Some(v), Some(x)) => Some(v * 16 + x),
            _ => None,
        }
    }
}

/// `u8::from_str_radix(f, 16)`: per its documentation, an optional `+`
/// followed by at least one digit (either case), of value at most 255.
pub open spec fn hex_octet(f: Seq<char>) -> Option<u8> {
    let digits = if f.len() > 0 && f[0] == '+' {
        f.drop_first()
    } else {
        f
    };
    if digits.len() == 0 {
        None
    } else {
        match hex_digits_value(digits) {
            Some(v) => if v <= 255 {
                Some(v as u8)
            } else {
                None
            },
            None => None,
        }
    }
}

/// What `pnet`'s `MacAddr::from_str` gives: as its source shows, the text
/// must split at `:` into exactly six non-empty fields, each a hexadecimal
/// octet as `u8::from_str_radix(_, 16)` reads it.
pub open spec fn parsed_mac(s: Seq<char>) -> Option<MacAddr> {
    let f = colon_fields(s);
    if f.len() == 6 && forall|i: int| 0 <= i < 6 ==> #[trigger] hex_octet(f[i]) is Some {
        Some(
            MacAddr(
                hex_octet(f[0])->0,
                hex_octet(f[1])->0,
                hex_octet(f[2])->0,
                hex_octet(f[3])->0,
                hex_octet(f[4])->0,
                hex_octet(f[5])->0,
            ),
        )
    } else {
        None
    }
}

/// Parses a MAC address written as colon-separated hexadecimal octets with
/// `pnet::datalink::MacAddr::from_str`.
#[verifier::external_body]
pub(crate) fn parse_mac(s: &str) -> (r: Option<MacAddr>)
    ensures
        r == parsed_mac(s@),
{
    match s.parse::<pnet::datalink::MacAddr>() {
        Ok(m) => Some(MacAddr(m.0, m.1, m.2, m.3, m.4, m.5)),
        Err(_) => None,
    }
}

} // verus!
