//! Validation of the OAuth redirect URI: the callback listener binds only
//! to an HTTP URI with a loopback IP literal and an explicit port. Any
//! other redirect URI is a configuration error caught before a listener
//! ever starts. Host names are not resolved here: the fixed redirect URI
//! carries an IP literal.

use vstd::prelude::*;
use vstd::slice::slice_subrange;

use crate::codec::spec_expect;
use crate::query;
use crate::text;

verus! {

/// A loopback-capable IP address: four octets, or eight hexadecimal
/// groups.
#[derive(Debug, Clone, Copy, PartialEq, Eq, Structural)]
pub enum HostAddress {
    V4(u8, u8, u8, u8),
    V6(u16, u16, u16, u16, u16, u16, u16, u16),
}

/// Where the callback listener binds: a loopback address and a port.
#[derive(Debug, Clone, Copy, PartialEq, Eq, Structural)]
pub struct SocketAddress {
    pub ip: HostAddress,
    pub port: u16,
}

/// Whether the address is a loopback address: `127.0.0.0/8`, or `::1`.
pub open spec fn spec_is_loopback(ip: HostAddress) -> bool {
    match ip {
        HostAddress::V4(a, _b, _c, _d) => a == 127,
        HostAddress::V6(a, b, c, d, e, f, g, h) => a == 0 && b == 0 && c == 0 && d == 0 && e == 0
            && f == 0 && g == 0 && h == 1,
    }
}

/// One dotted-quad octet: decimal digits reading to at most 255.
pub open spec fn spec_octet(s: Seq<char>) -> Option<u8> {
    match crate::codec::spec_parse_number(s) {
        Some((v, rest)) => if rest.len() == 0 && v <= 255 {
            Some(v as u8)
        } else {
            None
        },
        None => None,
    }
}

/// A dotted-quad IPv4 literal.
pub open spec fn spec_ipv4(host: Seq<char>) -> Option<HostAddress> {
    let ps = query::spec_split(host, '.');
    if ps.len() == 4 {
        match (spec_octet(ps[0]), spec_octet(ps[1]), spec_octet(ps[2]), spec_octet(ps[3])) {
            (Some(a), Some(b), Some(c), Some(d)) => Some(HostAddress::V4(a, b, c, d)),
            _ => None,
        }
    } else {
        None
    }
}

/// Accumulate hexadecimal digits onto `acc`: nothing at the first
/// non-hexadecimal character, or past a group's largest value.
pub open spec fn spec_hex_acc(s: Seq<char>, acc: int) -> Option<int>
    decreases s.len(),
{
    if s.len() == 0 {
        Some(acc)
    } else if query::is_hex_digit(s[0]) {
        let acc2 = acc * 16 + query::hex_val(s[0]);
        if acc2 > 0xFFFF {
            None
        } else {
            spec_hex_acc(s.skip(1), acc2)
        }
    } else {
        None
    }
}

/// One IPv6 group: one to four hexadecimal digits.
pub open spec fn spec_hex_group(s: Seq<char>) -> Option<u16> {
    if 1 <= s.len() && s.len() <= 4 {
        match spec_hex_acc(s, 0) {
            Some(v) => Some(v as u16),
            None => None,
        }
    } else {
        None
    }
}

/// The values of a list of groups; nothing if any group is malformed.
pub open spec fn spec_groups(ps: Seq<Seq<char>>) -> Option<Seq<u16>>
    decreases ps.len(),
{
    if ps.len() == 0 {
        Some(Seq::empty())
    } else {
        match spec_hex_group(ps[0]) {
            None => None,
            Some(v) => match spec_groups(ps.skip(1)) {
                None => None,
                Some(rest) => Some(seq![v] + rest),
            },
        }
    }
}

/// The group values of one side of a `::`, empty for an empty side.
pub open spec fn spec_side_groups(part: Seq<char>) -> Option<Seq<u16>> {
    if part.len() == 0 {
        Some(Seq::empty())
    } else {
        spec_groups(query::spec_split(part, ':'))
    }
}

/// Index of the first `::`, or at least `len - 1` if there is none.
pub open spec fn spec_find_dcolon(s: Seq<char>) -> nat
    decreases s.len(),
{
    if s.len() < 2 {
        s.len()
    } else if s[0] == ':' && s[1] == ':' {
        0
    } else {
        1 + spec_find_dcolon(s.skip(1))
    }
}

/// `k` zero groups.
pub open spec fn zero_groups(k: nat) -> Seq<u16> {
    Seq::new(k, |_i: int| 0u16)
}

/// An IPv6 literal, brackets already stripped: eight hexadecimal groups,
/// or fewer with one `::` standing for the missing zero groups.
pub open spec fn spec_ipv6(host: Seq<char>) -> Option<Seq<u16>> {
    let i = spec_find_dcolon(host);
    if i + 2 <= host.len() {
        match spec_side_groups(host.take(i as int)) {
            None => None,
            Some(left) => match spec_side_groups(host.skip(i + 2 as int)) {
                None => None,
                Some(right) => if left.len() + right.len() <= 7 {
                    Some(left + zero_groups((8 - left.len() - right.len()) as nat) + right)
                } else {
                    None
                },
            },
        }
    } else {
        match spec_side_groups(host) {
            None => None,
            Some(groups) => if groups.len() == 8 {
                Some(groups)
            } else {
                None
            },
        }
    }
}

/// The port part: a colon, at least one decimal digit reading to at most
/// 65535, then nothing or a `/` and the path.
pub open spec fn spec_port_of(s: Seq<char>) -> Option<u16> {
    if s.len() == 0 || s[0] != ':' {
        None
    } else {
        let t = s.skip(1);
        let digits = t.take(query::spec_find_char(t, '/') as int);
        match crate::codec::spec_parse_number(digits) {
            Some((v, rest)) => if rest.len() == 0 && v <= 65535 {
                Some(v as u16)
            } else {
                None
            },
            None => None,
        }
    }
}

/// The loopback socket address named by an HTTP redirect URI with an
/// explicit port; nothing for any other URI.
pub open spec fn spec_get_socket_address(s: Seq<char>) -> Option<SocketAddress> {
    match spec_expect(s, "http://"@) {
        None => None,
        Some(rest) => {
            if rest.len() > 0 && rest[0] == '[' {
                let j = query::spec_find_char(rest, ']');
                if j >= rest.len() {
                    None
                } else {
                    let host = rest.subrange(1, j as int);
                    match (spec_ipv6(host), spec_port_of(rest.skip(j + 1 as int))) {
                        (Some(g), Some(port)) => {
                            let ip = HostAddress::V6(g[0], g[1], g[2], g[3], g[4], g[5], g[6], g[7]);
                            if spec_is_loopback(ip) {
                                Some(SocketAddress { ip, port })
                            } else {
                                None
                            }
                        },
                        _ => None,
                    }
                }
            } else {
                let k = query::spec_find_char(rest, ':');
                if k >= rest.len() {
                    None
                } else {
                    let host = rest.take(k as int);
                    if query::spec_find_char(host, '/') < host.len() {
                        None
                    } else {
                        match (spec_ipv4(host), spec_port_of(rest.skip(k as int))) {
                            (Some(ip), Some(port)) => if spec_is_loopback(ip) {
                                Some(SocketAddress { ip, port })
                            } else {
                                None
                            },
                            _ => None,
                        }
                    }
                }
            }
        },
    }
}

/// One dotted-quad octet.
fn octet(s: &[char]) -> (r: Option<u8>)
    ensures
        r == spec_octet(s@),
{
    match crate::codec::parse_number(s) {
        Some((v, rest)) => if rest.len() == 0 && v <= 255 {
            Some(v as u8)
        } else {
            None
        },
        None => None,
    }
}

/// Accumulate hexadecimal digits onto `acc`.
fn hex_acc(s: &[char], acc: u32) -> (r: Option<u32>)
    requires
        acc <= 0xFFFF,
    ensures
        match r {
            Some(v) => spec_hex_acc(s@, acc as int) == Some(v as int) && v <= 0xFFFF,
            None => spec_hex_acc(s@, acc as int) is None,
        },
    decreases s@.len(),
{
    if s.len() == 0 {
        Some(acc)
    } else {
        let c = *vstd::slice::slice_index_get(s, 0);
        match query::hex_digit_value(c) {
            None => None,
            Some(d) => {
                let acc2 = acc * 16 + d as u32;
                if acc2 > 0xFFFF {
                    None
                } else {
                    hex_acc(slice_subrange(s, 1, s.len()), acc2)
                }
            },
        }
    }
}

/// One IPv6 group.
fn hex_group(s: &[char]) -> (r: Option<u16>)
    ensures
        r == spec_hex_group(s@),
{
    if 1 <= s.len() && s.len() <= 4 {
        match hex_acc(s, 0) {
            Some(v) => Some(v as u16),
            None => None,
        }
    } else {
        None
    }
}

/// The values of a list of groups.
fn groups(ps: &[Vec<char>]) -> (r: Option<Vec<u16>>)
    ensures
        match r {
            Some(v) => spec_groups(ps.deep_view()) == Some(v@),
            None => spec_groups(ps.deep_view()) is None,
        },
    decreases ps@.len(),
{
    if ps.len() == 0 {
        let v: Vec<u16> = Vec::new();
        proof {
            assert(v@ =~= Seq::<u16>::empty());
        }
        Some(v)
    } else {
        let head = vstd::slice::slice_index_get(ps, 0);
        proof {
            assert(ps.deep_view()[0] =~= head@);
        }
        match hex_group(head.as_slice()) {
            None => None,
            Some(g) => {
                let sub = slice_subrange(ps, 1, ps.len());
                proof {
                    assert(ps.deep_view().skip(1) =~~= sub.deep_view());
                }
                match groups(sub) {
                    None => None,
                    Some(rest) => {
                        let mut v: Vec<u16> = Vec::new();
                        v.push(g);
                        let mut rest = rest;
                        v.append(&mut rest);
                        proof {
                            assert(v@ =~= seq![g] + spec_groups(ps.deep_view().skip(1)).unwrap());
                        }
                        Some(v)
                    },
                }
            },
        }
    }
}

/// The group values of one side of a `::`.
fn side_groups(part: &[char]) -> (r: Option<Vec<u16>>)
    ensures
        match r {
            Some(v) => spec_side_groups(part@) == Some(v@),
            None => spec_side_groups(part@) is None,
        },
{
    if part.len() == 0 {
        let v: Vec<u16> = Vec::new();
        proof {
            assert(v@ =~= Seq::<u16>::empty());
        }
        Some(v)
    } else {
        let pieces = query::split(part, ':');
        groups(pieces.as_slice())
    }
}

/// Index of the first `::`.
fn find_dcolon(s: &[char]) -> (r: usize)
    ensures
        r == spec_find_dcolon(s@),
        r <= s@.len(),
    decreases s@.len(),
{
    if s.len() < 2 {
        s.len()
    } else {
        let c0 = *vstd::slice::slice_index_get(s, 0);
        let c1 = *vstd::slice::slice_index_get(s, 1);
        if c0 == ':' && c1 == ':' {
            0
        } else {
            1 + find_dcolon(slice_subrange(s, 1, s.len()))
        }
    }
}

/// An IPv6 literal, brackets already stripped.
fn ipv6_groups(host: &[char]) -> (r: Option<Vec<u16>>)
    ensures
        match r {
            Some(v) => spec_ipv6(host@) == Some(v@) && v@.len() == 8,
            None => spec_ipv6(host@) is None,
        },
{
    let i = find_dcolon(host);
    if host.len() >= 2 && i <= host.len() - 2 {
        let left = match side_groups(slice_subrange(host, 0, i)) {
            None => {
                return None;
            },
            Some(v) => v,
        };
        let right = match side_groups(slice_subrange(host, i + 2, host.len())) {
            None => {
                return None;
            },
            Some(v) => v,
        };
        if left.len() <= 7 && right.len() <= 7 - left.len() {
            let fill: usize = 8 - left.len() - right.len();
            let mut v = left;
            let mut k: usize = 0;
            let ghost left_view = v@;
            while k < fill
                invariant
                    k <= fill,
                    v@ == left_view + zero_groups(k as nat),
                decreases fill - k,
            {
                v.push(0);
                k += 1;
                proof {
                    assert(v@ =~= left_view + zero_groups(k as nat));
                }
            }
            let mut right = right;
            v.append(&mut right);
            proof {
                assert(v@ =~= spec_ipv6(host@).unwrap());
            }
            Some(v)
        } else {
            None
        }
    } else {
        match side_groups(host) {
            None => None,
            Some(v) => if v.len() == 8 {
                Some(v)
            } else {
                None
            },
        }
    }
}

/// The port part.
fn port_of(s: &[char]) -> (r: Option<u16>)
    ensures
        r == spec_port_of(s@),
{
    if s.len() == 0 {
        return None;
    }
    let c0 = *vstd::slice::slice_index_get(s, 0);
    if c0 != ':' {
        return None;
    }
    let t = slice_subrange(s, 1, s.len());
    let e = query::find_char(t, '/');
    let digits = slice_subrange(t, 0, e);
    proof {
        assert(digits@ =~= s@.skip(1).take(query::spec_find_char(s@.skip(1), '/') as int));
    }
    match crate::codec::parse_number(digits) {
        Some((v, rest)) => if rest.len() == 0 && v <= 65535 {
            Some(v as u16)
        } else {
            None
        },
        None => None,
    }
}

/// The loopback socket address named by an HTTP redirect URI with an
/// explicit port: the scheme must be `http`, the host a loopback IP
/// literal, the port explicit. Anything else is refused.
pub fn get_socket_address(redirect_uri: &str) -> (r: Option<SocketAddress>)
    ensures
        r == spec_get_socket_address(redirect_uri@),
{
    let chars = text::string_to_chars(redirect_uri);
    let scheme = text::string_to_chars("http://");
    let rest = match crate::codec::expect_prefix(chars.as_slice(), scheme.as_slice()) {
        None => {
            return None;
        },
        Some(rest) => rest,
    };
    if rest.len() > 0 && *vstd::slice::slice_index_get(rest, 0) == '[' {
        let j = query::find_char(rest, ']');
        if j >= rest.len() {
            return None;
        }
        let host = slice_subrange(rest, 1, j);
        let g = match ipv6_groups(host) {
            None => {
                return None;
            },
            Some(g) => g,
        };
        let port = match port_of(slice_subrange(rest, j + 1, rest.len())) {
            None => {
                return None;
            },
            Some(p) => p,
        };
        let ip = HostAddress::V6(g[0], g[1], g[2], g[3], g[4], g[5], g[6], g[7]);
        if g[0] == 0 && g[1] == 0 && g[2] == 0 && g[3] == 0 && g[4] == 0 && g[5] == 0 && g[6] == 0
            && g[7] == 1 {
            Some(SocketAddress { ip, port })
        } else {
            None
        }
    } else {
        let k = query::find_char(rest, ':');
        if k >= rest.len() {
            return None;
        }
        let host = slice_subrange(rest, 0, k);
        if query::find_char(host, '/') < host.len() {
            return None;
        }
        let ip = match ipv4(host) {
            None => {
                return None;
            },
            Some(ip) => ip,
        };
        let port = match port_of(slice_subrange(rest, k, rest.len())) {
            None => {
                return None;
            },
            Some(p) => p,
        };
        match ip {
            HostAddress::V4(a, _, _, _) if a == 127 => Some(SocketAddress { ip, port }),
            _ => None,
        }
    }
}

/// A dotted-quad IPv4 literal.
fn ipv4(host: &[char]) -> (r: Option<HostAddress>)
    ensures
        r == spec_ipv4(host@),
{
    let ps = query::split(host, '.');
    if ps.len() != 4 {
        return None;
    }
    proof {
        assert(ps.deep_view()[0] =~= ps@[0]@);
        assert(ps.deep_view()[1] =~= ps@[1]@);
        assert(ps.deep_view()[2] =~= ps@[2]@);
        assert(ps.deep_view()[3] =~= ps@[3]@);
    }
    let a = octet(ps[0].as_slice());
    let b = octet(ps[1].as_slice());
    let c = octet(ps[2].as_slice());
    let d = octet(ps[3].as_slice());
    match (a, b, c, d) {
        (Some(a), Some(b), Some(c), Some(d)) => Some(HostAddress::V4(a, b, c, d)),
        _ => None,
    }
}

} // verus!
