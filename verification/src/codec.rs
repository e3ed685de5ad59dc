//! The persisted form of a credential record: one JSON object with the
//! username, the two tokens and the optional expiry time, in a fixed key
//! order. The encoder escapes quotes, backslashes and control characters;
//! the decoder reads exactly this shape back. Decoding an encoded record
//! yields the record unchanged.

use vstd::prelude::*;
use vstd::slice::slice_subrange;

use crate::credentials::{Credentials, CredentialsView};
use crate::query::{hex_val, is_hex_digit, spec_hex_digit_char};
use crate::text;

verus! {

/// Whether `c` is an ASCII decimal digit.
pub open spec fn is_digit(c: char) -> bool {
    '0' <= c && c <= '9'
}

/// The value of the decimal digit `c`.
pub open spec fn digit_val(c: char) -> int {
    c as int - '0' as int
}

/// The escape of one character inside a JSON string: quote and backslash
/// get a backslash, control characters become `\u00XX`, everything else
/// stands as it is.
pub open spec fn spec_escape_char(c: char) -> Seq<char> {
    if c == '"' {
        seq!['\\', '"']
    } else if c == '\\' {
        seq!['\\', '\\']
    } else if (c as u32) < 32 {
        seq![
            '\\',
            'u',
            '0',
            '0',
            spec_hex_digit_char(((c as u32) / 16) as int),
            spec_hex_digit_char(((c as u32) % 16) as int),
        ]
    } else {
        seq![c]
    }
}

/// The escaped form of a whole string.
pub open spec fn spec_escape(s: Seq<char>) -> Seq<char>
    decreases s.len(),
{
    if s.len() == 0 {
        Seq::empty()
    } else {
        spec_escape_char(s[0]) + spec_escape(s.skip(1))
    }
}

/// The encoded record: one JSON object, keys in this fixed order.
pub open spec fn spec_encode(c: CredentialsView) -> Seq<char> {
    "{\"username\":\""@ + spec_escape(c.username) + "\",\"access_token\":\""@ + spec_escape(
        c.access_token,
    ) + "\",\"refresh_token\":\""@ + spec_escape(c.refresh_token) + "\",\"token_expiry_time\":"@
        + (match c.token_expiry_time {
        Some(t) => text::spec_dec_of(t as int),
        None => "null"@,
    }) + "}"@
}

/// Strip `lit` from the front of `s`, or nothing if it is not there.
pub open spec fn spec_expect(s: Seq<char>, lit: Seq<char>) -> Option<Seq<char>> {
    if s.len() >= lit.len() && s.take(lit.len() as int) == lit {
        Some(s.skip(lit.len() as int))
    } else {
        None
    }
}

/// Read an escaped string body up to and including its closing quote:
/// the decoded value and what follows the quote.
pub open spec fn spec_parse_string(s: Seq<char>) -> Option<(Seq<char>, Seq<char>)>
    decreases s.len(),
{
    if s.len() == 0 {
        None
    } else if s[0] == '"' {
        Some((Seq::empty(), s.skip(1)))
    } else if s[0] == '\\' {
        if s.len() < 2 {
            None
        } else if s[1] == '"' || s[1] == '\\' {
            match spec_parse_string(s.skip(2)) {
                None => None,
                Some((v, rest)) => Some((seq![s[1]] + v, rest)),
            }
        } else if s[1] == 'u' {
            if s.len() < 6 {
                None
            } else if s[2] == '0' && s[3] == '0' && is_hex_digit(s[4]) && is_hex_digit(s[5]) && 16
                * hex_val(s[4]) + hex_val(s[5]) < 32 {
                match spec_parse_string(s.skip(6)) {
                    None => None,
                    Some((v, rest)) => Some(
                        (seq![(16 * hex_val(s[4]) + hex_val(s[5])) as char] + v, rest),
                    ),
                }
            } else {
                None
            }
        } else {
            None
        }
    } else {
        match spec_parse_string(s.skip(1)) {
            None => None,
            Some((v, rest)) => Some((seq![s[0]] + v, rest)),
        }
    }
}

/// Accumulate decimal digits onto `acc`, stopping at the first non-digit;
/// nothing if the value outgrows the largest representable expiry.
pub open spec fn spec_parse_digits(s: Seq<char>, acc: int) -> Option<(int, Seq<char>)>
    decreases s.len(),
{
    if s.len() > 0 && is_digit(s[0]) {
        let acc2 = acc * 10 + digit_val(s[0]);
        if acc2 > u64::MAX {
            None
        } else {
            spec_parse_digits(s.skip(1), acc2)
        }
    } else {
        Some((acc, s))
    }
}

/// Read a decimal number: at least one digit, within `u64`.
pub open spec fn spec_parse_number(s: Seq<char>) -> Option<(u64, Seq<char>)> {
    if s.len() > 0 && is_digit(s[0]) {
        match spec_parse_digits(s, 0) {
            None => None,
            Some((v, rest)) => Some((v as u64, rest)),
        }
    } else {
        None
    }
}

/// Read a whole encoded record back, or nothing if `s` is not exactly one.
pub open spec fn spec_decode(s: Seq<char>) -> Option<CredentialsView> {
    match spec_expect(s, "{\"username\":\""@) {
        None => None,
        Some(s1) => match spec_parse_string(s1) {
            None => None,
            Some((username, s2)) => match spec_expect(s2, ",\"access_token\":\""@) {
                None => None,
                Some(s3) => match spec_parse_string(s3) {
                    None => None,
                    Some((access_token, s4)) => match spec_expect(s4, ",\"refresh_token\":\""@) {
                        None => None,
                        Some(s5) => match spec_parse_string(s5) {
                            None => None,
                            Some((refresh_token, s6)) => match spec_expect(
                                s6,
                                ",\"token_expiry_time\":"@,
                            ) {
                                None => None,
                                Some(s7) => if s7 == "null}"@ {
                                    Some(
                                        (CredentialsView {
                                            username,
                                            access_token,
                                            refresh_token,
                                            token_expiry_time: None,
                                        }),
                                    )
                                } else {
                                    match spec_parse_number(s7) {
                                        None => None,
                                        Some((n, s8)) => if s8 == "}"@ {
                                            Some(
                                                (CredentialsView {
                                                    username,
                                                    access_token,
                                                    refresh_token,
                                                    token_expiry_time: Some(n),
                                                }),
                                            )
                                        } else {
                                            None
                                        },
                                    }
                                },
                            },
                        },
                    },
                },
            },
        },
    }
}

/// Ten to the `k`.
pub open spec fn spec_pow10(k: nat) -> int
    decreases k,
{
    if k == 0 {
        1
    } else {
        10 * spec_pow10((k - 1) as nat)
    }
}

pub proof fn lemma_pow10_pos(k: nat)
    ensures
        spec_pow10(k) >= 1,
    decreases k,
{
    if k > 0 {
        lemma_pow10_pos((k - 1) as nat);
    }
}

/// A hexadecimal digit character reads back as its value.
pub proof fn lemma_hex_digit_char_val(d: int)
    requires
        0 <= d < 16,
    ensures
        is_hex_digit(spec_hex_digit_char(d)),
        hex_val(spec_hex_digit_char(d)) == d,
{
}

/// A decimal digit character reads back as its value.
pub proof fn lemma_digit_char_val(d: int)
    requires
        0 <= d < 10,
    ensures
        is_digit(text::spec_digit_char(d)),
        digit_val(text::spec_digit_char(d)) == d,
{
}

/// A decimal numeral is nonempty and starts with a digit.
pub proof fn lemma_dec_first(n: int)
    requires
        n >= 0,
    ensures
        text::spec_dec_of(n).len() >= 1,
        is_digit(text::spec_dec_of(n)[0]),
    decreases n,
{
    if n < 10 {
        lemma_digit_char_val(n);
    } else {
        lemma_dec_first(n / 10);
        assert(text::spec_dec_of(n)[0] == text::spec_dec_of(n / 10)[0]);
    }
}

/// Stripping a literal from itself-plus-rest leaves the rest.
pub proof fn lemma_expect_concat(lit: Seq<char>, rest: Seq<char>)
    ensures
        spec_expect(lit + rest, lit) == Some(rest),
{
    let s = lit + rest;
    assert(s.take(lit.len() as int) =~= lit);
    assert(s.skip(lit.len() as int) =~= rest);
}

/// Parsing an escaped string followed by its closing quote yields the
/// string back, with the rest untouched.
pub proof fn lemma_parse_escaped(v: Seq<char>, rest: Seq<char>)
    ensures
        spec_parse_string(spec_escape(v) + seq!['"'] + rest) == Some((v, rest)),
    decreases v.len(),
{
    broadcast use vstd::utf8::char_is_scalar, vstd::utf8::char_u32_cast;

    let s = spec_escape(v) + seq!['"'] + rest;
    if v.len() == 0 {
        assert(spec_escape(v) =~= Seq::<char>::empty());
        assert(s =~= seq!['"'] + rest);
        assert(s.skip(1) =~= rest);
        assert(v =~= Seq::<char>::empty());
    } else {
        let c = v[0];
        let tail = spec_escape(v.skip(1)) + seq!['"'] + rest;
        lemma_parse_escaped(v.skip(1), rest);
        assert(s =~= spec_escape_char(c) + tail);
        if c == '"' {
            assert(s =~= seq!['\\', '"'] + tail);
            assert(s.skip(2) =~= tail);
            assert(seq![s[1]] + v.skip(1) =~= v);
        } else if c == '\\' {
            assert(s =~= seq!['\\', '\\'] + tail);
            assert(s.skip(2) =~= tail);
            assert(seq![s[1]] + v.skip(1) =~= v);
        } else if (c as u32) < 32 {
            let hi = ((c as u32) / 16) as int;
            let lo = ((c as u32) % 16) as int;
            lemma_hex_digit_char_val(hi);
            lemma_hex_digit_char_val(lo);
            assert(s =~= seq!['\\', 'u', '0', '0', spec_hex_digit_char(hi), spec_hex_digit_char(lo)]
                + tail);
            assert(16 * hex_val(s[4]) + hex_val(s[5]) == (c as u32) as int);
            let u32val: u32 = (16 * hex_val(s[4]) + hex_val(s[5])) as u32;
            assert(u32val == c as u32);
            vstd::utf8::char_u32_cast(c, u32val);
            assert((u32val as char) == c);
            assert(((16 * hex_val(s[4]) + hex_val(s[5])) as char) == c);
            assert(s.skip(6) =~= tail);
            assert(seq![c] + v.skip(1) =~= v);
        } else {
            assert(s =~= seq![c] + tail);
            assert(s.skip(1) =~= tail);
            assert(seq![c] + v.skip(1) =~= v);
        }
    }
}

/// Reading the digits of a numeral accumulates exactly its value.
pub proof fn lemma_parse_digits_dec(n: int, acc: int, rest: Seq<char>)
    requires
        n >= 0,
        acc >= 0,
        acc * spec_pow10(text::spec_dec_of(n).len()) + n <= u64::MAX,
    ensures
        spec_parse_digits(text::spec_dec_of(n) + rest, acc) == spec_parse_digits(
            rest,
            acc * spec_pow10(text::spec_dec_of(n).len()) + n,
        ),
    decreases n,
{
    if n < 10 {
        lemma_digit_char_val(n);
        let s = text::spec_dec_of(n) + rest;
        assert(text::spec_dec_of(n) =~= seq![text::spec_digit_char(n)]);
        assert(s[0] == text::spec_digit_char(n));
        assert(s.skip(1) =~= rest);
        assert(text::spec_dec_of(n).len() == 1);
        assert(spec_pow10(0) == 1);
        assert(spec_pow10(1) == 10);
        assert(acc * 10 + n <= u64::MAX);
    } else {
        let q = n / 10;
        let d = n % 10;
        vstd::arithmetic::div_mod::lemma_fundamental_div_mod(n, 10);
        lemma_digit_char_val(d);
        let l1 = text::spec_dec_of(q).len();
        let tail = seq![text::spec_digit_char(d)] + rest;
        assert(text::spec_dec_of(n) + rest =~= text::spec_dec_of(q) + tail);
        assert(text::spec_dec_of(n).len() == l1 + 1);
        assert(spec_pow10((l1 + 1) as nat) == 10 * spec_pow10(l1));
        lemma_pow10_pos(l1);
        assert(acc * spec_pow10(l1) >= 0 && acc * spec_pow10(l1) + q <= u64::MAX)
            by (nonlinear_arith)
            requires
                acc >= 0,
                spec_pow10(l1) >= 1,
                acc * (10 * spec_pow10(l1)) + n <= u64::MAX,
                n == 10 * q + d,
                d >= 0,
                n >= 10,
                q >= 0,
        ;
        lemma_parse_digits_dec(q, acc, tail);
        let a2 = acc * spec_pow10(l1) + q;
        assert(tail[0] == text::spec_digit_char(d));
        assert(tail.skip(1) =~= rest);
        assert(a2 * 10 + d == acc * spec_pow10(text::spec_dec_of(n).len()) + n)
            by (nonlinear_arith)
            requires
                a2 == acc * spec_pow10(l1) + q,
                n == 10 * q + d,
                spec_pow10(text::spec_dec_of(n).len()) == 10 * spec_pow10(l1),
        ;
        assert(a2 * 10 + d <= u64::MAX);
    }
}

/// Reading a numeral followed by a non-digit yields its value back.
pub proof fn lemma_parse_number_dec(n: u64, rest: Seq<char>)
    requires
        rest.len() > 0 ==> !is_digit(rest[0]),
    ensures
        spec_parse_number(text::spec_dec_of(n as int) + rest) == Some((n, rest)),
{
    lemma_dec_first(n as int);
    let s = text::spec_dec_of(n as int) + rest;
    assert(s[0] == text::spec_dec_of(n as int)[0]);
    assert(0 * spec_pow10(text::spec_dec_of(n as int).len()) == 0) by (nonlinear_arith);
    lemma_parse_digits_dec(n as int, 0, rest);
}

/// Decoding an encoded record yields the record unchanged: the persisted
/// form loses nothing, for every credential record.
pub proof fn lemma_codec_roundtrip(c: CredentialsView)
    ensures
        spec_decode(spec_encode(c)) == Some(c),
{
    reveal_strlit("{\"username\":\"");
    reveal_strlit("\",\"access_token\":\"");
    reveal_strlit(",\"access_token\":\"");
    reveal_strlit("\",\"refresh_token\":\"");
    reveal_strlit(",\"refresh_token\":\"");
    reveal_strlit("\",\"token_expiry_time\":");
    reveal_strlit(",\"token_expiry_time\":");
    reveal_strlit("null");
    reveal_strlit("null}");
    reveal_strlit("}");
    let e = spec_encode(c);
    let exp_tail = (match c.token_expiry_time {
        Some(t) => text::spec_dec_of(t as int),
        None => "null"@,
    }) + "}"@;
    let r3 = ",\"token_expiry_time\":"@ + exp_tail;
    let p3 = spec_escape(c.refresh_token) + seq!['"'] + r3;
    let r2 = ",\"refresh_token\":\""@ + p3;
    let p2 = spec_escape(c.access_token) + seq!['"'] + r2;
    let r1 = ",\"access_token\":\""@ + p2;
    let p1 = spec_escape(c.username) + seq!['"'] + r1;
    assert("\",\"access_token\":\""@ =~= seq!['"'] + ",\"access_token\":\""@);
    assert("\",\"refresh_token\":\""@ =~= seq!['"'] + ",\"refresh_token\":\""@);
    assert("\",\"token_expiry_time\":"@ =~= seq!['"'] + ",\"token_expiry_time\":"@);
    assert(e =~= "{\"username\":\""@ + p1);
    lemma_expect_concat("{\"username\":\""@, p1);
    lemma_parse_escaped(c.username, r1);
    lemma_expect_concat(",\"access_token\":\""@, p2);
    lemma_parse_escaped(c.access_token, r2);
    lemma_expect_concat(",\"refresh_token\":\""@, p3);
    lemma_parse_escaped(c.refresh_token, r3);
    lemma_expect_concat(",\"token_expiry_time\":"@, exp_tail);
    match c.token_expiry_time {
        None => {
            assert(exp_tail =~= "null}"@);
        },
        Some(t) => {
            lemma_dec_first(t as int);
            assert(exp_tail[0] == text::spec_dec_of(t as int)[0]);
            assert(exp_tail != "null}"@) by {
                if exp_tail == "null}"@ {
                    assert(exp_tail[0] == 'n');
                    assert(is_digit(exp_tail[0]));
                }
            };
            assert(!is_digit('}'));
            lemma_parse_number_dec(t, "}"@);
        },
    }
}

/// The escaped form of `s`.
fn escape(s: &[char]) -> (r: Vec<char>)
    ensures
        r@ == spec_escape(s@),
    decreases s@.len(),
{
    if s.len() == 0 {
        let r: Vec<char> = Vec::new();
        proof {
            assert(r@ =~= spec_escape(s@));
        }
        r
    } else {
        let c = *vstd::slice::slice_index_get(s, 0);
        let mut r: Vec<char> = Vec::new();
        if c == '"' {
            r.push('\\');
            r.push('"');
        } else if c == '\\' {
            r.push('\\');
            r.push('\\');
        } else if (c as u32) < 32 {
            let v = c as u32;
            r.push('\\');
            r.push('u');
            r.push('0');
            r.push('0');
            r.push(crate::query::hex_digit_char((v / 16) as u8));
            r.push(crate::query::hex_digit_char((v % 16) as u8));
        } else {
            r.push(c);
        }
        let mut tail = escape(slice_subrange(s, 1, s.len()));
        r.append(&mut tail);
        proof {
            broadcast use vstd::utf8::char_is_scalar;

            assert(r@ =~= spec_escape(s@));
        }
        r
    }
}

/// Encode a record as one JSON object with a fixed key order.
pub fn encode_credentials(c: &Credentials) -> (r: String)
    ensures
        r@ == spec_encode(c@),
{
    let mut out: Vec<char> = Vec::new();
    let mut part = text::string_to_chars("{\"username\":\"");
    out.append(&mut part);
    let u = text::string_to_chars(c.username.as_str());
    let mut part = escape(u.as_slice());
    out.append(&mut part);
    let mut part = text::string_to_chars("\",\"access_token\":\"");
    out.append(&mut part);
    let a = text::string_to_chars(c.access_token.as_str());
    let mut part = escape(a.as_slice());
    out.append(&mut part);
    let mut part = text::string_to_chars("\",\"refresh_token\":\"");
    out.append(&mut part);
    let rt = text::string_to_chars(c.refresh_token.as_str());
    let mut part = escape(rt.as_slice());
    out.append(&mut part);
    let mut part = text::string_to_chars("\",\"token_expiry_time\":");
    out.append(&mut part);
    match c.token_expiry_time {
        Some(t) => {
            let mut part = text::dec_chars_of(t);
            out.append(&mut part);
        },
        None => {
            let mut part = text::string_to_chars("null");
            out.append(&mut part);
        },
    }
    let mut part = text::string_to_chars("}");
    out.append(&mut part);
    proof {
        assert(out@ =~= spec_encode(c@));
    }
    text::chars_to_string(&out)
}

/// Strip `lit` from the front of `s`.
pub fn expect_prefix<'a>(s: &'a [char], lit: &[char]) -> (r: Option<&'a [char]>)
    ensures
        match r {
            Some(rest) => spec_expect(s@, lit@) == Some(rest@),
            None => spec_expect(s@, lit@) is None,
        },
{
    if s.len() < lit.len() {
        None
    } else {
        let head = slice_subrange(s, 0, lit.len());
        if crate::query::chars_eq(head, lit) {
            proof {
                assert(s@.take(lit@.len() as int) =~= head@);
            }
            Some(slice_subrange(s, lit.len(), s.len()))
        } else {
            proof {
                assert(s@.take(lit@.len() as int) =~= head@);
            }
            None
        }
    }
}

/// Read an escaped string body up to its closing quote.
pub fn parse_string_chars<'a>(s: &'a [char]) -> (r: Option<(Vec<char>, &'a [char])>)
    ensures
        match r {
            Some(p) => spec_parse_string(s@) == Some((p.0@, p.1@)),
            None => spec_parse_string(s@) is None,
        },
    decreases s@.len(),
{
    if s.len() == 0 {
        return None;
    }
    let c0 = *vstd::slice::slice_index_get(s, 0);
    if c0 == '"' {
        let v: Vec<char> = Vec::new();
        proof {
            assert(v@ =~= Seq::<char>::empty());
        }
        return Some((v, slice_subrange(s, 1, s.len())));
    }
    if c0 == '\\' {
        if s.len() < 2 {
            return None;
        }
        let c1 = *vstd::slice::slice_index_get(s, 1);
        if c1 == '"' || c1 == '\\' {
            match parse_string_chars(slice_subrange(s, 2, s.len())) {
                None => None,
                Some((tail, rest)) => {
                    let mut v: Vec<char> = Vec::new();
                    v.push(c1);
                    let mut tail = tail;
                    v.append(&mut tail);
                    proof {
                        assert(v@ =~= seq![s@[1]] + spec_parse_string(s@.skip(2)).unwrap().0);
                    }
                    Some((v, rest))
                },
            }
        } else if c1 == 'u' {
            if s.len() < 6 {
                return None;
            }
            let c2 = *vstd::slice::slice_index_get(s, 2);
            let c3 = *vstd::slice::slice_index_get(s, 3);
            let c4 = *vstd::slice::slice_index_get(s, 4);
            let c5 = *vstd::slice::slice_index_get(s, 5);
            if c2 != '0' || c3 != '0' {
                return None;
            }
            match (crate::query::hex_digit_value(c4), crate::query::hex_digit_value(c5)) {
                (Some(h), Some(l)) if 16 * (h as u32) + (l as u32) < 32 => {
                    let code: u8 = 16 * h + l;
                    match parse_string_chars(slice_subrange(s, 6, s.len())) {
                        None => None,
                        Some((tail, rest)) => {
                            let mut v: Vec<char> = Vec::new();
                            v.push(code as char);
                            let mut tail = tail;
                            v.append(&mut tail);
                            proof {
                                assert(v@ =~= seq![(16 * hex_val(s@[4]) + hex_val(s@[5])) as char]
                                    + spec_parse_string(s@.skip(6)).unwrap().0);
                            }
                            Some((v, rest))
                        },
                    }
                },
                _ => None,
            }
        } else {
            None
        }
    } else {
        match parse_string_chars(slice_subrange(s, 1, s.len())) {
            None => None,
            Some((tail, rest)) => {
                let mut v: Vec<char> = Vec::new();
                v.push(c0);
                let mut tail = tail;
                v.append(&mut tail);
                proof {
                    assert(v@ =~= seq![s@[0]] + spec_parse_string(s@.skip(1)).unwrap().0);
                }
                Some((v, rest))
            },
        }
    }
}

/// The value of the decimal digit `c`, if it is one.
fn digit_value(c: char) -> (r: Option<u8>)
    ensures
        match r {
            Some(v) => is_digit(c) && v == digit_val(c) && v < 10,
            None => !is_digit(c),
        },
{
    if '0' <= c && c <= '9' {
        Some(((c as u32) - ('0' as u32)) as u8)
    } else {
        None
    }
}

/// Accumulate decimal digits onto `acc`.
fn parse_digits<'a>(s: &'a [char], acc: u64) -> (r: Option<(u64, &'a [char])>)
    ensures
        match r {
            Some(p) => spec_parse_digits(s@, acc as int) == Some((p.0 as int, p.1@)),
            None => spec_parse_digits(s@, acc as int) is None,
        },
    decreases s@.len(),
{
    if s.len() == 0 {
        return Some((acc, s));
    }
    let c = *vstd::slice::slice_index_get(s, 0);
    match digit_value(c) {
        None => Some((acc, s)),
        Some(d) => {
            let wide: u128 = (acc as u128) * 10 + (d as u128);
            if wide > u64::MAX as u128 {
                None
            } else {
                parse_digits(slice_subrange(s, 1, s.len()), wide as u64)
            }
        },
    }
}

/// Read a decimal number: at least one digit, within `u64`.
pub fn parse_number<'a>(s: &'a [char]) -> (r: Option<(u64, &'a [char])>)
    ensures
        match r {
            Some(p) => spec_parse_number(s@) == Some((p.0, p.1@)),
            None => spec_parse_number(s@) is None,
        },
{
    if s.len() == 0 {
        return None;
    }
    let c = *vstd::slice::slice_index_get(s, 0);
    match digit_value(c) {
        None => None,
        Some(_) => match parse_digits(s, 0) {
            None => None,
            Some((v, rest)) => Some((v, rest)),
        },
    }
}

/// Decode one encoded record, or nothing if `s` is not exactly one.
pub fn decode_credentials(s: &str) -> (r: Option<Credentials>)
    ensures
        match r {
            Some(c) => spec_decode(s@) == Some(c@),
            None => spec_decode(s@) is None,
        },
{
    let chars = text::string_to_chars(s);
    let lit1 = text::string_to_chars("{\"username\":\"");
    let s1 = match expect_prefix(chars.as_slice(), lit1.as_slice()) {
        None => {
            return None;
        },
        Some(rest) => rest,
    };
    let (username, s2) = match parse_string_chars(s1) {
        None => {
            return None;
        },
        Some(p) => p,
    };
    let lit2 = text::string_to_chars(",\"access_token\":\"");
    let s3 = match expect_prefix(s2, lit2.as_slice()) {
        None => {
            return None;
        },
        Some(rest) => rest,
    };
    let (access_token, s4) = match parse_string_chars(s3) {
        None => {
            return None;
        },
        Some(p) => p,
    };
    let lit3 = text::string_to_chars(",\"refresh_token\":\"");
    let s5 = match expect_prefix(s4, lit3.as_slice()) {
        None => {
            return None;
        },
        Some(rest) => rest,
    };
    let (refresh_token, s6) = match parse_string_chars(s5) {
        None => {
            return None;
        },
        Some(p) => p,
    };
    let lit4 = text::string_to_chars(",\"token_expiry_time\":");
    let s7 = match expect_prefix(s6, lit4.as_slice()) {
        None => {
            return None;
        },
        Some(rest) => rest,
    };
    let null_lit = text::string_to_chars("null}");
    let expiry: Option<u64> = if crate::query::chars_eq(s7, null_lit.as_slice()) {
        None
    } else {
        let (n, s8) = match parse_number(s7) {
            None => {
                return None;
            },
            Some(p) => p,
        };
        let close = text::string_to_chars("}");
        if !crate::query::chars_eq(s8, close.as_slice()) {
            return None;
        }
        Some(n)
    };
    Some(
        Credentials {
            username: text::chars_to_string(&username),
            access_token: text::chars_to_string(&access_token),
            refresh_token: text::chars_to_string(&refresh_token),
            token_expiry_time: expiry,
        },
    )
}

} // verus!
