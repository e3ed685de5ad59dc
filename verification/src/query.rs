//! The query-string grammar used by the OAuth redirect listener: an HTTP
//! request line is split into whitespace-separated tokens, the request
//! target is split at `?`, and the query is a `&`-separated list of
//! `key=value` pairs, both sides form-decoded (`+` for space, `%XX` for an
//! ASCII code). When a key repeats, the last occurrence wins.

use vstd::prelude::*;
use vstd::slice::slice_subrange;

verus! {

/// The whitespace characters that separate request-line tokens.
pub open spec fn is_ws(c: char) -> bool {
    c == ' ' || c == '\t' || c == '\r' || c == '\n'
}

/// Index of the first occurrence of `c` in `s`, or `s.len()` if absent.
pub open spec fn spec_find_char(s: Seq<char>, c: char) -> nat
    decreases s.len(),
{
    if s.len() == 0 {
        0
    } else if s[0] == c {
        0
    } else {
        1 + spec_find_char(s.skip(1), c)
    }
}


/// The whitespace-separated tokens of `s`, in order: maximal runs of
/// non-whitespace characters. A leading non-whitespace character either
/// extends the first token of the rest or opens a token of its own.
pub open spec fn spec_tokens(s: Seq<char>) -> Seq<Seq<char>>
    decreases s.len(),
{
    if s.len() == 0 {
        Seq::empty()
    } else if is_ws(s[0]) {
        spec_tokens(s.skip(1))
    } else {
        let rest = spec_tokens(s.skip(1));
        if s.len() >= 2 && !is_ws(s[1]) {
            seq![seq![s[0]] + rest[0]] + rest.skip(1)
        } else {
            seq![seq![s[0]]] + rest
        }
    }
}

/// The pieces of `s` separated by `sep`, in order, empty pieces included.
pub open spec fn spec_split(s: Seq<char>, sep: char) -> Seq<Seq<char>>
    decreases s.len(),
{
    if spec_find_char(s, sep) >= s.len() {
        seq![s]
    } else {
        seq![s.take(spec_find_char(s, sep) as int)] + spec_split(
            s.skip(spec_find_char(s, sep) + 1 as int),
            sep,
        )
    }
}

/// The pieces of `s` separated by `sep`, as vectors.
pub fn split(s: &[char], sep: char) -> (r: Vec<Vec<char>>)
    ensures
        r.deep_view() == spec_split(s@, sep),
    decreases s@.len(),
{
    let i = find_char(s, sep);
    if i >= s.len() {
        let mut r: Vec<Vec<char>> = Vec::new();
        r.push(slice_to_vec(s));
        proof {
            assert(r.deep_view() =~~= spec_split(s@, sep));
        }
        r
    } else {
        let head = slice_to_vec(slice_subrange(s, 0, i));
        let mut rest = split(slice_subrange(s, i + 1, s.len()), sep);
        rest.insert(0, head);
        proof {
            assert(rest.deep_view() =~~= spec_split(s@, sep));
        }
        rest
    }
}

/// Whether `c` is an ASCII hexadecimal digit.
pub open spec fn is_hex_digit(c: char) -> bool {
    ('0' <= c && c <= '9') || ('a' <= c && c <= 'f') || ('A' <= c && c <= 'F')
}

/// The value of the hexadecimal digit `c`.
pub open spec fn hex_val(c: char) -> int {
    if '0' <= c && c <= '9' {
        c as int - '0' as int
    } else if 'a' <= c && c <= 'f' {
        10 + (c as int - 'a' as int)
    } else {
        10 + (c as int - 'A' as int)
    }
}

/// Form-decoding of `s`: `+` stands for a space, and `%` followed by two
/// hexadecimal digits naming an ASCII code stands for that character. Any
/// other `%` is kept as it is.
pub open spec fn spec_form_decode(s: Seq<char>) -> Seq<char>
    decreases s.len(),
{
    if s.len() == 0 {
        Seq::empty()
    } else if s[0] == '+' {
        seq![' '] + spec_form_decode(s.skip(1))
    } else if s[0] == '%' && s.len() >= 3 && is_hex_digit(s[1]) && is_hex_digit(s[2]) && 16
        * hex_val(s[1]) + hex_val(s[2]) < 128 {
        seq![(16 * hex_val(s[1]) + hex_val(s[2])) as char] + spec_form_decode(s.skip(3))
    } else {
        seq![s[0]] + spec_form_decode(s.skip(1))
    }
}

/// The decoded key/value pairs of the query `q`: `&`-separated pieces,
/// empty pieces skipped, each split at its first `=` (a piece without `=`
/// has an empty value), both sides form-decoded.
pub open spec fn spec_pairs(q: Seq<char>) -> Seq<(Seq<char>, Seq<char>)>
    decreases q.len(),
{
    let i = spec_find_char(q, '&');
    let piece = q.take(i as int);
    let rest = if i >= q.len() {
        Seq::<(Seq<char>, Seq<char>)>::empty()
    } else {
        spec_pairs(q.skip(i + 1 as int))
    };
    if piece.len() == 0 {
        rest
    } else {
        seq![spec_pair_of(piece)] + rest
    }
}

/// One `key=value` piece, both sides decoded.
pub open spec fn spec_pair_of(piece: Seq<char>) -> (Seq<char>, Seq<char>) {
    let j = spec_find_char(piece, '=');
    if j >= piece.len() {
        (spec_form_decode(piece), Seq::empty())
    } else {
        (spec_form_decode(piece.take(j as int)), spec_form_decode(piece.skip(j + 1 as int)))
    }
}

/// The value of the last pair whose key is `key`, if any.
pub open spec fn spec_lookup(ps: Seq<(Seq<char>, Seq<char>)>, key: Seq<char>) -> Option<Seq<char>>
    decreases ps.len(),
{
    if ps.len() == 0 {
        None
    } else if ps.last().0 == key {
        Some(ps.last().1)
    } else {
        spec_lookup(ps.drop_last(), key)
    }
}

/// Index of the first occurrence of `c`, or the length if absent.
pub fn find_char(s: &[char], c: char) -> (r: usize)
    ensures
        r == spec_find_char(s@, c),
        r <= s@.len(),
    decreases s@.len(),
{
    if s.len() == 0 {
        0
    } else if *vstd::slice::slice_index_get(s, 0) == c {
        0
    } else {
        1 + find_char(slice_subrange(s, 1, s.len()), c)
    }
}

/// The whitespace-separated tokens of `s`.
pub fn tokens(s: &[char]) -> (r: Vec<Vec<char>>)
    ensures
        r.deep_view() == spec_tokens(s@),
    decreases s@.len(),
{
    if s.len() == 0 {
        let r: Vec<Vec<char>> = Vec::new();
        proof {
            assert(r.deep_view() =~~= spec_tokens(s@));
        }
        r
    } else {
        let c = *vstd::slice::slice_index_get(s, 0);
        if c == ' ' || c == '\t' || c == '\r' || c == '\n' {
            let r = tokens(slice_subrange(s, 1, s.len()));
            r
        } else {
            let mut rest = tokens(slice_subrange(s, 1, s.len()));
            let extends = if s.len() >= 2 {
                let c1 = *vstd::slice::slice_index_get(s, 1);
                !(c1 == ' ' || c1 == '\t' || c1 == '\r' || c1 == '\n')
            } else {
                false
            };
            if extends {
                proof {
                    assert(rest.deep_view().len() >= 1);
                }
                let old_head = rest.remove(0);
                let mut head: Vec<char> = Vec::new();
                head.push(c);
                let mut old_head = old_head;
                head.append(&mut old_head);
                rest.insert(0, head);
                proof {
                    assert(rest.deep_view() =~~= spec_tokens(s@));
                }
                rest
            } else {
                let mut head: Vec<char> = Vec::new();
                head.push(c);
                rest.insert(0, head);
                proof {
                    assert(rest.deep_view() =~~= spec_tokens(s@));
                }
                rest
            }
        }
    }
}

/// Form-decoding of `s`.
pub fn form_decode(s: &[char]) -> (r: Vec<char>)
    ensures
        r@ == spec_form_decode(s@),
    decreases s@.len(),
{
    if s.len() == 0 {
        let r: Vec<char> = Vec::new();
        proof {
            assert(r@ =~= spec_form_decode(s@));
        }
        r
    } else {
        let c0 = *vstd::slice::slice_index_get(s, 0);
        if c0 == '+' {
            let mut r: Vec<char> = Vec::new();
            r.push(' ');
            let mut tail = form_decode(slice_subrange(s, 1, s.len()));
            r.append(&mut tail);
            proof {
                assert(r@ =~= spec_form_decode(s@));
            }
            r
        } else if c0 == '%' && s.len() >= 3 {
            let c1 = *vstd::slice::slice_index_get(s, 1);
            let c2 = *vstd::slice::slice_index_get(s, 2);
            match (hex_digit_value(c1), hex_digit_value(c2)) {
                (Some(h), Some(l)) if 16 * (h as u32) + (l as u32) < 128 => {
                    let code: u8 = 16 * h + l;
                    let mut r: Vec<char> = Vec::new();
                    r.push(code as char);
                    let mut tail = form_decode(slice_subrange(s, 3, s.len()));
                    r.append(&mut tail);
                    proof {
                        assert(r@ =~= spec_form_decode(s@));
                    }
                    r
                }
                _ => {
                    let mut r: Vec<char> = Vec::new();
                    r.push(c0);
                    let mut tail = form_decode(slice_subrange(s, 1, s.len()));
                    r.append(&mut tail);
                    proof {
                        assert(r@ =~= spec_form_decode(s@));
                    }
                    r
                }
            }
        } else {
            let mut r: Vec<char> = Vec::new();
            r.push(c0);
            let mut tail = form_decode(slice_subrange(s, 1, s.len()));
            r.append(&mut tail);
            proof {
                assert(r@ =~= spec_form_decode(s@));
            }
            r
        }
    }
}

/// The value of the hexadecimal digit `c`, if it is one.
pub fn hex_digit_value(c: char) -> (r: Option<u8>)
    ensures
        match r {
            Some(v) => is_hex_digit(c) && v == hex_val(c) && v < 16,
            None => !is_hex_digit(c),
        },
{
    if '0' <= c && c <= '9' {
        Some(((c as u32) - ('0' as u32)) as u8)
    } else if 'a' <= c && c <= 'f' {
        Some((10 + (c as u32) - ('a' as u32)) as u8)
    } else if 'A' <= c && c <= 'F' {
        Some((10 + (c as u32) - ('A' as u32)) as u8)
    } else {
        None
    }
}

/// The decoded key/value pairs of the query `q`.
pub fn pairs(q: &[char]) -> (r: Vec<(Vec<char>, Vec<char>)>)
    ensures
        r.deep_view() == spec_pairs(q@),
    decreases q@.len(),
{
    let i = find_char(q, '&');
    let piece = slice_subrange(q, 0, i);
    let mut rest: Vec<(Vec<char>, Vec<char>)> = if i >= q.len() {
        Vec::new()
    } else {
        pairs(slice_subrange(q, i + 1, q.len()))
    };
    if piece.len() == 0 {
        proof {
            assert(rest.deep_view() =~~= spec_pairs(q@));
        }
        rest
    } else {
        let p = pair_of(piece);
        let mut r: Vec<(Vec<char>, Vec<char>)> = Vec::new();
        r.push(p);
        r.append(&mut rest);
        proof {
            assert(r.deep_view() =~~= spec_pairs(q@));
        }
        r
    }
}

/// One `key=value` piece, both sides decoded.
pub fn pair_of(piece: &[char]) -> (r: (Vec<char>, Vec<char>))
    ensures
        (r.0@, r.1@) == spec_pair_of(piece@),
{
    let j = find_char(piece, '=');
    if j >= piece.len() {
        let k = form_decode(piece);
        let v: Vec<char> = Vec::new();
        proof {
            assert(v@ =~= Seq::<char>::empty());
        }
        (k, v)
    } else {
        let k = form_decode(slice_subrange(piece, 0, j));
        let v = form_decode(slice_subrange(piece, j + 1, piece.len()));
        (k, v)
    }
}

/// Whether two character sequences are equal.
pub fn chars_eq(a: &[char], b: &[char]) -> (r: bool)
    ensures
        r == (a@ == b@),
{
    if a.len() != b.len() {
        proof {
            assert(a@.len() != b@.len());
        }
        return false;
    }
    let n = a.len();
    let mut i: usize = 0;
    while i < n
        invariant
            i <= n,
            n == a@.len() == b@.len(),
            forall|j: int| 0 <= j < i ==> a@[j] == b@[j],
        decreases n - i,
    {
        if *vstd::slice::slice_index_get(a, i) != *vstd::slice::slice_index_get(b, i) {
            return false;
        }
        i += 1;
    }
    proof {
        assert(a@ =~= b@);
    }
    true
}

/// The value of the last pair whose key is `key`, if any.
pub fn lookup(ps: &[(Vec<char>, Vec<char>)], key: &[char]) -> (r: Option<Vec<char>>)
    ensures
        match r {
            Some(v) => spec_lookup(ps.deep_view(), key@) == Some(v@),
            None => spec_lookup(ps.deep_view(), key@) is None,
        },
    decreases ps@.len(),
{
    if ps.len() == 0 {
        None
    } else {
        let last = vstd::slice::slice_index_get(ps, ps.len() - 1);
        proof {
            lemma_pair_deep_view(ps, ps@.len() - 1);
        }
        if chars_eq(last.0.as_slice(), key) {
            Some(slice_to_vec(last.1.as_slice()))
        } else {
            let sub = slice_subrange(ps, 0, ps.len() - 1);
            let r = lookup(sub, key);
            proof {
                assert(ps.deep_view().drop_last() =~~= sub.deep_view());
            }
            r
        }
    }
}

/// The deep view of a pair slice reads each component through its own view.
pub proof fn lemma_pair_deep_view(ps: &[(Vec<char>, Vec<char>)], i: int)
    requires
        0 <= i < ps@.len(),
    ensures
        ps.deep_view().len() == ps@.len(),
        ps.deep_view()[i] == (ps@[i].0@, ps@[i].1@),
{
    assert(ps.deep_view()[i].0 =~= ps@[i].0@);
    assert(ps.deep_view()[i].1 =~= ps@[i].1@);
}

/// Copy a slice into a vector.
pub fn slice_to_vec(s: &[char]) -> (r: Vec<char>)
    ensures
        r@ == s@,
{
    let n = s.len();
    let mut r: Vec<char> = Vec::new();
    let mut i: usize = 0;
    while i < n
        invariant
            i <= n,
            n == s@.len(),
            r@ == s@.subrange(0, i as int),
        decreases n - i,
    {
        r.push(*vstd::slice::slice_index_get(s, i));
        i += 1;
        proof {
            assert(r@ =~= s@.subrange(0, i as int));
        }
    }
    proof {
        assert(r@ =~= s@);
    }
    r
}

/// Whether `c` may stand unencoded in a query component.
pub open spec fn is_unreserved(c: char) -> bool {
    ('A' <= c && c <= 'Z') || ('a' <= c && c <= 'z') || ('0' <= c && c <= '9') || c == '-' || c
        == '_' || c == '.' || c == '~'
}

/// The uppercase hexadecimal digit character for `d`.
pub open spec fn spec_hex_digit_char(d: int) -> char
    recommends
        0 <= d < 16,
{
    if d < 10 {
        (('0' as int) + d) as char
    } else {
        (('A' as int) + (d - 10)) as char
    }
}

/// Percent-encoding of `s` for use in a query component: unreserved ASCII
/// characters stand as they are, every other ASCII character becomes `%XX`
/// with uppercase hexadecimal digits. Characters outside ASCII pass through
/// unchanged; every value the client puts in a URL is ASCII.
pub open spec fn spec_percent_encode(s: Seq<char>) -> Seq<char>
    decreases s.len(),
{
    if s.len() == 0 {
        Seq::empty()
    } else if is_unreserved(s[0]) || s[0] as u32 >= 128 {
        seq![s[0]] + spec_percent_encode(s.skip(1))
    } else {
        seq![
            '%',
            spec_hex_digit_char(((s[0] as u32) / 16) as int),
            spec_hex_digit_char(((s[0] as u32) % 16) as int),
        ] + spec_percent_encode(s.skip(1))
    }
}

/// Percent-encoding of `s`.
pub fn percent_encode(s: &[char]) -> (r: Vec<char>)
    ensures
        r@ == spec_percent_encode(s@),
    decreases s@.len(),
{
    if s.len() == 0 {
        let r: Vec<char> = Vec::new();
        proof {
            assert(r@ =~= spec_percent_encode(s@));
        }
        r
    } else {
        let c = *vstd::slice::slice_index_get(s, 0);
        let unreserved = ('A' <= c && c <= 'Z') || ('a' <= c && c <= 'z') || ('0' <= c && c
            <= '9') || c == '-' || c == '_' || c == '.' || c == '~';
        let mut r: Vec<char> = Vec::new();
        if unreserved || c as u32 >= 128 {
            r.push(c);
        } else {
            let v = c as u32;
            r.push('%');
            r.push(hex_digit_char((v / 16) as u8));
            r.push(hex_digit_char((v % 16) as u8));
        }
        let mut tail = percent_encode(slice_subrange(s, 1, s.len()));
        r.append(&mut tail);
        proof {
            broadcast use vstd::utf8::char_is_scalar;

            assert(r@ =~= spec_percent_encode(s@));
        }
        r
    }
}

/// The uppercase hexadecimal digit character for `d`.
pub fn hex_digit_char(d: u8) -> (r: char)
    requires
        d < 16,
    ensures
        r == spec_hex_digit_char(d as int),
{
    if d < 10 {
        (48u8 + d) as char
    } else {
        (65u8 + (d - 10)) as char
    }
}

/// `s` with every comma replaced by a space.
pub open spec fn spec_spaces_for_commas(s: Seq<char>) -> Seq<char> {
    s.map_values(|c: char| if c == ',' { ' ' } else { c })
}

/// `s` with every comma replaced by a space.
pub fn spaces_for_commas(s: &[char]) -> (r: Vec<char>)
    ensures
        r@ == spec_spaces_for_commas(s@),
{
    let n = s.len();
    let mut r: Vec<char> = Vec::new();
    let mut i: usize = 0;
    while i < n
        invariant
            i <= n,
            n == s@.len(),
            r@ == spec_spaces_for_commas(s@.subrange(0, i as int)),
        decreases n - i,
    {
        let c = *vstd::slice::slice_index_get(s, i);
        if c == ',' {
            r.push(' ');
        } else {
            r.push(c);
        }
        i += 1;
        proof {
            assert(r@ =~= spec_spaces_for_commas(s@.subrange(0, i as int)));
        }
    }
    proof {
        assert(s@.subrange(0, n as int) =~= s@);
    }
    r
}

} // verus!
