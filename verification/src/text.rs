//! Small text helpers shared by the record codec and the OAuth URL and
//! response builders: character/string conversion and decimal formatting.

use vstd::prelude::*;

verus! {

/// The characters of `s`, in order, as a vector.
pub fn string_to_chars(s: &str) -> (r: Vec<char>)
    ensures
        r@ == s@,
{
    let n = s.unicode_len();
    let mut r: Vec<char> = Vec::new();
    let mut i: usize = 0;
    while i < n
        invariant
            i <= n,
            n == s@.len(),
            r@ == s@.subrange(0, i as int),
        decreases n - i,
    {
        r.push(s.get_char(i));
        i += 1;
        proof {
            assert(r@ =~= s@.subrange(0, i as int));
        }
    }
    proof {
        assert(r@ =~= s@);
    }
    r
}

/// Relies on std's `String::from_iter` over a character iterator: the
/// returned string holds exactly the characters of `v`, in order.
#[verifier::external_body]
pub fn chars_to_string(v: &Vec<char>) -> (r: String)
    ensures
        r@ == v@,
{
    v.iter().collect()
}

/// The decimal digit character for `d`.
pub open spec fn spec_digit_char(d: int) -> char
    recommends
        0 <= d < 10,
{
    (('0' as int) + d) as char
}

/// The usual decimal numeral of `n`: most significant digit first, no sign,
/// no leading zero except for the numeral of zero itself.
pub open spec fn spec_dec_of(n: int) -> Seq<char>
    recommends
        n >= 0,
    decreases n,
{
    if n < 10 {
        seq![spec_digit_char(n)]
    } else {
        spec_dec_of(n / 10).push(spec_digit_char(n % 10))
    }
}

/// The decimal numeral of `n`, as characters.
pub fn dec_chars_of(n: u64) -> (r: Vec<char>)
    ensures
        r@ == spec_dec_of(n as int),
    decreases n,
{
    if n < 10 {
        let d: u8 = 48u8 + (n as u8);
        let c: char = d as char;
        let mut r: Vec<char> = Vec::new();
        r.push(c);
        proof {
            assert(r@ =~= spec_dec_of(n as int));
        }
        r
    } else {
        let mut r = dec_chars_of(n / 10);
        let d: u8 = 48u8 + ((n % 10) as u8);
        r.push(d as char);
        r
    }
}

} // verus!
