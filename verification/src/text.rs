//! Verified text building blocks: decimal rendering of numbers and the
//! per-site seed string.

use vstd::prelude::*;
use vstd::string::*;
use vstd::utf8::*;

verus! {

/// The character for one decimal digit.
pub open spec fn digit_char(d: nat) -> char {
    ((d + 48) as u8) as char
}

/// The decimal representation of `n`, most significant digit first,
/// without leading zeros (`0` is rendered as "0").
pub open spec fn decimal_chars(n: nat) -> Seq<char>
    decreases n,
{
    if n < 10 {
        seq![digit_char(n)]
    } else {
        decimal_chars(n / 10) + seq![digit_char(n % 10)]
    }
}

/// The site identity string: the byte length of the site name in decimal,
/// then the site name itself, then the counter in decimal.
pub open spec fn seed_chars(name: Seq<char>, counter: u32) -> Seq<char> {
    decimal_chars(encode_utf8(name).len()) + name + decimal_chars(counter as nat)
}

/// Relies on String::push: appends the character to the end of the string.
#[verifier::external_body]
pub(crate) fn push_char(s: &mut String, c: char)
    ensures
        final(s)@ == old(s)@.push(c),
{
    s.push(c);
}

/// Appends the decimal representation of `n` to `s`.
pub(crate) fn push_decimal(s: &mut String, n: usize)
    ensures
        final(s)@ == old(s)@ + decimal_chars(n as nat),
    decreases n,
{
    if n >= 10 {
        push_decimal(s, n / 10);
    }
    let d: u8 = (n % 10) as u8;
    push_char(s, (48 + d) as char);
    proof {
        assert(s@ =~= old(s)@ + decimal_chars(n as nat));
    }
}

/// Builds the seed string for one site derivation.
pub(crate) fn build_seed(site_name: &str, counter: u32) -> (r: String)
    ensures
        r@ == seed_chars(site_name@, counter),
{
    let mut s = String::new();
    let byte_len = site_name.as_bytes().len();
    push_decimal(&mut s, byte_len);
    let n = site_name.unicode_len();
    for i in 0..n
        invariant
            n == site_name@.len(),
            s@ == decimal_chars(encode_utf8(site_name@).len()) + site_name@.take(i as int),
    {
        push_char(&mut s, site_name.get_char(i));
        proof {
            assert(site_name@.take(i + 1) =~= site_name@.take(i as int).push(
                site_name@[i as int],
            ));
        }
    }
    push_decimal(&mut s, counter as usize);
    proof {
        assert(site_name@.take(n as int) =~= site_name@);
        assert(s@ =~= seed_chars(site_name@, counter));
    }
    s
}

} // verus!
