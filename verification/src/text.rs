//! Rendering numbers as text
//!
//! These functions produce the digit strings behind the hexadecimal, octal, binary and decimal renderings of state
//! names and change stamps.

use vstd::prelude::*;

use vstd::arithmetic::div_mod::lemma_div_denominator;
use vstd::arithmetic::power::{lemma_pow0, lemma_pow1, lemma_pow_adds, lemma_pow_positive, pow};

verus! {

/// The character of the digit `d` (with `d < 16`), using upper-case letters when `upper` is set
pub open spec fn digit_char(d: nat, upper: bool) -> char {
    if d < 10 {
        (48 + d) as char
    } else if upper {
        (55 + d) as char
    } else {
        (87 + d) as char
    }
}

/// The last `n` digits of `v` in the given base, most significant first, padded with zeros
pub open spec fn fixed_digits(v: nat, base: nat, n: nat, upper: bool) -> Seq<char>
    decreases n,
{
    if n == 0 {
        Seq::empty()
    } else {
        fixed_digits(v / base, base, (n - 1) as nat, upper).push(digit_char(v % base, upper))
    }
}

/// The digit at position `i` of the last `n` digits of `v` is the digit of weight `base^(n - 1 - i)`
pub proof fn lemma_fixed_digits_positions(v: nat, base: nat, n: nat, upper: bool)
    requires
        base > 0,
    ensures
        fixed_digits(v, base, n, upper).len() == n,
        forall|i: int|
            0 <= i < n ==> #[trigger] fixed_digits(v, base, n, upper)[i] == digit_char(
                ((v as int / pow(base as int, (n - 1 - i) as nat)) % (base as int)) as nat,
                upper,
            ),
    decreases n,
{
    if n > 0 {
        let m = (n - 1) as nat;
        lemma_fixed_digits_positions(v / base, base, m, upper);
        let f = fixed_digits(v / base, base, m, upper);
        assert forall|i: int| 0 <= i < n implies #[trigger] fixed_digits(v, base, n, upper)[i] == digit_char(
            ((v as int / pow(base as int, (n - 1 - i) as nat)) % (base as int)) as nat,
            upper,
        ) by {
            let e = (n - 1 - i) as nat;
            if i == n - 1 {
                lemma_pow0(base as int);
            } else {
                let e1 = (e - 1) as nat;
                lemma_pow_positive(base as int, e1);
                lemma_pow1(base as int);
                lemma_pow_adds(base as int, 1, e1);
                lemma_div_denominator(v as int, base as int, pow(base as int, e1));
                assert(f[i] == digit_char(
                    (((v / base) as int / pow(base as int, e1)) % (base as int)) as nat,
                    upper,
                ));
            }
        }
    }
}

/// The decimal digits of `v` without leading zeros (`"0"` for zero)
pub open spec fn decimal_digits(v: nat) -> Seq<char>
    decreases v,
{
    if v < 10 {
        seq![digit_char(v, true)]
    } else {
        decimal_digits(v / 10).push(digit_char(v % 10, true))
    }
}

/// Appends a character to a string
///
/// Calls `String::push`, which std documents as appending the given character to the end of the string; the contract
/// claims exactly that of the characters of the string.
#[verifier::external_body]
pub(crate) fn push_char(s: &mut String, c: char)
    ensures
        final(s)@ == old(s)@.push(c),
{
    s.push(c);
}

/// Returns the character of the digit `d`
pub(crate) fn digit(d: u64, upper: bool) -> (c: char)
    requires
        d < 16,
    ensures
        c == digit_char(d as nat, upper),
{
    let b: u8 = if d < 10 {
        48 + d as u8
    } else if upper {
        55 + d as u8
    } else {
        87 + d as u8
    };
    b as char
}

/// Appends the last `n` digits of `v` in base `base` to `out`
pub(crate) fn push_fixed_digits(out: &mut String, v: u64, base: u64, n: usize, upper: bool)
    requires
        2 <= base <= 16,
    ensures
        final(out)@ == old(out)@ + fixed_digits(v as nat, base as nat, n as nat, upper),
    decreases n,
{
    if n == 0 {
        assert(old(out)@ + Seq::<char>::empty() =~= old(out)@);
    } else {
        push_fixed_digits(out, v / base, base, n - 1, upper);
        let c = digit(v % base, upper);
        push_char(out, c);
        assert(out@ =~= old(out)@ + fixed_digits(v as nat, base as nat, n as nat, upper));
    }
}

/// Appends the decimal digits of `v` to `out`
pub(crate) fn push_decimal_digits(out: &mut String, v: u64)
    ensures
        final(out)@ == old(out)@ + decimal_digits(v as nat),
    decreases v,
{
    if v < 10 {
        let c = digit(v, true);
        push_char(out, c);
        assert(out@ =~= old(out)@ + decimal_digits(v as nat));
    } else {
        push_decimal_digits(out, v / 10);
        let c = digit(v % 10, true);
        push_char(out, c);
        assert(out@ =~= old(out)@ + decimal_digits(v as nat));
    }
}

} // verus!
