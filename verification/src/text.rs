//! Small verified text builders: digits of an unsigned number in a radix,
//! and appending to a `String`.
use vstd::prelude::*;

verus! {

/// The character of one digit: `0`..`9`, then lower-case `a`..`z`.
pub open spec fn digit_char(d: nat) -> char {
    if d < 10 {
        (d + 48) as char
    } else {
        (d + 87) as char
    }
}

/// The digits of `n` written in base `radix`, most significant first, with
/// no leading zeros (zero is written as one `0`).
pub open spec fn radix_text(n: nat, radix: nat) -> Seq<char>
    decreases n,
{
    if radix < 2 || n < radix {
        seq![digit_char(n)]
    } else {
        proof {
            vstd::arithmetic::div_mod::lemma_div_decreases(n as int, radix as int);
        }
        radix_text(n / radix, radix).push(digit_char(n % radix))
    }
}

/// Decimal text of `n`.
pub open spec fn decimal_text(n: nat) -> Seq<char> {
    radix_text(n, 10)
}

/// Appends one character to a `String` (std's `String::push`).
#[verifier::external_body]
pub(crate) fn push_char(s: &mut String, c: char)
    ensures
        final(s)@ == old(s)@.push(c),
{
    s.push(c);
}

/// Appends `text` to `s`.
pub fn push_str(s: &mut String, text: &str)
    ensures
        final(s)@ == old(s)@ + text@,
{
    s.append(text);
}

fn digit(d: u64) -> (c: char)
    requires
        d < 36,
    ensures
        c == digit_char(d as nat),
{
    if d < 10 {
        ((d as u8) + 48) as char
    } else {
        ((d as u8) + 87) as char
    }
}

/// Appends the digits of `n` in base `radix` to `s`.
pub fn push_radix(s: &mut String, n: u64, radix: u64)
    requires
        2 <= radix <= 16,
    ensures
        final(s)@ == old(s)@ + radix_text(n as nat, radix as nat),
    decreases n,
{
    if n >= radix {
        proof {
            vstd::arithmetic::div_mod::lemma_div_decreases(n as int, radix as int);
        }
        push_radix(s, n / radix, radix);
    } else {
        proof {
            vstd::arithmetic::div_mod::lemma_small_mod(n as nat, radix as nat);
        }
    }
    push_char(s, digit(n % radix));
}

/// Appends the decimal digits of `n` to `s`.
pub fn push_decimal(s: &mut String, n: u64)
    ensures
        final(s)@ == old(s)@ + decimal_text(n as nat),
{
    push_radix(s, n, 10);
}

/// The decimal text of a number has at least one digit.
pub proof fn lemma_radix_text_nonempty(n: nat, radix: nat)
    ensures
        radix_text(n, radix).len() >= 1,
    decreases n,
{
    if radix >= 2 && n >= radix {
        vstd::arithmetic::div_mod::lemma_div_decreases(n as int, radix as int);
        lemma_radix_text_nonempty(n / radix, radix);
    }
}

/// Digits below ten are written by distinct characters.
pub proof fn lemma_digit_char_injective(d: nat, e: nat)
    requires
        d < 10,
        e < 10,
        digit_char(d) == digit_char(e),
    ensures
        d == e,
{
    assert((digit_char(d) as int) == d + 48);
    assert((digit_char(e) as int) == e + 48);
}

/// Distinct numbers have distinct decimal texts.
pub proof fn lemma_decimal_text_injective(m: nat, n: nat)
    requires
        decimal_text(m) == decimal_text(n),
    ensures
        m == n,
    decreases m,
{
    if m < 10 && n < 10 {
        assert(decimal_text(m) == seq![digit_char(m)]);
        assert(decimal_text(n) == seq![digit_char(n)]);
        assert(decimal_text(m)[0] == decimal_text(n)[0]);
        assert(seq![digit_char(m)][0] == digit_char(m));
        assert(seq![digit_char(n)][0] == digit_char(n));
        lemma_digit_char_injective(m, n);
    } else if m < 10 {
        lemma_radix_text_nonempty(n / 10, 10);
        assert(decimal_text(m).len() == 1);
    } else if n < 10 {
        lemma_radix_text_nonempty(m / 10, 10);
        assert(decimal_text(n).len() == 1);
    } else {
        let a = decimal_text(m);
        let b = decimal_text(n);
        assert(a.last() == b.last());
        assert(a.drop_last() =~= radix_text(m / 10, 10));
        assert(b.drop_last() =~= radix_text(n / 10, 10));
        vstd::arithmetic::div_mod::lemma_div_decreases(m as int, 10);
        lemma_decimal_text_injective(m / 10, n / 10);
        lemma_digit_char_injective(m % 10, n % 10);
        vstd::arithmetic::div_mod::lemma_fundamental_div_mod(m as int, 10);
        vstd::arithmetic::div_mod::lemma_fundamental_div_mod(n as int, 10);
    }
}

} // verus!
