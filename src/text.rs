//! Decimal rendering of the numbers shown on the panel.
use vstd::prelude::*;

verus! {

/// The ASCII digit of `d`, for `d < 10`.
pub open spec fn digit_char(d: nat) -> char {
    ('0' as nat + d) as char
}

/// The decimal digits of `n`, most significant first, without leading zeros.
pub open spec fn decimal_chars(n: nat) -> Seq<char>
    decreases n,
{
    if n < 10 {
        seq![digit_char(n)]
    } else {
        decimal_chars(n / 10) + seq![digit_char(n % 10)]
    }
}

/// The decimal digits of `n`, padded with a zero to at least two.
pub open spec fn two_digit_chars(n: nat) -> Seq<char> {
    if n < 10 {
        seq!['0', digit_char(n)]
    } else {
        decimal_chars(n)
    }
}

/// `minutes:seconds`, each part padded to two digits.
pub open spec fn clock_chars(minutes: nat, seconds: nat) -> Seq<char> {
    two_digit_chars(minutes) + seq![':'] + two_digit_chars(seconds)
}

/// Relies on `ToString` for `u16` (through its `Display` impl): the decimal
/// digits of the number, with no sign and no padding.
#[verifier::external_body]
pub(crate) fn decimal_text(n: u16) -> (r: String)
    ensures
        r@ == decimal_chars(n as nat),
{
    n.to_string()
}

/// Relies on `format!` with the `{:02}` spec for `u8`: each number in decimal,
/// zero-padded to a width of two, joined by a colon.
#[verifier::external_body]
pub(crate) fn clock_text(minutes: u8, seconds: u8) -> (r: String)
    ensures
        r@ == clock_chars(minutes as nat, seconds as nat),
{
    format!("{:02}:{:02}", minutes, seconds)
}

} // verus!
