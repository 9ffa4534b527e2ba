//! Text helpers: comparison of string slices, decimal rendering and parsing of
//! integers, each resting on the standard library function it names.
use vstd::prelude::*;

verus! {

/// Whether `c` is one of the ASCII digits `0` to `9`.
pub open spec fn is_digit(c: char) -> bool {
    '0' <= c && c <= '9'
}

/// The value of a digit character.
pub open spec fn digit_value(c: char) -> nat {
    (c as int - '0' as int) as nat
}

/// The character that writes the digit `d`.
pub open spec fn digit_char(d: nat) -> char {
    ('0' as int + d) as char
}

/// `s` is a non-empty run of ASCII digits.
pub open spec fn is_digit_run(s: Seq<char>) -> bool {
    s.len() > 0 && forall|i: int| 0 <= i < s.len() ==> is_digit(#[trigger] s[i])
}

/// The number that a run of decimal digits writes, most significant digit first.
pub open spec fn digits_value(s: Seq<char>) -> nat
    decreases s.len(),
{
    if s.len() == 0 {
        0
    } else {
        digits_value(s.drop_last()) * 10 + digit_value(s.last())
    }
}

/// The decimal writing of `n`, without sign or leading zeros.
pub open spec fn decimal_text(n: nat) -> Seq<char>
    decreases n,
{
    if n < 10 {
        seq![digit_char(n)]
    } else {
        decimal_text(n / 10).push(digit_char(n % 10))
    }
}

/// What reading `s` as an unsigned 64-bit decimal gives: an optional `+`, then
/// digits only, with a value that fits.
pub open spec fn parsed_u64(s: Seq<char>) -> Option<u64> {
    let body = if s.len() > 0 && s[0] == '+' { s.drop_first() } else { s };
    if is_digit_run(body) && digits_value(body) <= u64::MAX {
        Some(digits_value(body) as u64)
    } else {
        None
    }
}

/// What reading `s` as a signed 32-bit decimal gives: an optional `+` or `-`,
/// then digits only, with a value that fits.
pub open spec fn parsed_i32(s: Seq<char>) -> Option<i32> {
    let negative = s.len() > 0 && s[0] == '-';
    let body = if s.len() > 0 && (s[0] == '+' || s[0] == '-') { s.drop_first() } else { s };
    let value: int = if negative { -(digits_value(body) as int) } else { digits_value(body) as int };
    if is_digit_run(body) && i32::MIN <= value <= i32::MAX {
        Some(value as i32)
    } else {
        None
    }
}

/// Compares two string slices with `<str as PartialEq>::eq`; the result is
/// whether they hold the same characters.
#[verifier::external_body]
pub(crate) fn text_eq(a: &str, b: &str) -> (same: bool)
    ensures
        same == (a@ == b@),
{
    a == b
}

/// Appends a character with `String::push`; the string grows by exactly that character.
#[verifier::external_body]
pub(crate) fn push_char(s: &mut String, c: char)
    ensures
        final(s)@ == old(s)@.push(c),
{
    s.push(c);
}

/// Writes a `usize` with its `Display` implementation (`ToString::to_string`),
/// which writes it in decimal.
#[verifier::external_body]
pub(crate) fn usize_text(n: usize) -> (text: String)
    ensures
        text@ == decimal_text(n as nat),
{
    n.to_string()
}

/// Reads a `u64` with `str::parse` (`<u64 as FromStr>::from_str`), which accepts
/// an optional `+` followed by decimal digits whose value fits in a `u64`.
#[verifier::external_body]
pub(crate) fn parse_u64(s: &str) -> (value: Option<u64>)
    ensures
        value == parsed_u64(s@),
{
    s.parse::<u64>().ok()
}

/// Reads an `i32` with `str::parse` (`<i32 as FromStr>::from_str`), which accepts
/// an optional `+` or `-` followed by decimal digits whose value fits in an `i32`.
#[verifier::external_body]
pub(crate) fn parse_i32(s: &str) -> (value: Option<i32>)
    ensures
        value == parsed_i32(s@),
{
    s.parse::<i32>().ok()
}

} // verus!
