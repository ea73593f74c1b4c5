//! Reading typed values out of stored text.

use vstd::prelude::*;

verus! {

/// The boolean that a text spells: only the two literals are values.
pub open spec fn bool_of_text(s: Seq<char>) -> Option<bool> {
    if s == seq!['t', 'r', 'u', 'e'] {
        Some(true)
    } else if s == seq!['f', 'a', 'l', 's', 'e'] {
        Some(false)
    } else {
        None
    }
}

pub open spec fn is_digit(c: char) -> bool {
    '0' <= c && c <= '9'
}

pub open spec fn all_digits(s: Seq<char>) -> bool {
    forall|i: int| 0 <= i < s.len() ==> is_digit(#[trigger] s[i])
}

/// The number that a run of decimal digits spells, the last digit counting least.
pub open spec fn digits_value(s: Seq<char>) -> int
    decreases s.len(),
{
    if s.len() == 0 {
        0
    } else {
        digits_value(s.drop_last()) * 10 + (s.last() as int - '0' as int)
    }
}

/// The integer that a text spells: one optional sign, then at least one
/// decimal digit and nothing else.
pub open spec fn decimal_of_text(s: Seq<char>) -> Option<int> {
    let signed = s.len() > 0 && (s[0] == '-' || s[0] == '+');
    let digits = if signed { s.subrange(1, s.len() as int) } else { s };
    if digits.len() == 0 || !all_digits(digits) {
        None
    } else if signed && s[0] == '-' {
        Some(-digits_value(digits))
    } else {
        Some(digits_value(digits))
    }
}

pub open spec fn i32_of_text(s: Seq<char>) -> Option<i32> {
    match decimal_of_text(s) {
        Some(v) => if i32::MIN <= v <= i32::MAX { Some(v as i32) } else { None },
        None => None,
    }
}

pub open spec fn i64_of_text(s: Seq<char>) -> Option<i64> {
    match decimal_of_text(s) {
        Some(v) => if i64::MIN <= v <= i64::MAX { Some(v as i64) } else { None },
        None => None,
    }
}

/// Calls `str::parse::<bool>`. Trusted: the call succeeds on exactly the two
/// literals `true` and `false`, as std documents for `bool`'s `FromStr`.
#[verifier::external_body]
pub(crate) fn parse_bool(s: &str) -> (r: Option<bool>)
    ensures
        r == bool_of_text(s@),
{
    s.parse::<bool>().ok()
}

/// Calls `str::parse::<i32>`. Trusted: std documents the accepted texts as an
/// optional `+` or `-` followed by decimal digits only, and a value outside
/// the type's range as an error.
#[verifier::external_body]
pub(crate) fn parse_i32(s: &str) -> (r: Option<i32>)
    ensures
        r == i32_of_text(s@),
{
    s.parse::<i32>().ok()
}

/// Calls `str::parse::<i64>`. Trusted in the same way as the 32-bit reader.
#[verifier::external_body]
pub(crate) fn parse_i64(s: &str) -> (r: Option<i64>)
    ensures
        r == i64_of_text(s@),
{
    s.parse::<i64>().ok()
}

/// `std::path::PathBuf`; nothing inside it is seen.
#[verifier::external_type_specification]
#[verifier::external_body]
pub struct ExPathBuf(std::path::PathBuf);

/// The path that a text names.
pub uninterp spec fn path_of_text(s: Seq<char>) -> std::path::PathBuf;

/// Calls `PathBuf::from` on the text. Trusted: the path depends on the text
/// alone; nothing is looked up on disk.
#[verifier::external_body]
pub(crate) fn path_from_text(s: &str) -> (r: std::path::PathBuf)
    ensures
        r == path_of_text(s@),
{
    std::path::PathBuf::from(s)
}

} // verus!
