//! Security patch levels: a date written `YYYY-MM-DD`, packed into the number
//! `YYYYMMDD`.

use vstd::prelude::*;
use vstd::utf8::*;

verus! {

/// The patch level reported where no usable date can be had.
pub const DEFAULT_PATCHLEVEL: u32 = 19700919;

/// Whether `byte` is an ASCII decimal digit.
pub open spec fn is_digit(byte: u8) -> bool {
    0x30 <= byte <= 0x39
}

/// The value of the decimal digit `byte`.
pub open spec fn digit_value(byte: u8) -> int {
    byte - 0x30
}

/// Whether `text` has the shape of a date: four digits, a hyphen, two digits,
/// a hyphen, two digits, and nothing before, between or after.
pub open spec fn is_date_shaped(text: Seq<u8>) -> bool {
    &&& text.len() == 10
    &&& text[4] == 0x2d
    &&& text[7] == 0x2d
    &&& forall|i: int| 0 <= i < 10 && i != 4 && i != 7 ==> is_digit(#[trigger] text[i])
}

/// The year that a date-shaped `text` gives.
pub open spec fn year_of(text: Seq<u8>) -> int {
    1000 * digit_value(text[0]) + 100 * digit_value(text[1]) + 10 * digit_value(text[2])
        + digit_value(text[3])
}

/// The month that a date-shaped `text` gives.
pub open spec fn month_of(text: Seq<u8>) -> int {
    10 * digit_value(text[5]) + digit_value(text[6])
}

/// The day that a date-shaped `text` gives.
pub open spec fn day_of(text: Seq<u8>) -> int {
    10 * digit_value(text[8]) + digit_value(text[9])
}

/// The patch level that `value` spells: `YYYYMMDD` for a text `YYYY-MM-DD`
/// whose month is 1 to 12 and whose day is 1 to 31; `None` for any other text.
pub open spec fn spec_extract_patchlevel(value: Seq<char>) -> Option<u32> {
    let text = encode_utf8(value);
    if is_date_shaped(text) && 1 <= month_of(text) <= 12 && 1 <= day_of(text) <= 31 {
        Some((10000 * year_of(text) + 100 * month_of(text) + day_of(text)) as u32)
    } else {
        None
    }
}

/// The patch level to report for `value`: the one it spells, or the default
/// where it spells none.
pub open spec fn spec_patchlevel_or_default(value: Seq<char>) -> u32 {
    match spec_extract_patchlevel(value) {
        Some(level) => level,
        None => DEFAULT_PATCHLEVEL,
    }
}

/// The value of the digit of `text` at `at`, if it is one.
fn digit_at(text: &[u8], at: usize) -> (digit: Option<u32>)
    requires
        at < text.len(),
    ensures
        digit is Some <==> is_digit(text[at as int]),
        digit matches Some(d) ==> d == digit_value(text[at as int]) && d <= 9,
{
    let byte: u8 = text[at];
    if 0x30 <= byte && byte <= 0x39 {
        let d: u8 = byte - 0x30;
        Some(d as u32)
    } else {
        None
    }
}

/// The number that the two digits of `text` at `at` spell, if both are digits.
fn pair_at(text: &[u8], at: usize) -> (number: Option<u32>)
    requires
        at + 1 < text.len(),
    ensures
        number is Some <==> is_digit(text[at as int]) && is_digit(text[at + 1]),
        number matches Some(n) ==> n == 10 * digit_value(text[at as int]) + digit_value(
            text[at + 1],
        ),
{
    match (digit_at(text, at), digit_at(text, at + 1)) {
        (Some(tens), Some(units)) => Some(tens * 10 + units),
        _ => None,
    }
}

/// Reads a date `YYYY-MM-DD` as the number `YYYYMMDD`. Any other text, and a
/// month or day out of range, gives `None`.
pub fn extract_patchlevel(value: &str) -> (level: Option<u32>)
    ensures
        level == spec_extract_patchlevel(value@),
{
    let text = value.as_bytes();
    if text.len() != 10 {
        return None;
    }
    if text[4] != 0x2d || text[7] != 0x2d {
        return None;
    }
    match (pair_at(text, 0), pair_at(text, 2), pair_at(text, 5), pair_at(text, 8)) {
        (Some(century), Some(year), Some(month), Some(day)) => {
            if month < 1 || month > 12 || day < 1 || day > 31 {
                None
            } else {
                Some((century * 100 + year) * 10000 + month * 100 + day)
            }
        },
        _ => None,
    }
}

/// Reads a date as [`extract_patchlevel`] does, and answers
/// [`DEFAULT_PATCHLEVEL`] where the text is no date.
pub fn patchlevel_or_default(value: &str) -> (level: u32)
    ensures
        level == spec_patchlevel_or_default(value@),
{
    match extract_patchlevel(value) {
        Some(level) => level,
        None => DEFAULT_PATCHLEVEL,
    }
}

/// The date that stands in where no patch-level property can be had.
pub open spec fn absent_patchlevel_text() -> Seq<char> {
    "1970-09-19"@
}

/// The stand-in for a patch-level property that is not there.
pub fn absent_patchlevel() -> (text: &'static str)
    ensures
        text@ == absent_patchlevel_text(),
{
    "1970-09-19"
}

/// The stand-in date spells the default patch level.
pub proof fn absent_patchlevel_is_default()
    ensures
        spec_extract_patchlevel(absent_patchlevel_text()) == Some(DEFAULT_PATCHLEVEL),
        spec_patchlevel_or_default(absent_patchlevel_text()) == DEFAULT_PATCHLEVEL,
{
    let value = absent_patchlevel_text();
    reveal_strlit("1970-09-19");
    assert(is_ascii_chars(value));
    is_ascii_chars_encode_utf8(value);
    let text = encode_utf8(value);
    assert(text[0] == value[0] as u8 && text[1] == value[1] as u8 && text[2] == value[2] as u8
        && text[3] == value[3] as u8 && text[4] == value[4] as u8 && text[5] == value[5] as u8
        && text[6] == value[6] as u8 && text[7] == value[7] as u8 && text[8] == value[8] as u8
        && text[9] == value[9] as u8);
}

/// A patch level that a text spells is a date packed into eight digits: never
/// more than 99991231.
pub proof fn patchlevel_is_bounded(value: Seq<char>)
    ensures
        spec_extract_patchlevel(value) matches Some(level) ==> 101 <= level <= 99991231,
{
}

} // verus!
