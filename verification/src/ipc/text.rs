//! What the import reads out of the text of a cell.

use vstd::prelude::*;

verus! {

/// The characters that count as white space: those with the Unicode
/// property `White_Space`.
pub open spec fn is_white_space(c: char) -> bool {
    let code = c as u32;
    ||| 0x09 <= code <= 0x0d
    ||| code == 0x20
    ||| code == 0x85
    ||| code == 0xa0
    ||| code == 0x1680
    ||| 0x2000 <= code <= 0x200a
    ||| code == 0x2028
    ||| code == 0x2029
    ||| code == 0x202f
    ||| code == 0x205f
    ||| code == 0x3000
}

/// `text` without the white space it starts with.
pub open spec fn trimmed_start(text: Seq<char>) -> Seq<char>
    decreases text.len(),
{
    if text.len() > 0 && is_white_space(text[0]) {
        trimmed_start(text.skip(1))
    } else {
        text
    }
}

/// `text` without the white space it ends with.
pub open spec fn trimmed_end(text: Seq<char>) -> Seq<char>
    decreases text.len(),
{
    if text.len() > 0 && is_white_space(text.last()) {
        trimmed_end(text.drop_last())
    } else {
        text
    }
}

/// `text` without the white space around it.
pub open spec fn trimmed(text: Seq<char>) -> Seq<char> {
    trimmed_end(trimmed_start(text))
}

/// Whether `c` is one of the ten decimal digits.
pub open spec fn is_digit(c: char) -> bool {
    '0' <= c <= '9'
}

/// The number that a string of decimal digits stands for.
pub open spec fn digits_value(digits: Seq<char>) -> int
    decreases digits.len(),
{
    if digits.len() == 0 {
        0
    } else {
        digits_value(digits.drop_last()) * 10 + (digits.last() as int - '0' as int)
    }
}

/// Whether `text` holds decimal digits and nothing else.
pub open spec fn all_digits(text: Seq<char>) -> bool {
    forall|i: int| 0 <= i < text.len() ==> is_digit(#[trigger] text[i])
}

/// The number that `text` stands for as a 16-bit signed integer: an
/// optional sign, then one or more decimal digits and nothing else, with
/// a value in range.
pub open spec fn parsed_i16(text: Seq<char>) -> Option<i16> {
    let signed = text.len() > 0 && (text[0] == '-' || text[0] == '+');
    let digits = if signed {
        text.skip(1)
    } else {
        text
    };
    let magnitude = digits_value(digits);
    let value = if text.len() > 0 && text[0] == '-' {
        -magnitude
    } else {
        magnitude
    };
    if digits.len() > 0 && all_digits(digits) && -0x8000 <= value <= 0x7fff {
        Some(value as i16)
    } else {
        None
    }
}

/// The decimal digits of `number`, the most significant first, without
/// leading zeros.
pub open spec fn decimal_digits(number: nat) -> Seq<char>
    decreases number,
{
    let last = (('0' as u8) + (number % 10) as u8) as char;
    if number < 10 {
        seq![last]
    } else {
        decimal_digits(number / 10).push(last)
    }
}

/// The text that stands for a 16-bit signed integer: its decimal digits,
/// after a minus sign where it is negative.
pub open spec fn displayed_i16(value: i16) -> Seq<char> {
    if value < 0 {
        seq!['-'] + decimal_digits((-(value as int)) as nat)
    } else {
        decimal_digits(value as nat)
    }
}

/// Calls `str::trim`, which removes leading and trailing white space as
/// the Unicode property `White_Space` defines it.
#[verifier::external_body]
pub(crate) fn trim(text: &str) -> (inner: &str)
    ensures
        inner@ == trimmed(text@),
{
    text.trim()
}

/// Calls `str::parse::<i16>`, which accepts an optional sign followed by
/// decimal digits only, and fails on an empty string, on any other
/// character and on a value out of range.
#[verifier::external_body]
pub(crate) fn parse_i16(text: &str) -> (number: Option<i16>)
    ensures
        number == parsed_i16(text@),
{
    text.parse::<i16>().ok()
}

/// Calls `to_string` on a 16-bit signed integer, which writes the number
/// in decimal, with a minus sign before a negative one and no other
/// padding.
#[verifier::external_body]
pub(crate) fn display_i16(value: i16) -> (text: String)
    ensures
        text@ == displayed_i16(value),
{
    value.to_string()
}

/// Whether two strings hold the same text.
pub fn same_text(a: &str, b: &str) -> (same: bool)
    ensures
        same == (a@ == b@),
{
    a.to_owned() == b.to_owned()
}

/// The place of the first of `names` that is `name`, or the number of
/// names where none is.
pub open spec fn position(names: Seq<Seq<char>>, name: Seq<char>) -> int
    decreases names.len(),
{
    if names.len() == 0 {
        0
    } else if names[0] == name {
        0
    } else {
        1 + position(names.skip(1), name)
    }
}

/// `position` is the least index that holds `name`.
pub proof fn lemma_position(names: Seq<Seq<char>>, name: Seq<char>)
    ensures
        0 <= position(names, name) <= names.len(),
        position(names, name) < names.len() ==> names[position(names, name)] == name,
        forall|i: int| 0 <= i < position(names, name) ==> names[i] != name,
    decreases names.len(),
{
    if names.len() > 0 && names[0] != name {
        let rest = names.skip(1);
        lemma_position(rest, name);
        assert forall|i: int| 0 <= i < position(names, name) implies names[i] != name by {
            if i > 0 {
                assert(names[i] == rest[i - 1]);
            }
        }
    }
}

/// An index that holds `name` after none that does, or the number of
/// names where none holds it, is the `position` of `name`.
pub proof fn lemma_position_is(names: Seq<Seq<char>>, name: Seq<char>, at: int)
    requires
        0 <= at <= names.len(),
        at < names.len() ==> names[at] == name,
        forall|i: int| 0 <= i < at ==> names[i] != name,
    ensures
        position(names, name) == at,
{
    lemma_position(names, name);
}

/// No name occurs twice.
pub open spec fn distinct(names: Seq<Seq<char>>) -> bool {
    forall|i: int, j: int| 0 <= i < j < names.len() ==> names[i] != names[j]
}

} // verus!
