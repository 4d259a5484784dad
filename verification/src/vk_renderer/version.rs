//! The application's version, as the instance is told it.
use vstd::prelude::*;
use vstd::string::*;

verus! {

/// A version of three numbers.
#[derive(Clone, Copy, PartialEq, Eq, Debug, Structural)]
pub struct Version {
    pub major: u16,
    pub minor: u16,
    pub patch: u16,
}

/// Whether `c` is one of the ten decimal digits.
pub open spec fn is_digit(c: char) -> bool {
    '0' <= c <= '9'
}

/// The number a decimal digit stands for.
pub open spec fn digit_value(c: char) -> nat {
    (c as u32 - '0' as u32) as nat
}

/// The number a run of decimal digits stands for, the first digit weighing
/// most.
pub open spec fn decimal(digits: Seq<char>) -> nat
    decreases digits.len(),
{
    if digits.len() == 0 {
        0
    } else {
        decimal(digits.drop_last()) * 10 + digit_value(digits.last())
    }
}

/// Whether `text` holds decimal digits only.
pub open spec fn all_digits(text: Seq<char>) -> bool {
    forall|i: int| 0 <= i < text.len() ==> is_digit(#[trigger] text[i])
}

/// The digits of a field: what follows its plus sign, where it begins with one.
pub open spec fn digits_of(field: Seq<char>) -> Seq<char> {
    if field.len() > 0 && field[0] == '+' {
        field.drop_first()
    } else {
        field
    }
}

/// The number a field of a version stands for: a plus sign or none, then one
/// decimal digit or more, the number no greater than 65535. Nothing else
/// stands for a number.
pub open spec fn number(field: Seq<char>) -> Option<u16> {
    let digits = digits_of(field);
    if digits.len() > 0 && all_digits(digits) && decimal(digits) <= u16::MAX {
        Some(decimal(digits) as u16)
    } else {
        None
    }
}

/// Where the field that begins at `from` ends: at the first dot from there on,
/// or at the end of `text` where no dot follows.
pub open spec fn field_end(text: Seq<char>, from: int) -> int
    decreases text.len() - from,
{
    if from >= text.len() {
        text.len() as int
    } else if text[from] == '.' {
        from
    } else {
        field_end(text, from + 1)
    }
}

/// The version `text` gives: its first three fields between dots, each a
/// number. Fields after the third are not read. Text of fewer than three
/// fields, or with one of the three not a number, gives no version.
pub open spec fn version_of(text: Seq<char>) -> Option<Version> {
    let first_dot = field_end(text, 0);
    if first_dot >= text.len() {
        None
    } else {
        let second_dot = field_end(text, first_dot + 1);
        if second_dot >= text.len() {
            None
        } else {
            let end = field_end(text, second_dot + 1);
            match (
                number(text.subrange(0, first_dot)),
                number(text.subrange(first_dot + 1, second_dot)),
                number(text.subrange(second_dot + 1, end)),
            ) {
                (Some(major), Some(minor), Some(patch)) => Some(Version { major, minor, patch }),
                _ => None,
            }
        }
    }
}

/// The number that the first digits of a run stand for is no greater than
/// the number that all of them stand for.
pub proof fn lemma_decimal_grows(digits: Seq<char>, count: int)
    requires
        0 <= count <= digits.len(),
    ensures
        decimal(digits.take(count)) <= decimal(digits),
    decreases digits.len(),
{
    if count < digits.len() {
        let shorter = digits.drop_last();
        lemma_decimal_grows(shorter, count);
        assert(shorter.take(count) =~= digits.take(count));
    } else {
        assert(digits.take(count) =~= digits);
    }
}

fn find_field_end(text: &str, from: usize, length: usize) -> (end: usize)
    requires
        from <= length,
        length == text@.len(),
    ensures
        end == field_end(text@, from as int),
        from <= end <= length,
{
    let mut i: usize = from;
    while i < length && text.get_char(i) != '.'
        invariant
            from <= i <= length,
            length == text@.len(),
            field_end(text@, from as int) == field_end(text@, i as int),
        decreases length - i,
    {
        i += 1;
    }
    i
}

fn parse_number(text: &str, from: usize, to: usize) -> (parsed: Option<u16>)
    requires
        from <= to <= text@.len(),
    ensures
        parsed == number(text@.subrange(from as int, to as int)),
{
    let start: usize = if from < to && text.get_char(from) == '+' {
        from + 1
    } else {
        from
    };
    let ghost digits = text@.subrange(start as int, to as int);
    if start == to {
        return None;
    }
    let mut value: u32 = 0;
    let mut i: usize = start;
    while i < to
        invariant
            from <= start <= i <= to <= text@.len(),
            digits == text@.subrange(start as int, to as int),
            digits == digits_of(text@.subrange(from as int, to as int)),
            value == decimal(digits.take(i - start)),
            value <= u16::MAX,
            forall|j: int| 0 <= j < i - start ==> is_digit(#[trigger] digits[j]),
        decreases to - i,
    {
        let c = text.get_char(i);
        assert(c == digits[i - start]);
        if c < '0' || c > '9' {
            return None;
        }
        let digit: u32 = c as u32 - '0' as u32;
        assert(digits.take(i - start + 1).drop_last() =~= digits.take(i - start));
        value = value * 10 + digit;
        if value > 65535 {
            proof {
                lemma_decimal_grows(digits, i - start + 1);
            }
            return None;
        }
        i += 1;
    }
    assert(digits.take(i - start) =~= digits);
    Some(value as u16)
}

/// Reads a version of three numbers between dots, as in `1.2.3`.
pub fn parse_version(text: &str) -> (version: Option<Version>)
    ensures
        version == version_of(text@),
{
    let length = text.unicode_len();
    let first_dot = find_field_end(text, 0, length);
    if first_dot >= length {
        return None;
    }
    let second_dot = find_field_end(text, first_dot + 1, length);
    if second_dot >= length {
        return None;
    }
    let end = find_field_end(text, second_dot + 1, length);
    let major = match parse_number(text, 0, first_dot) {
        Some(major) => major,
        None => {
            return None;
        },
    };
    let minor = match parse_number(text, first_dot + 1, second_dot) {
        Some(minor) => minor,
        None => {
            return None;
        },
    };
    let patch = match parse_number(text, second_dot + 1, end) {
        Some(patch) => patch,
        None => {
            return None;
        },
    };
    Some(Version { major, minor, patch })
}

/// The version that `version_string` gives.
pub fn application_version(version_string: &str) -> (version: Version)
    requires
        version_of(version_string@).is_some(),
    ensures
        Some(version) == version_of(version_string@),
{
    match parse_version(version_string) {
        Some(version) => version,
        None => unreached(),
    }
}

} // verus!
