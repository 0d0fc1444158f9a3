//! The grammar of fixed numeric UTC offsets.

use vstd::prelude::*;
use vstd::string::*;

verus! {

/// The value of a decimal digit, or `None` for any other character.
pub open spec fn digit_value(c: char) -> Option<int> {
    if '0' <= c <= '9' {
        Some(c as int - '0' as int)
    } else {
        None
    }
}

/// The number that the two decimal digits at `at` and `at + 1` spell.
pub open spec fn two_digits(text: Seq<char>, at: int) -> Option<int> {
    match (digit_value(text[at]), digit_value(text[at + 1])) {
        (Some(tens), Some(ones)) => Some(10 * tens + ones),
        _ => None,
    }
}

/// The offset, in seconds east of UTC, that a sign, an hour and a minute
/// stand for: hours up to 23, minutes up to 59, `+` east and `-` west.
pub open spec fn signed_offset(sign: char, hours: Option<int>, minutes: Option<int>) -> Option<
    int,
> {
    match (hours, minutes) {
        (Some(h), Some(m)) => if h <= 23 && m <= 59 && sign == '+' {
            Some(h * 3_600 + m * 60)
        } else if h <= 23 && m <= 59 && sign == '-' {
            Some(-(h * 3_600 + m * 60))
        } else {
            None
        },
        _ => None,
    }
}

/// The fixed offset that an identifier spells, in seconds east of UTC.
///
/// An identifier is a fixed offset when it reads `+HH:MM`, `-HH:MM`, `+HHMM`
/// or `-HHMM`, with two decimal digits each for the hours, at most 23, and
/// the minutes, at most 59. Anything else is `None`.
pub open spec fn offset_seconds(identifier: Seq<char>) -> Option<int> {
    if identifier.len() == 6 && identifier[3] == ':' {
        signed_offset(identifier[0], two_digits(identifier, 1), two_digits(identifier, 4))
    } else if identifier.len() == 5 {
        signed_offset(identifier[0], two_digits(identifier, 1), two_digits(identifier, 3))
    } else {
        None
    }
}

/// Every fixed offset is less than a day, either way.
pub proof fn lemma_offset_within_a_day(identifier: Seq<char>)
    ensures
        offset_seconds(identifier) is Some ==> -86_400 < offset_seconds(identifier)->0 < 86_400,
{
}

/// An identifier that spells a fixed offset is made of ASCII characters.
pub proof fn lemma_offset_is_ascii(identifier: Seq<char>)
    requires
        offset_seconds(identifier) is Some,
    ensures
        vstd::utf8::is_ascii_chars(identifier),
{
    assert forall|i: int| 0 <= i < identifier.len() implies '\0' <= #[trigger] identifier[i]
        <= '\u{7f}' by {
        if identifier.len() == 6 {
            assert(digit_value(identifier[1]) is Some);
            assert(digit_value(identifier[2]) is Some);
            assert(digit_value(identifier[4]) is Some);
            assert(digit_value(identifier[5]) is Some);
        } else {
            assert(digit_value(identifier[1]) is Some);
            assert(digit_value(identifier[2]) is Some);
            assert(digit_value(identifier[3]) is Some);
            assert(digit_value(identifier[4]) is Some);
        }
    }
}

fn digit_at(bytes: &[u8], at: usize) -> (value: Option<i32>)
    requires
        at < bytes@.len(),
    ensures
        value == match digit_value(bytes@[at as int] as char) {
            Some(v) => Some(v as i32),
            None => None,
        },
{
    let byte: u8 = bytes[at];
    if 48 <= byte && byte <= 57 {
        Some((byte - 48) as i32)
    } else {
        None
    }
}

fn two_digits_at(bytes: &[u8], at: usize) -> (value: Option<i32>)
    requires
        at + 1 < bytes@.len() <= usize::MAX,
    ensures
        value == match two_digits(bytes@.map_values(|b: u8| b as char), at as int) {
            Some(v) => Some(v as i32),
            None => None,
        },
{
    match (digit_at(bytes, at), digit_at(bytes, at + 1)) {
        (Some(tens), Some(ones)) => Some(10 * tens + ones),
        _ => None,
    }
}

fn signed(sign: u8, hours: Option<i32>, minutes: Option<i32>) -> (offset: Option<i32>)
    requires
        hours is Some ==> 0 <= hours->0 <= 99,
        minutes is Some ==> 0 <= minutes->0 <= 99,
    ensures
        offset == match signed_offset(
            sign as char,
            match hours {
                Some(h) => Some(h as int),
                None => None,
            },
            match minutes {
                Some(m) => Some(m as int),
                None => None,
            },
        ) {
            Some(v) => Some(v as i32),
            None => None,
        },
{
    match (hours, minutes) {
        (Some(h), Some(m)) => {
            if h <= 23 && m <= 59 && sign == 43 {
                Some(h * 3_600 + m * 60)
            } else if h <= 23 && m <= 59 && sign == 45 {
                Some(-(h * 3_600 + m * 60))
            } else {
                None
            }
        },
        _ => None,
    }
}

/// Reads an identifier as a fixed numeric UTC offset, in seconds east of
/// UTC. `None` means that the identifier is not of that form.
pub fn parse_offset(identifier: &str) -> (offset: Option<i32>)
    ensures
        offset is Some <==> offset_seconds(identifier@) is Some,
        offset is Some ==> offset->0 == offset_seconds(identifier@)->0,
        offset is Some ==> -86_400 < offset->0 < 86_400,
{
    if !identifier.is_ascii() {
        proof {
            if offset_seconds(identifier@) is Some {
                lemma_offset_is_ascii(identifier@);
            }
        }
        return None;
    }
    let bytes = identifier.as_bytes();
    proof {
        is_ascii_spec_bytes(identifier);
        assert(bytes@.map_values(|b: u8| b as char) =~= identifier@);
    }
    let length: usize = bytes.len();
    if length == 6 && bytes[3] == 58 {
        signed(bytes[0], two_digits_at(bytes, 1), two_digits_at(bytes, 4))
    } else if length == 5 {
        signed(bytes[0], two_digits_at(bytes, 1), two_digits_at(bytes, 3))
    } else {
        None
    }
}

} // verus!
