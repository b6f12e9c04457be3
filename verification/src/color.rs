//! Colors parsed from `#RRGGBB` strings.
//!
//! A channel is kept as its raw two-digit hexadecimal value, 0 through 255.
//! A drawing backend that wants normalized channels divides each stored byte
//! by 255.

use vstd::prelude::*;

verus! {

/// A malformed color string: wrong length, missing leading `#`, or a
/// character that is not a hexadecimal digit.
#[derive(Clone, Copy, Debug, PartialEq, Eq, Structural)]
pub struct FormatError;

/// An RGB color. Each channel holds the raw value of its two hexadecimal
/// digits, so the normalized channel is the stored byte divided by 255.
#[derive(Clone, Copy, Debug, PartialEq, Eq, Structural)]
pub struct Color {
    pub r: u8,
    pub g: u8,
    pub b: u8,
}

/// Whether `c` is a hexadecimal digit, in either case.
pub open spec fn is_hex_digit(c: char) -> bool {
    ||| '0' as int <= c as int <= '9' as int
    ||| 'a' as int <= c as int <= 'f' as int
    ||| 'A' as int <= c as int <= 'F' as int
}

/// The numeric value of a hexadecimal digit.
pub open spec fn hex_digit_val(c: char) -> int {
    if '0' as int <= c as int <= '9' as int {
        c as int - '0' as int
    } else if 'a' as int <= c as int <= 'f' as int {
        10 + c as int - 'a' as int
    } else {
        10 + c as int - 'A' as int
    }
}

/// The channel value of two hexadecimal digits, high digit first.
pub open spec fn hex_pair_val(hi: char, lo: char) -> int {
    16 * hex_digit_val(hi) + hex_digit_val(lo)
}

/// A well-formed color string: exactly seven characters, a leading `#`,
/// then six hexadecimal digits.
pub open spec fn valid_hex_color(s: Seq<char>) -> bool {
    &&& s.len() == 7
    &&& s[0] == '#'
    &&& forall|i: int| 1 <= i < 7 ==> is_hex_digit(#[trigger] s[i])
}

/// The numeric value of one hexadecimal digit character, if it is one.
fn hex_digit_value(c: char) -> (r: Option<u8>)
    ensures
        r is Some <==> is_hex_digit(c),
        (r matches Some(v) ==> v as int == hex_digit_val(c) && v < 16),
{
    let u = c as u32;
    if '0' as u32 <= u && u <= '9' as u32 {
        Some((u - '0' as u32) as u8)
    } else if 'a' as u32 <= u && u <= 'f' as u32 {
        Some((10 + u - 'a' as u32) as u8)
    } else if 'A' as u32 <= u && u <= 'F' as u32 {
        Some((10 + u - 'A' as u32) as u8)
    } else {
        None
    }
}

/// The channel value of two hexadecimal digit characters, if both are digits.
fn hex_pair(hi: char, lo: char) -> (r: Option<u8>)
    ensures
        r is Some <==> is_hex_digit(hi) && is_hex_digit(lo),
        (r matches Some(v) ==> v as int == hex_pair_val(hi, lo)),
{
    match (hex_digit_value(hi), hex_digit_value(lo)) {
        (Some(h), Some(l)) => Some(16 * h + l),
        _ => None,
    }
}

impl Color {
    /// Parses a `#RRGGBB` string. Succeeds exactly on well-formed color
    /// strings and returns the three channels as their raw byte values;
    /// every other input is a format error.
    pub fn from_hex_string(hex: &str) -> (res: Result<Color, FormatError>)
        ensures
            res is Ok <==> valid_hex_color(hex@),
            (res matches Ok(c) ==> {
                &&& c.r as int == hex_pair_val(hex@[1], hex@[2])
                &&& c.g as int == hex_pair_val(hex@[3], hex@[4])
                &&& c.b as int == hex_pair_val(hex@[5], hex@[6])
            }),
    {
        if hex.unicode_len() != 7 {
            return Err(FormatError);
        }
        if hex.get_char(0) != '#' {
            return Err(FormatError);
        }
        let r = hex_pair(hex.get_char(1), hex.get_char(2));
        let g = hex_pair(hex.get_char(3), hex.get_char(4));
        let b = hex_pair(hex.get_char(5), hex.get_char(6));
        match (r, g, b) {
            (Some(r), Some(g), Some(b)) => {
                assert forall|i: int| 1 <= i < 7 implies is_hex_digit(hex@[i]) by {}
                Ok(Color { r, g, b })
            },
            _ => Err(FormatError),
        }
    }
}

} // verus!
