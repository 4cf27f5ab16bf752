use vstd::prelude::*;
use crate::helpers::server::encryption::{hex_digit, hex_digit_text};

verus! {

/// A colour as its red, green and blue parts.
#[derive(Debug, Clone, Copy, PartialEq, Eq, Structural)]
pub struct Rgb {
    pub red: u8,
    pub green: u8,
    pub blue: u8,
}

/// Why a text is not a colour.
#[derive(Debug, Clone, Copy, PartialEq, Eq, Structural)]
pub enum HexError {
    /// The text has fewer than six characters after its number signs.
    TooShort,
    /// A character that should be a hexadecimal digit is none.
    InvalidDigit,
}

/// Colours that can be read from hexadecimal text.
pub trait FromHex: Sized {
    /// Reads a colour from text such as `#a97bdb`.
    fn from_hex(hex: &str) -> (colour: Result<Self, HexError>)
    ;
}

/// The value of a hexadecimal digit, upper or lower case.
pub open spec fn hex_value(c: char) -> Option<int> {
    if '0' <= c && c <= '9' {
        Some(c as int - '0' as int)
    } else if 'a' <= c && c <= 'f' {
        Some(c as int - 'a' as int + 10)
    } else if 'A' <= c && c <= 'F' {
        Some(c as int - 'A' as int + 10)
    } else {
        None
    }
}

/// The byte that two characters stand for: two hexadecimal digits, or a
/// plus sign and one.
pub open spec fn hex_pair(high: char, low: char) -> Option<int> {
    match (hex_value(high), hex_value(low)) {
        (Some(h), Some(l)) => Some(h * 16 + l),
        (None, Some(l)) => if high == '+' {
            Some(l)
        } else {
            None
        },
        _ => None,
    }
}

/// `text` without the number signs at its start.
pub open spec fn without_signs(text: Seq<char>) -> Seq<char>
    decreases text.len(),
{
    if text.len() > 0 && text[0] == '#' {
        without_signs(text.subrange(1, text.len() as int))
    } else {
        text
    }
}

/// The colour that a text stands for: after its number signs, three pairs
/// of characters give red, green and blue; what follows is ignored.
pub open spec fn spec_from_hex(hex: Seq<char>) -> Result<Rgb, HexError> {
    let digits = without_signs(hex);
    if digits.len() < 6 {
        Err(HexError::TooShort)
    } else {
        match (
            hex_pair(digits[0], digits[1]),
            hex_pair(digits[2], digits[3]),
            hex_pair(digits[4], digits[5]),
        ) {
            (Some(r), Some(g), Some(b)) => Ok(Rgb { red: r as u8, green: g as u8, blue: b as u8 }),
            _ => Err(HexError::InvalidDigit),
        }
    }
}

/// The value of a hexadecimal digit.
fn digit_value(c: char) -> (value: Option<u8>)
    ensures
        match value {
            Some(v) => hex_value(c) == Some(v as int) && v < 16,
            None => hex_value(c) is None,
        },
{
    if '0' <= c && c <= '9' {
        Some(((c as u32) - ('0' as u32)) as u8)
    } else if 'a' <= c && c <= 'f' {
        Some(((c as u32) - ('a' as u32) + 10) as u8)
    } else if 'A' <= c && c <= 'F' {
        Some(((c as u32) - ('A' as u32) + 10) as u8)
    } else {
        None
    }
}

/// The byte that two characters stand for.
fn pair_value(high: char, low: char) -> (value: Option<u8>)
    ensures
        match value {
            Some(v) => hex_pair(high, low) == Some(v as int),
            None => hex_pair(high, low) is None,
        },
{
    match (digit_value(high), digit_value(low)) {
        (Some(h), Some(l)) => Some(h * 16 + l),
        (None, Some(l)) => if high == '+' {
            Some(l)
        } else {
            None
        },
        _ => None,
    }
}

impl FromHex for Rgb {
    fn from_hex(hex: &str) -> (colour: Result<Self, HexError>)
        ensures
            colour == spec_from_hex(hex@),
    {
        let n = hex.unicode_len();
        let mut start: usize = 0;
        assert(hex@.subrange(0, n as int) =~= hex@);
        while start < n && hex.get_char(start) == '#'
            invariant
                n == hex@.len(),
                start <= n,
                without_signs(hex@) == without_signs(hex@.subrange(start as int, n as int)),
            decreases n - start,
        {
            proof {
                let rest = hex@.subrange(start as int, n as int);
                assert(rest[0] == hex@[start as int]);
                assert(rest.subrange(1, rest.len() as int) =~= hex@.subrange(start + 1, n as int));
            }
            start += 1;
        }
        proof {
            let rest = hex@.subrange(start as int, n as int);
            if start < n {
                assert(rest[0] == hex@[start as int]);
            }
            assert(without_signs(hex@) == rest);
        }
        if n - start < 6 {
            return Err(HexError::TooShort);
        }
        let red = pair_value(hex.get_char(start), hex.get_char(start + 1));
        let green = pair_value(hex.get_char(start + 2), hex.get_char(start + 3));
        let blue = pair_value(hex.get_char(start + 4), hex.get_char(start + 5));
        match (red, green, blue) {
            (Some(r), Some(g), Some(b)) => Ok(Rgb { red: r, green: g, blue: b }),
            _ => Err(HexError::InvalidDigit),
        }
    }
}

/// The colour that a number stands for, as text: a number sign and the
/// number's lowest twenty-four bits as six hexadecimal digits.
pub open spec fn colour_text(sample: u32) -> Seq<char> {
    let value = (sample & 0xff_ffff) as int;
    seq![
        '#',
        hex_digit(value / 0x10_0000 % 16),
        hex_digit(value / 0x1_0000 % 16),
        hex_digit(value / 0x1000 % 16),
        hex_digit(value / 0x100 % 16),
        hex_digit(value / 0x10 % 16),
        hex_digit(value % 16),
    ]
}

/// Writes the colour that a number stands for. With a number drawn at
/// random this is a random colour.
pub fn random_color(sample: u32) -> (colour: String)
    ensures
        colour@ == colour_text(sample),
{
    let value = sample & 0xff_ffff;
    assert(value <= 0xff_ffff) by (bit_vector)
        requires
            value == sample & 0xff_ffff,
    ;
    proof {
        reveal_strlit("#");
    }
    let mut colour = String::from_str("#");
    colour.append(hex_digit_text((value / 0x10_0000 % 16) as u8));
    colour.append(hex_digit_text((value / 0x1_0000 % 16) as u8));
    colour.append(hex_digit_text((value / 0x1000 % 16) as u8));
    colour.append(hex_digit_text((value / 0x100 % 16) as u8));
    colour.append(hex_digit_text((value / 0x10 % 16) as u8));
    colour.append(hex_digit_text((value % 16) as u8));
    assert(colour@ =~= colour_text(sample));
    colour
}

} // verus!
