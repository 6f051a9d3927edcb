use vstd::prelude::*;
use vstd::string::StringSliceAdditionalSpecFns;

verus! {

/// A 24-bit colour.
#[derive(Debug, Copy, Clone, PartialEq, Eq, Structural)]
pub struct Rgb {
    pub r: u8,
    pub g: u8,
    pub b: u8,
}

/// Why a colour could not be read.
#[derive(Debug, Copy, Clone, PartialEq, Eq, Structural)]
pub enum RgbParseError {
    /// A two-character component is not a hexadecimal number.
    IntParseError,
    /// The text is not exactly six bytes long.
    InvalidLength,
}

/// The value of hexadecimal digit `c` (either case), if it is one.
pub open spec fn hex_digit_value(c: u8) -> Option<u8> {
    if 0x30 <= c <= 0x39 {
        Some((c - 0x30) as u8)
    } else if 0x61 <= c <= 0x66 {
        Some((c - 0x61 + 10) as u8)
    } else if 0x41 <= c <= 0x46 {
        Some((c - 0x41 + 10) as u8)
    } else {
        None
    }
}

/// The value of a two-digit hexadecimal number.
pub open spec fn hex_pair_value(c0: u8, c1: u8) -> Option<u8> {
    match (hex_digit_value(c0), hex_digit_value(c1)) {
        (Some(hi), Some(lo)) => Some((hi * 16 + lo) as u8),
        _ => None,
    }
}

/// The colour written as six bytes `RRGGBB` of hexadecimal numbers.
pub open spec fn parse_rgb_spec(s: Seq<u8>) -> Result<Rgb, RgbParseError> {
    if s.len() != 6 {
        Err(RgbParseError::InvalidLength)
    } else {
        match (hex_pair_value(s[0], s[1]), hex_pair_value(s[2], s[3]), hex_pair_value(s[4], s[5])) {
            (Some(r), Some(g), Some(b)) => Ok(Rgb { r, g, b }),
            _ => Err(RgbParseError::IntParseError),
        }
    }
}

fn hex_digit(c: u8) -> (r: Option<u8>)
    ensures
        r == hex_digit_value(c),
{
    if 0x30 <= c && c <= 0x39 {
        Some(c - 0x30)
    } else if 0x61 <= c && c <= 0x66 {
        Some(c - 0x61 + 10)
    } else if 0x41 <= c && c <= 0x46 {
        Some(c - 0x41 + 10)
    } else {
        None
    }
}

/// The number written by bytes `s[start]` and `s[start + 1]`.
fn hex_pair(s: &[u8], start: usize) -> (r: Option<u8>)
    requires
        start + 1 < s@.len(),
    ensures
        r == hex_pair_value(s@[start as int], s@[start + 1]),
{
    let c0 = s[start];
    let c1 = s[start + 1];
    match (hex_digit(c0), hex_digit(c1)) {
        (Some(hi), Some(lo)) => Some(hi * 16 + lo),
        _ => None,
    }
}

impl Rgb {
    /// Reads a colour from six bytes `RRGGBB` of hexadecimal numbers.
    pub fn from_hex_bytes(s: &[u8]) -> (r: Result<Self, RgbParseError>)
        ensures
            r == parse_rgb_spec(s@),
    {
        if s.len() != 6 {
            return Err(RgbParseError::InvalidLength);
        }
        let r = hex_pair(s, 0);
        let g = hex_pair(s, 2);
        let b = hex_pair(s, 4);
        match (r, g, b) {
            (Some(r), Some(g), Some(b)) => Ok(Rgb { r, g, b }),
            _ => Err(RgbParseError::IntParseError),
        }
    }

    /// Reads a colour written `RRGGBB` in hexadecimal, e.g. `C8C8C8`.
    pub fn parse(s: &str) -> (r: Result<Self, RgbParseError>)
        ensures
            r == parse_rgb_spec(s.spec_bytes()),
    {
        Self::from_hex_bytes(s.as_bytes())
    }
}

impl core::str::FromStr for Rgb {
    type Err = RgbParseError;

    fn from_str(s: &str) -> (r: Result<Self, Self::Err>)
        ensures
            r == parse_rgb_spec(s.spec_bytes()),
    {
        Self::parse(s)
    }
}

} // verus!
