use chip8::rgb::{Rgb, RgbParseError};

#[test]
fn test_parse_colours() {
    assert_eq!("C8C8C8".parse::<Rgb>(), Ok(Rgb { r: 200, g: 200, b: 200 }));
    assert_eq!(Rgb::parse("050505"), Ok(Rgb { r: 5, g: 5, b: 5 }));
    assert_eq!(Rgb::parse("FFFFFF"), Ok(Rgb { r: 255, g: 255, b: 255 }));
    assert_eq!(Rgb::parse("00ff7f"), Ok(Rgb { r: 0, g: 255, b: 127 }));
    // exactly six hexadecimal digits: no signs
    assert_eq!(Rgb::parse("+F+A+1"), Err(RgbParseError::IntParseError));
    assert_eq!("+F+F+F".parse::<Rgb>(), Err(RgbParseError::IntParseError));
}

#[test]
fn test_parse_errors() {
    assert_eq!(Rgb::parse(""), Err(RgbParseError::InvalidLength));
    assert_eq!(Rgb::parse("12345"), Err(RgbParseError::InvalidLength));
    assert_eq!(Rgb::parse("1234567"), Err(RgbParseError::InvalidLength));
    assert_eq!(Rgb::parse("GG0000"), Err(RgbParseError::IntParseError));
    assert_eq!(Rgb::parse("00-100"), Err(RgbParseError::IntParseError));
    assert_eq!(Rgb::parse("0000++"), Err(RgbParseError::IntParseError));
    // six bytes, but not six ASCII digits
    assert_eq!(Rgb::parse("ÿÿÿ"), Err(RgbParseError::IntParseError));
    assert_eq!(Rgb::parse("€000"), Err(RgbParseError::IntParseError));
    assert_eq!(Rgb::from_hex_bytes(b"0A0B0C"), Ok(Rgb { r: 10, g: 11, b: 12 }));
}
