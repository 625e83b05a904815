//! Tests for the RGB hex codec: parsing, formatting, the round trip,
//! and the three-digit shorthand.

use color::Rgb;
use color::RgbHexCodeParseError;

#[test]
fn parse_six_digit_code() {
    assert_eq!(Rgb::from_hex_code("#a1b2c3"), Ok(Rgb::new(0xa1, 0xb2, 0xc3)));
    assert_eq!(Rgb::from_hex_code("#000000"), Ok(Rgb::new(0, 0, 0)));
    assert_eq!(Rgb::from_hex_code("#ffffff"), Ok(Rgb::new(255, 255, 255)));
    assert_eq!(Rgb::from_hex_code("#FFFFFF"), Ok(Rgb::new(255, 255, 255)));
    assert_eq!(Rgb::from_hex_code("#7FfF40"), Ok(Rgb::new(0x7f, 0xff, 0x40)));
}

#[test]
fn parse_three_digit_code() {
    assert_eq!(Rgb::from_hex_code("#abc"), Ok(Rgb::new(0xaa, 0xbb, 0xcc)));
    assert_eq!(Rgb::from_hex_code("#000"), Ok(Rgb::new(0, 0, 0)));
    assert_eq!(Rgb::from_hex_code("#fff"), Ok(Rgb::new(255, 255, 255)));
    assert_eq!(Rgb::from_hex_code("#19E"), Ok(Rgb::new(0x11, 0x99, 0xee)));
}

/// The three-digit shorthand parses identically to its six-digit
/// expansion.
#[test]
fn shorthand_matches_expansion() {
    assert_eq!(Rgb::from_hex_code("#abc"), Rgb::from_hex_code("#aabbcc"));
    assert_eq!(Rgb::from_hex_code("#147"), Rgb::from_hex_code("#114477"));
    assert_eq!(Rgb::from_hex_code("#f0a"), Rgb::from_hex_code("#ff00aa"));
}

/// A string without the leading `#` is rejected.
#[test]
fn parse_rejects_missing_hash() {
    assert_eq!(Rgb::from_hex_code("a1b2c3"), Err(RgbHexCodeParseError));
    assert_eq!(Rgb::from_hex_code("abc"), Err(RgbHexCodeParseError));
    assert_eq!(Rgb::from_hex_code("aa1b2c3"), Err(RgbHexCodeParseError));
}

/// A string of the wrong length is rejected.
#[test]
fn parse_rejects_wrong_length() {
    assert_eq!(Rgb::from_hex_code(""), Err(RgbHexCodeParseError));
    assert_eq!(Rgb::from_hex_code("#"), Err(RgbHexCodeParseError));
    assert_eq!(Rgb::from_hex_code("#ab"), Err(RgbHexCodeParseError));
    assert_eq!(Rgb::from_hex_code("#abcd"), Err(RgbHexCodeParseError));
    assert_eq!(Rgb::from_hex_code("#abcde"), Err(RgbHexCodeParseError));
    assert_eq!(Rgb::from_hex_code("#abcdef0"), Err(RgbHexCodeParseError));
}

/// A string with a non-hex character is rejected, including a leading
/// sign that an integer parser would otherwise accept.
#[test]
fn parse_rejects_non_hex_digits() {
    assert_eq!(Rgb::from_hex_code("#a1b2cg"), Err(RgbHexCodeParseError));
    assert_eq!(Rgb::from_hex_code("#xyz"), Err(RgbHexCodeParseError));
    assert_eq!(Rgb::from_hex_code("#+12345"), Err(RgbHexCodeParseError));
    assert_eq!(Rgb::from_hex_code("#-12345"), Err(RgbHexCodeParseError));
    assert_eq!(Rgb::from_hex_code("# 1b2c3"), Err(RgbHexCodeParseError));
    assert_eq!(Rgb::from_hex_code("#a1b2é"), Err(RgbHexCodeParseError));
}

#[test]
fn format_hex_code() {
    assert_eq!(Rgb::new(0x7f, 0xff, 0x40).hex_code(), "#7fff40");
    assert_eq!(Rgb::new(0, 0, 0).hex_code(), "#000000");
    assert_eq!(Rgb::new(255, 255, 255).hex_code(), "#ffffff");
    assert_eq!(Rgb::new(1, 2, 3).hex_code(), "#010203");
}

/// Parsing a formatted hex code yields the color back exactly, on a
/// sweep of colors.
#[test]
fn hex_round_trip_sweep() {
    let mut r: u16 = 0;
    while r <= 255 {
        let mut b: u16 = 0;
        while b <= 255 {
            let c = Rgb::new(r as u8, ((r * 11 + b * 3) % 256) as u8, b as u8);
            let code = c.hex_code();
            assert_eq!(Rgb::from_hex_code(code.as_str()), Ok(c));
            b += 15;
        }
        r += 7;
    }
}

#[test]
fn packed_hex_word() {
    let c = Rgb::new(127, 255, 64);
    assert_eq!(c.hex(), 0x7FFF40);
    assert_eq!(Rgb::from(0x7FFF40u32), c);
    assert_eq!(Rgb::from(0xFF123456u32), Rgb::new(0x12, 0x34, 0x56));
}
