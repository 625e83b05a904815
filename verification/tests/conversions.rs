//! Color conversion tests over the named seed colors: CMYK components
//! and the exact RGB round trip through CMYK.

use color::Cmyk;
use color::Rgb;

/// Tests color conversions for the color black.
#[test]
fn color_conversions_black() {
    let black = Rgb::from(0x000000);
    let black_cmyk = Cmyk::from(black);

    assert_eq!(black_cmyk.c, 0);
    assert_eq!(black_cmyk.m, 0);
    assert_eq!(black_cmyk.y, 0);
    assert_eq!(black_cmyk.k, 255);

    let black_rgb_b = Rgb::from(black_cmyk);
    assert_eq!(black_rgb_b, black);
}

/// Tests color conversions for the color white.
#[test]
fn color_conversions_white() {
    let white = Rgb::from(0xFFFFFF);
    let white_cmyk = Cmyk::from(white);

    assert_eq!(white_cmyk.c, 0);
    assert_eq!(white_cmyk.m, 0);
    assert_eq!(white_cmyk.y, 0);
    assert_eq!(white_cmyk.k, 0);

    let white_rgb_b = Rgb::from(white_cmyk);
    assert_eq!(white_rgb_b, white);
}

/// Tests color conversions for the color red.
#[test]
fn color_conversions_red() {
    let red = Rgb::from(0xFF0000);
    let red_cmyk = Cmyk::from(red);

    assert_eq!(red_cmyk.c, 0);
    assert_eq!(red_cmyk.m, 255);
    assert_eq!(red_cmyk.y, 255);
    assert_eq!(red_cmyk.k, 0);

    let red_rgb_b = Rgb::from(red_cmyk);
    assert_eq!(red_rgb_b, red);
}

/// Tests color conversions for the color lime.
#[test]
fn color_conversions_lime() {
    let lime = Rgb::from(0x00FF00);
    let lime_cmyk = Cmyk::from(lime);

    assert_eq!(lime_cmyk.c, 255);
    assert_eq!(lime_cmyk.m, 0);
    assert_eq!(lime_cmyk.y, 255);
    assert_eq!(lime_cmyk.k, 0);

    let lime_rgb_b = Rgb::from(lime_cmyk);
    assert_eq!(lime_rgb_b, lime);
}

/// Tests color conversions for the color blue.
#[test]
fn color_conversions_blue() {
    let blue = Rgb::from(0x0000FF);
    let blue_cmyk = Cmyk::from(blue);

    assert_eq!(blue_cmyk.c, 255);
    assert_eq!(blue_cmyk.m, 255);
    assert_eq!(blue_cmyk.y, 0);
    assert_eq!(blue_cmyk.k, 0);

    let blue_rgb_b = Rgb::from(blue_cmyk);
    assert_eq!(blue_rgb_b, blue);
}

/// Tests color conversions for the color yellow.
#[test]
fn color_conversions_yellow() {
    let yellow = Rgb::from(0xFFFF00);
    let yellow_cmyk = Cmyk::from(yellow);

    assert_eq!(yellow_cmyk.c, 0);
    assert_eq!(yellow_cmyk.m, 0);
    assert_eq!(yellow_cmyk.y, 255);
    assert_eq!(yellow_cmyk.k, 0);

    let yellow_rgb_b = Rgb::from(yellow_cmyk);
    assert_eq!(yellow_rgb_b, yellow);
}

/// Tests color conversions for the color cyan.
#[test]
fn color_conversions_cyan() {
    let cyan = Rgb::from(0x00FFFF);
    let cyan_cmyk = Cmyk::from(cyan);

    assert_eq!(cyan_cmyk.c, 255);
    assert_eq!(cyan_cmyk.m, 0);
    assert_eq!(cyan_cmyk.y, 0);
    assert_eq!(cyan_cmyk.k, 0);

    let cyan_rgb_b = Rgb::from(cyan_cmyk);
    assert_eq!(cyan_rgb_b, cyan);
}

/// Tests color conversions for the color magenta.
#[test]
fn color_conversions_magenta() {
    let magenta = Rgb::from(0xFF00FF);
    let magenta_cmyk = Cmyk::from(magenta);

    assert_eq!(magenta_cmyk.c, 0);
    assert_eq!(magenta_cmyk.m, 255);
    assert_eq!(magenta_cmyk.y, 0);
    assert_eq!(magenta_cmyk.k, 0);

    let magenta_rgb_b = Rgb::from(magenta_cmyk);
    assert_eq!(magenta_rgb_b, magenta);
}

/// Tests color conversions for the color silver.
#[test]
fn color_conversions_silver() {
    let silver = Rgb::from(0xC0C0C0);
    let silver_cmyk = Cmyk::from(silver);

    assert_eq!(silver_cmyk.c, 0);
    assert_eq!(silver_cmyk.m, 0);
    assert_eq!(silver_cmyk.y, 0);
    assert_eq!(silver_cmyk.k, 63);

    let silver_rgb_b = Rgb::from(silver_cmyk);
    assert_eq!(silver_rgb_b, silver);
}

/// Tests color conversions for the color gray. The key must be 127, not
/// 128, which checks the rounding direction.
#[test]
fn color_conversions_gray() {
    let gray = Rgb::from(0x808080);
    let gray_cmyk = Cmyk::from(gray);

    assert_eq!(gray_cmyk.c, 0);
    assert_eq!(gray_cmyk.m, 0);
    assert_eq!(gray_cmyk.y, 0);
    assert_eq!(gray_cmyk.k, 127);

    let gray_rgb_b = Rgb::from(gray_cmyk);
    assert_eq!(gray_rgb_b, gray);
}

/// Tests color conversions for the color maroon.
#[test]
fn color_conversions_maroon() {
    let maroon = Rgb::from(0x800000);
    let maroon_cmyk = Cmyk::from(maroon);

    assert_eq!(maroon_cmyk.c, 0);
    assert_eq!(maroon_cmyk.m, 255);
    assert_eq!(maroon_cmyk.y, 255);
    assert_eq!(maroon_cmyk.k, 127);

    let maroon_rgb_b = Rgb::from(maroon_cmyk);
    assert_eq!(maroon_rgb_b, maroon);
}

/// Tests color conversions for the color olive.
#[test]
fn color_conversions_olive() {
    let olive = Rgb::from(0x808000);
    let olive_cmyk = Cmyk::from(olive);

    assert_eq!(olive_cmyk.c, 0);
    assert_eq!(olive_cmyk.m, 0);
    assert_eq!(olive_cmyk.y, 255);
    assert_eq!(olive_cmyk.k, 127);

    let olive_rgb_b = Rgb::from(olive_cmyk);
    assert_eq!(olive_rgb_b, olive);
}

/// Tests color conversions for the color green.
#[test]
fn color_conversions_green() {
    let green = Rgb::from(0x008000);
    let green_cmyk = Cmyk::from(green);

    assert_eq!(green_cmyk.c, 255);
    assert_eq!(green_cmyk.m, 0);
    assert_eq!(green_cmyk.y, 255);
    assert_eq!(green_cmyk.k, 127);

    let green_rgb_b = Rgb::from(green_cmyk);
    assert_eq!(green_rgb_b, green);
}

/// Tests color conversions for the color purple.
#[test]
fn color_conversions_purple() {
    let purple = Rgb::from(0x800080);
    let purple_cmyk = Cmyk::from(purple);

    assert_eq!(purple_cmyk.c, 0);
    assert_eq!(purple_cmyk.m, 255);
    assert_eq!(purple_cmyk.y, 0);
    assert_eq!(purple_cmyk.k, 127);

    let purple_rgb_b = Rgb::from(purple_cmyk);
    assert_eq!(purple_rgb_b, purple);
}

/// Tests color conversions for the color teal.
#[test]
fn color_conversions_teal() {
    let teal = Rgb::from(0x008080);
    let teal_cmyk = Cmyk::from(teal);

    assert_eq!(teal_cmyk.c, 255);
    assert_eq!(teal_cmyk.m, 0);
    assert_eq!(teal_cmyk.y, 0);
    assert_eq!(teal_cmyk.k, 127);

    let teal_rgb_b = Rgb::from(teal_cmyk);
    assert_eq!(teal_rgb_b, teal);
}

/// Tests color conversions for the color navy.
#[test]
fn color_conversions_navy() {
    let navy = Rgb::from(0x000080);
    let navy_cmyk = Cmyk::from(navy);

    assert_eq!(navy_cmyk.c, 255);
    assert_eq!(navy_cmyk.m, 255);
    assert_eq!(navy_cmyk.y, 0);
    assert_eq!(navy_cmyk.k, 127);

    let navy_rgb_b = Rgb::from(navy_cmyk);
    assert_eq!(navy_rgb_b, navy);
}

/// The RGB -> CMYK -> RGB round trip is the identity on a dense sweep of
/// colors, not only at the named seed values.
#[test]
fn cmyk_round_trip_sweep() {
    let mut r: u16 = 0;
    while r <= 255 {
        let mut g: u16 = 0;
        while g <= 255 {
            let c = Rgb::new(r as u8, g as u8, ((r * 7 + g * 13) % 256) as u8);
            assert_eq!(Rgb::from(Cmyk::from(c)), c);
            g += 17;
        }
        r += 5;
    }
}
