//! A color library for color editors.
//!
//! A single color value is represented in several encodings: 24-bit RGB
//! (the canonical hub every other space converts through), 32-bit CMYK,
//! and a facade type that aggregates them behind uniform accessors.
//! Conversions between spaces, the hex codec for RGB, and the scalar
//! utilities they rest on are specified and verified here.

pub mod cmyk;
pub mod color;
pub mod rgb;
pub mod utility;

pub use cmyk::Cmyk;
pub use color::Color;
pub use rgb::Rgb;
pub use rgb::RgbHexCodeParseError;
