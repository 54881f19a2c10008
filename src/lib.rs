//! Parsing of CSS color text (`red`, `#f80`, `rgb(255, 0, 0)`, `hsla(120, 100%, 50%, 0.5)`)
//! into a normalized color value: three 8-bit channels and an alpha in millionths.
pub mod color;
pub mod hsl;
pub mod laws;
pub mod named;
pub mod number;
pub mod parser;
pub mod text;

pub use color::{Color, ColorParseError, UNIT};
pub use number::{clamp_css_byte, clamp_css_byte_from_ratio, clamp_css_float, parse_css_float, parse_css_int};
pub use parser::parse_color;
