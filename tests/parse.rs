use css_color_parser::hsl::{css_hue_to_rgb, hsl_to_color};
use css_color_parser::named::{named_color, KEYWORD_COUNT};
use css_color_parser::number::{byte_arg, fraction_arg, hue_arg};
use css_color_parser::parser::normalize_text;
use css_color_parser::{
    clamp_css_byte, clamp_css_byte_from_ratio, clamp_css_float, parse_color, parse_css_float,
    parse_css_int, Color, ColorParseError, UNIT,
};
use std::str::FromStr;

fn rgba(r: u8, g: u8, b: u8, a: u32) -> Color {
    Color { r, g, b, a }
}

fn chars(s: &str) -> Vec<char> {
    s.chars().collect()
}

#[test]
fn short_hex_doubles_each_digit() {
    let digits = "0123456789abcdefABCDEF";
    for a in digits.chars() {
        for c in ['0', '7', 'f', 'C'] {
            let short = format!("#{}{}{}", a, c, a);
            let long = format!("#{}{}{}{}{}{}", a, a, c, c, a, a);
            let ps = parse_color(&short).unwrap();
            assert_eq!(Ok(ps), parse_color(&long));
            let da = a.to_digit(16).unwrap() as u8;
            let dc = c.to_digit(16).unwrap() as u8;
            assert_eq!(ps, rgba(da * 17, dc * 17, da * 17, UNIT));
        }
    }
    assert_eq!(parse_color("#f80"), Ok(rgba(255, 136, 0, UNIT)));
}

#[test]
fn transparent_keyword() {
    assert_eq!(parse_color("transparent"), Ok(rgba(0, 0, 0, 0)));
}

#[test]
fn six_digit_hex() {
    assert_eq!(parse_color("#000000"), Ok(rgba(0, 0, 0, UNIT)));
    assert_eq!(parse_color("#ffffff"), Ok(rgba(255, 255, 255, UNIT)));
    assert_eq!(parse_color("#12AbEf"), Ok(rgba(0x12, 0xab, 0xef, UNIT)));
}

#[test]
fn rgb_integers() {
    assert_eq!(parse_color("rgb(255,0,0)"), Ok(rgba(255, 0, 0, UNIT)));
    assert_eq!(parse_color("rgb(300,0,7)"), Ok(rgba(255, 0, 7, UNIT)));
    assert_eq!(parse_color("rgb(+1,2,99999999999999999999)"), Ok(rgba(1, 2, 255, UNIT)));
}

#[test]
fn rgba_alpha() {
    assert_eq!(parse_color("rgba(0,0,0,0.5)"), Ok(rgba(0, 0, 0, 500_000)));
    assert_eq!(parse_color("rgba(1,2,3,25%)"), Ok(rgba(1, 2, 3, 250_000)));
    assert_eq!(parse_color("rgba(1,2,3,7)"), Ok(rgba(1, 2, 3, UNIT)));
    assert_eq!(parse_color("rgba(1,2,3,-1)"), Ok(rgba(1, 2, 3, 0)));
}

#[test]
fn rgb_percentages_round_half_up() {
    assert_eq!(parse_color("rgb(50%,50%,50%)"), Ok(rgba(128, 128, 128, UNIT)));
    assert_eq!(parse_color("rgb(100%,0%,150%)"), Ok(rgba(255, 0, 255, UNIT)));
    assert_eq!(parse_color("rgb(-10%,10%,20%)"), Ok(rgba(0, 26, 51, UNIT)));
}

#[test]
fn hsl_primaries() {
    assert_eq!(parse_color("hsl(0,100%,50%)"), Ok(rgba(255, 0, 0, UNIT)));
    assert_eq!(parse_color("hsl(120,100%,50%)"), Ok(rgba(0, 255, 0, UNIT)));
    assert_eq!(parse_color("hsl(240,100%,50%)"), Ok(rgba(0, 0, 255, UNIT)));
    assert_eq!(parse_color("hsl(0,0%,50%)"), Ok(rgba(128, 128, 128, UNIT)));
    assert_eq!(parse_color("hsl(60,100%,25%)"), Ok(rgba(128, 128, 0, UNIT)));
    assert_eq!(parse_color("hsla(0,100%,50%,0.25)"), Ok(rgba(255, 0, 0, 250_000)));
}

#[test]
fn hue_wraps_around() {
    assert_eq!(parse_color("hsl(-120,100%,50%)"), parse_color("hsl(240,100%,50%)"));
    assert_eq!(parse_color("hsl(480,100%,50%)"), parse_color("hsl(120,100%,50%)"));
    assert_eq!(parse_color("hsl(360,100%,50%)"), Ok(rgba(255, 0, 0, UNIT)));
    assert_eq!(hue_arg(&chars("-120")), Ok(240 * UNIT));
    assert_eq!(hue_arg(&chars("720.5")), Ok(500_000));
    assert_eq!(hue_arg(&chars("120%")), Err(ColorParseError));
}

#[test]
fn whitespace_is_ignored() {
    assert_eq!(parse_color("rgb( 1 , 2, 3 )"), parse_color("rgb(1,2,3)"));
    assert_eq!(parse_color(" rgb(\t1,\n2,3) "), Ok(rgba(1, 2, 3, UNIT)));
    assert_eq!(parse_color("  r e d "), parse_color("red"));
}

#[test]
fn case_is_ignored() {
    assert_eq!(parse_color("RED"), Ok(rgba(255, 0, 0, UNIT)));
    assert_eq!(parse_color("ReD"), parse_color("red"));
    assert_eq!(parse_color("RGB(1,2,3)"), Ok(rgba(1, 2, 3, UNIT)));
    assert_eq!(parse_color("#ABC"), parse_color("#abc"));
}

#[test]
fn failures() {
    for s in [
        "", "   ", "rgb(1,2)", "rgb(1,2,3,4)", "hsl(1,2,3,4,5)", "#12", "notacolor", "rgb(1,2,3",
        "rgba(1,2,3)", "hsla(1,2,3)", "rgb(1,2,3)x", "foo(1,2,3)", "(1,2,3)", "#12345g",
        "#1234", "rgb(-1,0,0)", "rgb(1.5,0,0)", "rgb(a,b,c)", "hsl(1,2,x)", "rgb)1,2,3(",
        "rgb(1,,3)", "rgba(1,2,3,.)", "hsl(inf,1,1)", "rgb(50%%,0,0)",
    ] {
        assert_eq!(parse_color(s), Err(ColorParseError), "{:?}", s);
    }
}

#[test]
fn parsing_is_repeatable() {
    for s in ["red", "rgba(10,20,30,0.3)", "hsl(33,40%,60%)", "bogus", "#0a0b0c"] {
        assert_eq!(parse_color(s), parse_color(s));
    }
}

#[test]
fn keywords() {
    assert_eq!(KEYWORD_COUNT, 148);
    assert_eq!(parse_color("cornflowerblue"), Ok(rgba(100, 149, 237, UNIT)));
    assert_eq!(parse_color("YellowGreen"), Ok(rgba(154, 205, 50, UNIT)));
    assert_eq!(parse_color("aliceblue"), Ok(rgba(240, 248, 255, UNIT)));
    assert_eq!(named_color(&chars("coral")), Some(rgba(255, 127, 80, UNIT)));
    assert_eq!(named_color(&chars("Coral")), None);
}

#[test]
fn from_str_and_parse_agree() {
    assert_eq!(Color::from_str("lime"), Ok(rgba(0, 255, 0, UNIT)));
    assert_eq!(Color::parse("lime"), Ok(rgba(0, 255, 0, UNIT)));
    assert_eq!("nope".parse::<Color>(), Err(ColorParseError));
}

#[test]
fn error_message() {
    assert_eq!(ColorParseError.message(), "invalid CSS color");
}

#[test]
fn float_or_percentage() {
    assert_eq!(parse_css_float("0.25"), Ok(250_000));
    assert_eq!(parse_css_float("50%"), Ok(500_000));
    assert_eq!(parse_css_float("150%"), Ok(UNIT));
    assert_eq!(parse_css_float("-0.5"), Ok(0));
    assert_eq!(parse_css_float("+.5"), Ok(500_000));
    assert_eq!(parse_css_float("5."), Ok(UNIT));
    assert_eq!(parse_css_float("0.1234567"), Ok(123_456));
    assert_eq!(parse_css_float("12345678901234567890"), Ok(UNIT));
    assert_eq!(parse_css_float("x"), Err(ColorParseError));
    assert_eq!(parse_css_float("1.2.3"), Err(ColorParseError));
    assert_eq!(fraction_arg(&chars("33.3333339%")), Ok(333_333));
}

#[test]
fn integer_or_percentage() {
    assert_eq!(parse_css_int("255"), Ok(255));
    assert_eq!(parse_css_int("256"), Ok(255));
    assert_eq!(parse_css_int("+7"), Ok(7));
    assert_eq!(parse_css_int("50%"), Ok(128));
    assert_eq!(parse_css_int("20%"), Ok(51));
    assert_eq!(parse_css_int("-5%"), Ok(0));
    assert_eq!(parse_css_int("1000000%"), Ok(255));
    assert_eq!(parse_css_int("-7"), Err(ColorParseError));
    assert_eq!(parse_css_int(""), Err(ColorParseError));
    assert_eq!(byte_arg(&chars("0.2%")), Ok(1));
}

#[test]
fn clamps() {
    assert_eq!(clamp_css_byte(0), 0);
    assert_eq!(clamp_css_byte(200), 200);
    assert_eq!(clamp_css_byte(u32::MAX), 255);
    assert_eq!(clamp_css_float(-5), 0);
    assert_eq!(clamp_css_float(400_000), 400_000);
    assert_eq!(clamp_css_float(2_000_000), UNIT);
    assert_eq!(clamp_css_byte_from_ratio(1275, 10), 128);
    assert_eq!(clamp_css_byte_from_ratio(1274, 10), 127);
    assert_eq!(clamp_css_byte_from_ratio(10_000, 3), 255);
}

#[test]
fn hsl_conversion() {
    let u = UNIT as i128;
    assert_eq!(hsl_to_color(0, UNIT, UNIT / 2), rgba(255, 0, 0, UNIT));
    assert_eq!(hsl_to_color(180 * UNIT, UNIT, UNIT / 2), rgba(0, 255, 255, UNIT));
    assert_eq!(hsl_to_color(0, 0, UNIT), rgba(255, 255, 255, UNIT));
    assert_eq!(hsl_to_color(0, UNIT, 0), rgba(0, 0, 0, UNIT));
    let turn: i128 = 1_080_000_000;
    assert_eq!(css_hue_to_rgb(0, u * u, 0), 0);
    assert_eq!(css_hue_to_rgb(0, u * u, 270_000_000), u * u * turn);
    assert_eq!(css_hue_to_rgb(0, u * u, 90_000_000), u * u * turn / 2);
    assert_eq!(css_hue_to_rgb(0, u * u, -90_000_000), 0);
    assert_eq!(css_hue_to_rgb(0, u * u, -1_620_000_000), -3 * u * u * turn);
    assert_eq!(css_hue_to_rgb(0, u * u, 1_350_000_000), u * u * turn);
    assert_eq!(css_hue_to_rgb(0, u * u, 1_080_000_000), 0);
    assert_eq!(css_hue_to_rgb(7, 7, 123_456_789), 7 * turn);
}

#[test]
fn exponent_forms() {
    assert_eq!(parse_css_float("1e2"), Ok(UNIT));
    assert_eq!(parse_css_float("1e-1"), Ok(100_000));
    assert_eq!(parse_css_float("5E-1"), Ok(500_000));
    assert_eq!(parse_css_float("25e+0%"), Ok(250_000));
    assert_eq!(parse_css_float("0.0005e3"), Ok(500_000));
    assert_eq!(parse_css_float("1e-7"), Ok(0));
    assert_eq!(parse_css_float("1e99999999999999999999999999"), Ok(UNIT));
    assert_eq!(parse_css_float("-1e99999999999999999999999999"), Ok(0));
    assert_eq!(parse_css_float("0e99999999999999999999999999"), Ok(0));
    assert_eq!(parse_css_float("1e"), Err(ColorParseError));
    assert_eq!(parse_css_float("e5"), Err(ColorParseError));
    assert_eq!(parse_css_float("1e2e3"), Err(ColorParseError));
    assert_eq!(parse_css_float("inf"), Err(ColorParseError));
    assert_eq!(parse_css_int("1e1%"), Ok(26));
    assert_eq!(hue_arg(&chars("1e2")), Ok(100 * UNIT));
    assert_eq!(hue_arg(&chars("3.6e2")), Ok(0));
    assert_eq!(hue_arg(&chars("-1.2e2")), Ok(240 * UNIT));
    assert_eq!(hue_arg(&chars("1e30")), Ok(280 * UNIT));
    assert_eq!(hue_arg(&chars("1e-9")), Ok(0));
    assert_eq!(parse_color("hsl(1.2E2,100%,50%)"), Ok(rgba(0, 255, 0, UNIT)));
    assert_eq!(parse_color("rgba(0,0,0,5e-1)"), Ok(rgba(0, 0, 0, 500_000)));
    assert_eq!(parse_color("hsl(1e2,0%,50%)"), Ok(rgba(128, 128, 128, UNIT)));
}

#[test]
fn unicode_whitespace_is_ignored() {
    assert_eq!(parse_color("#abc\u{0B}"), parse_color("#abc"));
    assert_eq!(parse_color("\u{A0}rgb(1,\u{2003}2,\u{3000}3)\u{85}"), Ok(rgba(1, 2, 3, UNIT)));
    assert_eq!(parse_color("\u{2028}"), Err(ColorParseError));
}

#[test]
fn normalization() {
    assert_eq!(normalize_text(" Rgb( 1,\t2 )"), chars("rgb(1,2)"));
    assert_eq!(normalize_text("\u{212A}"), chars("\u{212A}"));
}
