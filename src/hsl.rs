//! Conversion from hue, saturation and lightness to red, green and blue, in exact integer
//! arithmetic.
//!
//! Saturation and lightness are millionths of one; the intermediate values `m1` and `m2` are
//! millionths of millionths. A hue position on the color wheel is counted in `TURN` parts per
//! full turn, so that a third of a turn is a whole number of parts and a hue in millionths of
//! a degree `h` lies at `3 * h` parts.
use vstd::prelude::*;
use crate::color::{Color, UNIT};
use crate::number::{byte_clamp, round_div, clamp_css_byte_from_ratio};

verus! {

/// Parts in one turn of the color wheel: 360 degrees of `UNIT` millionths, three times over.
pub const TURN: i64 = 1_080_000_000;

/// A third of a turn.
pub const THIRD: i64 = 360_000_000;

/// `m2` of the conversion, in millionths of millionths.
pub open spec fn m2_of(s: int, l: int) -> int {
    if 2 * l <= UNIT {
        l * (s + UNIT)
    } else {
        l * UNIT + s * UNIT - l * s
    }
}

/// `m1` of the conversion, in millionths of millionths.
pub open spec fn m1_of(s: int, l: int) -> int {
    2 * l * UNIT - m2_of(s, l)
}

/// Brings a position back into the turn by one step of a whole turn, if it lies outside.
pub open spec fn wrap_turn(t: int) -> int {
    if t < 0 {
        t + TURN
    } else if t > TURN {
        t - TURN
    } else {
        t
    }
}

/// The channel level at wheel position `t`, in parts of `UNIT * UNIT * TURN`.
pub open spec fn hue_level(m1: int, m2: int, t: int) -> int {
    let t = wrap_turn(t);
    if 6 * t < TURN {
        m1 * TURN + (m2 - m1) * (6 * t)
    } else if 2 * t < TURN {
        m2 * TURN
    } else if 3 * t < 2 * TURN {
        m1 * TURN + (m2 - m1) * (4 * TURN - 6 * t)
    } else {
        m1 * TURN
    }
}

/// A channel level scaled to 255, rounded to the nearest integer and clamped to a byte.
pub open spec fn level_byte(v: int) -> u8 {
    byte_clamp(round_div(v * 255, UNIT * UNIT * TURN)) as u8
}

/// The opaque color of hue `h` (millionths of a degree), saturation `s` and lightness `l`
/// (millionths of one).
pub open spec fn hsl_color(h: int, s: int, l: int) -> Color {
    let m1 = m1_of(s, l);
    let m2 = m2_of(s, l);
    Color {
        r: level_byte(hue_level(m1, m2, 3 * h + THIRD)),
        g: level_byte(hue_level(m1, m2, 3 * h)),
        b: level_byte(hue_level(m1, m2, 3 * h - THIRD)),
        a: UNIT,
    }
}

/// For saturation and lightness in [0, 1]: `0 <= m1 <= m2 <= 1`.
proof fn lemma_m_bounds(s: int, l: int)
    requires
        0 <= s <= UNIT,
        0 <= l <= UNIT,
    ensures
        0 <= m1_of(s, l) <= m2_of(s, l) <= UNIT * UNIT,
{
    let u = UNIT as int;
    if 2 * l <= u {
        assert(0 <= 2 * l * u - l * (s + u) <= l * (s + u) <= u * u) by (nonlinear_arith)
            requires
                0 <= s <= u,
                0 <= l,
                2 * l <= u,
                u > 0,
        ;
    } else {
        assert(0 <= 2 * l * u - (l * u + s * u - l * s) <= l * u + s * u - l * s <= u * u)
            by (nonlinear_arith)
            requires
                0 <= s <= u,
                l <= u,
                2 * l > u,
                u > 0,
        ;
    }
}

/// Bound on the magnitude of the levels `css_hue_to_rgb` takes, so that its products fit.
pub const LEVEL_BOUND: i128 = 0x100_0000_0000;

/// The level of one channel at wheel position `t`, after one wrap step (not a modulo).
pub fn css_hue_to_rgb(m1: i128, m2: i128, t: i64) -> (r: i128)
    requires
        -LEVEL_BOUND <= m1 <= LEVEL_BOUND,
        -LEVEL_BOUND <= m2 <= LEVEL_BOUND,
    ensures
        r == hue_level(m1 as int, m2 as int, t as int),
        m1 == m2 ==> r == m1 * TURN,
        m1 <= m2 && -TURN <= t <= 2 * TURN ==> m1 * TURN <= r <= m2 * TURN,
{
    let turn = TURN as i128;
    let t = t as i128;
    let t = if t < 0 {
        t + turn
    } else if t > turn {
        t - turn
    } else {
        t
    };
    let d = m2 - m1;
    assert(-0x4000_0000_0000_0000_0000_0000_0000 <= d * (6 * t) <= 0x4000_0000_0000_0000_0000_0000_0000) by (nonlinear_arith)
        requires
            -2 * LEVEL_BOUND <= d <= 2 * LEVEL_BOUND,
            -0x1_0000_0000_0000_0000 <= t <= 0x1_0000_0000_0000_0000,
    ;
    assert(-0x4000_0000_0000_0000_0000_0000_0000 <= d * (4 * turn - 6 * t) <= 0x4000_0000_0000_0000_0000_0000_0000) by (nonlinear_arith)
        requires
            -2 * LEVEL_BOUND <= d <= 2 * LEVEL_BOUND,
            -0x1_0000_0000_0000_0000 <= t <= 0x1_0000_0000_0000_0000,
            turn == TURN,
    ;
    assert(-0x4000_0000_0000_0000_0000_0000_0000 <= m1 * turn <= 0x4000_0000_0000_0000_0000_0000_0000) by (nonlinear_arith)
        requires
            -LEVEL_BOUND <= m1 <= LEVEL_BOUND,
            turn == TURN,
    ;
    assert(-0x4000_0000_0000_0000_0000_0000_0000 <= m2 * turn <= 0x4000_0000_0000_0000_0000_0000_0000) by (nonlinear_arith)
        requires
            -LEVEL_BOUND <= m2 <= LEVEL_BOUND,
            turn == TURN,
    ;
    if 6 * t < turn {
        assert(0 <= t ==> (m1 <= m2 ==> m1 * turn <= m1 * turn + d * (6 * t) <= m2 * turn)) by (nonlinear_arith)
            requires
                d == m2 - m1,
                6 * t < turn,
        ;
        m1 * turn + d * (6 * t)
    } else if 2 * t < turn {
        assert(m1 <= m2 ==> m1 * turn <= m2 * turn) by (nonlinear_arith)
            requires
                turn > 0,
        ;
        m2 * turn
    } else if 3 * t < 2 * turn {
        assert(m1 <= m2 ==> m1 * turn <= m1 * turn + d * (4 * turn - 6 * t) <= m2 * turn) by (nonlinear_arith)
            requires
                d == m2 - m1,
                2 * t >= turn,
                3 * t < 2 * turn,
        ;
        m1 * turn + d * (4 * turn - 6 * t)
    } else {
        m1 * turn
    }
}

/// Converts hue (millionths of a degree, in [0, 360)), saturation and lightness (millionths
/// of one, in [0, 1]) to an opaque color.
pub fn hsl_to_color(h: u32, s: u32, l: u32) -> (r: Color)
    requires
        h < 360 * UNIT,
        s <= UNIT,
        l <= UNIT,
    ensures
        r == hsl_color(h as int, s as int, l as int),
{
    proof {
        lemma_m_bounds(s as int, l as int);
    }
    let u = UNIT as u128;
    let (su, lu) = (s as u128, l as u128);
    let m2: u128 = if 2 * lu <= u {
        lu * (su + u)
    } else {
        lu * u + su * u - lu * su
    };
    let m1: u128 = 2 * lu * u - m2;
    let t = 3 * h as i64;
    let scale = u * u * TURN as u128;
    let (m1, m2) = (m1 as i128, m2 as i128);
    let r = clamp_css_byte_from_ratio(css_hue_to_rgb(m1, m2, t + THIRD) as u128 * 255, scale);
    let g = clamp_css_byte_from_ratio(css_hue_to_rgb(m1, m2, t) as u128 * 255, scale);
    let b = clamp_css_byte_from_ratio(css_hue_to_rgb(m1, m2, t - THIRD) as u128 * 255, scale);
    Color { r, g, b, a: UNIT }
}

} // verus!
