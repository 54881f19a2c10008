//! Numeric arguments: integers, decimals and percentages, and the clamps applied to them.
//!
//! A decimal is read to the millionth: digits past the sixth after the point are dropped.
//! Numbers are float literals with an optional exponent (`1e2`, `-.5E-1`); `inf` and `nan`
//! are not numbers here, so no infinite or undefined value can arise.
use vstd::prelude::*;
use vstd::arithmetic::div_mod::{lemma_add_mod_noop, lemma_mul_mod_noop_left, lemma_mod_multiples_vanish, lemma_small_mod};
use crate::color::{ColorParseError, UNIT};
use crate::text::{first_index, find_char, slice_of, chars_of};

verus! {

/// Whole parts larger than this are read as this value: past it every clamp below is
/// already at its bound.
pub const WHOLE_CAP: u64 = 1000;

pub open spec fn is_digit(c: char) -> bool {
    '0' <= c && c <= '9'
}

pub open spec fn digit_value(c: char) -> int {
    c as int - '0' as int
}

pub open spec fn all_digits(s: Seq<char>) -> bool {
    forall|i: int| 0 <= i < s.len() ==> is_digit(#[trigger] s[i])
}

/// The number that a string of decimal digits spells.
pub open spec fn digits_value(s: Seq<char>) -> int
    decreases s.len(),
{
    if s.len() == 0 {
        0
    } else {
        digits_value(s.drop_last()) * 10 + digit_value(s.last())
    }
}

/// The first `n` digits after a decimal point as a whole number, reading missing digits as zero.
pub open spec fn frac_scaled(f: Seq<char>, n: nat) -> int
    decreases n,
{
    if n == 0 {
        0
    } else {
        frac_scaled(f, (n - 1) as nat) * 10 + if n - 1 < f.len() {
            digit_value(f[n - 1])
        } else {
            0
        }
    }
}

pub open spec fn min_int(a: int, b: int) -> int {
    if a < b {
        a
    } else {
        b
    }
}

pub open spec fn sign_len(s: Seq<char>) -> int {
    if s.len() > 0 && (s[0] == '+' || s[0] == '-') {
        1
    } else {
        0
    }
}

pub open spec fn is_negative(s: Seq<char>) -> bool {
    s.len() > 0 && s[0] == '-'
}

pub open spec fn unsigned_part(s: Seq<char>) -> Seq<char> {
    s.subrange(sign_len(s), s.len() as int)
}

/// Where the exponent mark (`e` or `E`) stands in `t`, or `t.len()` when there is none.
pub open spec fn exponent_mark(t: Seq<char>) -> int {
    min_int(first_index(t, 'e'), first_index(t, 'E'))
}

/// The digits and point before any exponent.
pub open spec fn mantissa(s: Seq<char>) -> Seq<char> {
    let t = unsigned_part(s);
    t.subrange(0, exponent_mark(t))
}

/// The text after the exponent mark, if any.
pub open spec fn exponent_text(s: Seq<char>) -> Seq<char> {
    let t = unsigned_part(s);
    let e = exponent_mark(t);
    if e < t.len() {
        t.subrange(e + 1, t.len() as int)
    } else {
        Seq::empty()
    }
}

pub open spec fn has_exponent(s: Seq<char>) -> bool {
    exponent_mark(unsigned_part(s)) < unsigned_part(s).len()
}

/// The digits of the exponent, after its optional sign.
pub open spec fn exponent_digits(s: Seq<char>) -> Seq<char> {
    let x = exponent_text(s);
    if x.len() > 0 && (x[0] == '+' || x[0] == '-') {
        x.drop_first()
    } else {
        x
    }
}

/// The power of ten that the exponent gives (zero without one).
pub open spec fn exponent_value(s: Seq<char>) -> int {
    let x = exponent_text(s);
    if x.len() > 0 && x[0] == '-' {
        -digits_value(exponent_digits(s))
    } else {
        digits_value(exponent_digits(s))
    }
}

/// The digits before the point of the mantissa.
pub open spec fn whole_part(s: Seq<char>) -> Seq<char> {
    let m = mantissa(s);
    m.subrange(0, first_index(m, '.'))
}

/// The digits after the point of the mantissa.
pub open spec fn fraction_part(s: Seq<char>) -> Seq<char> {
    let m = mantissa(s);
    let d = first_index(m, '.');
    if d < m.len() {
        m.subrange(d + 1, m.len() as int)
    } else {
        Seq::empty()
    }
}

/// A float literal without infinities or NaN: an optional sign, digits with an optional
/// point (at least one digit in all), and optionally `e` or `E`, an optional sign and digits.
pub open spec fn is_decimal(s: Seq<char>) -> bool {
    &&& all_digits(whole_part(s))
    &&& all_digits(fraction_part(s))
    &&& whole_part(s).len() + fraction_part(s).len() > 0
    &&& has_exponent(s) ==> exponent_digits(s).len() > 0 && all_digits(exponent_digits(s))
}

pub open spec fn zeros(n: int) -> Seq<char> {
    Seq::new(n as nat, |i: int| '0')
}

/// All mantissa digits, without the point.
pub open spec fn mantissa_digits(s: Seq<char>) -> Seq<char> {
    whole_part(s) + fraction_part(s)
}

/// Where the point stands among the mantissa digits once the exponent has moved it.
pub open spec fn point_position(s: Seq<char>) -> int {
    whole_part(s).len() + exponent_value(s)
}

/// The digits of `d` before a point at position `p`, padded with zeros past the end.
pub open spec fn whole_at(d: Seq<char>, p: int) -> Seq<char> {
    if p <= 0 {
        Seq::empty()
    } else if p <= d.len() {
        d.subrange(0, p)
    } else {
        d + zeros(p - d.len())
    }
}

/// The digits of `d` after a point at position `p`, with zeros before the start.
pub open spec fn fraction_at(d: Seq<char>, p: int) -> Seq<char> {
    if p <= 0 {
        zeros(-p) + d
    } else if p <= d.len() {
        d.subrange(p, d.len() as int)
    } else {
        Seq::empty()
    }
}

/// The digits before the point once the exponent has moved it.
pub open spec fn shifted_whole(s: Seq<char>) -> Seq<char> {
    whole_at(mantissa_digits(s), point_position(s))
}

/// The digits after the point once the exponent has moved it.
pub open spec fn shifted_fraction(s: Seq<char>) -> Seq<char> {
    fraction_at(mantissa_digits(s), point_position(s))
}

/// The value of a decimal in millionths, truncated toward zero.
pub open spec fn decimal_value(s: Seq<char>) -> int {
    let m = digits_value(shifted_whole(s)) * UNIT + frac_scaled(shifted_fraction(s), 6);
    if is_negative(s) {
        -m
    } else {
        m
    }
}

/// `decimal_value` with the whole part read no larger than `WHOLE_CAP`.
pub open spec fn capped_value(s: Seq<char>) -> int {
    let m = min_int(digits_value(shifted_whole(s)), WHOLE_CAP as int) * UNIT + frac_scaled(
        shifted_fraction(s),
        6,
    );
    if is_negative(s) {
        -m
    } else {
        m
    }
}

/// The digits of an unsigned integer, after an optional `+`.
pub open spec fn integer_digits(s: Seq<char>) -> Seq<char> {
    if s.len() > 0 && s[0] == '+' {
        s.drop_first()
    } else {
        s
    }
}

pub open spec fn is_integer(s: Seq<char>) -> bool {
    integer_digits(s).len() > 0 && all_digits(integer_digits(s))
}

pub open spec fn has_percent(s: Seq<char>) -> bool {
    s.len() > 0 && s.last() == '%'
}

pub open spec fn unit_clamp(v: int) -> int {
    if v < 0 {
        0
    } else if v > UNIT {
        UNIT as int
    } else {
        v
    }
}

pub open spec fn byte_clamp(v: int) -> int {
    if v < 0 {
        0
    } else if v > 255 {
        255
    } else {
        v
    }
}

/// `n / d` rounded to the nearest integer, halves away from zero (`d > 0`).
pub open spec fn round_div(n: int, d: int) -> int {
    if n >= 0 {
        (2 * n + d) / (2 * d)
    } else {
        -((-2 * n + d) / (2 * d))
    }
}

/// A float-or-percentage argument as a fraction of one in millionths, clamped to [0, 1]:
/// `50%` and `0.5` both give `UNIT / 2`.
pub open spec fn css_fraction(s: Seq<char>) -> Result<u32, ColorParseError> {
    if has_percent(s) {
        if is_decimal(s.drop_last()) {
            Ok(unit_clamp(decimal_value(s.drop_last()) / 100) as u32)
        } else {
            Err(ColorParseError)
        }
    } else if is_decimal(s) {
        Ok(unit_clamp(decimal_value(s)) as u32)
    } else {
        Err(ColorParseError)
    }
}

/// An integer-or-percentage channel: an unsigned integer clamped to [0, 255], or a percentage
/// of 255 rounded to the nearest integer and clamped to [0, 255].
pub open spec fn css_byte(s: Seq<char>) -> Result<u8, ColorParseError> {
    if has_percent(s) {
        if is_decimal(s.drop_last()) {
            Ok(byte_clamp(round_div(decimal_value(s.drop_last()) * 255, 100 * UNIT)) as u8)
        } else {
            Err(ColorParseError)
        }
    } else if is_integer(s) {
        Ok(byte_clamp(digits_value(integer_digits(s))) as u8)
    } else {
        Err(ColorParseError)
    }
}

/// A hue in millionths of a degree, brought into [0, 360) degrees.
pub open spec fn css_hue(s: Seq<char>) -> Result<u32, ColorParseError> {
    if is_decimal(s) {
        Ok((decimal_value(s) % (360 * UNIT)) as u32)
    } else {
        Err(ColorParseError)
    }
}

fn digit_of(c: char) -> (r: u64)
    requires
        is_digit(c),
    ensures
        r == digit_value(c),
        r <= 9,
{
    (c as u32 - '0' as u32) as u64
}

fn all_digits_exec(v: &Vec<char>) -> (r: bool)
    ensures
        r == all_digits(v@),
{
    let mut i: usize = 0;
    while i < v.len()
        invariant
            i <= v.len(),
            forall|j: int| 0 <= j < i ==> is_digit(#[trigger] v@[j]),
        decreases v.len() - i,
    {
        if !('0' <= v[i] && v[i] <= '9') {
            return false;
        }
        i += 1;
    }
    true
}

proof fn lemma_digits_step(s: Seq<char>, i: int)
    requires
        0 <= i < s.len(),
    ensures
        digits_value(s.subrange(0, i + 1)) == digits_value(s.subrange(0, i)) * 10 + digit_value(
            s[i],
        ),
{
    assert(s.subrange(0, i + 1).drop_last() =~= s.subrange(0, i));
}

/// Reads a string of digits as a number, saturating at `cap`.
fn digits_capped(v: &Vec<char>, cap: u128) -> (r: u128)
    requires
        all_digits(v@),
        cap <= EXPONENT_CAP,
    ensures
        r == min_int(digits_value(v@), cap as int),
{
    let mut acc: u128 = 0;
    let mut i: usize = 0;
    while i < v.len()
        invariant
            i <= v.len(),
            all_digits(v@),
            cap <= EXPONENT_CAP,
            acc == min_int(digits_value(v@.subrange(0, i as int)), cap as int),
        decreases v.len() - i,
    {
        proof {
            lemma_digits_step(v@, i as int);
        }
        let d = digit_of(v[i]) as u128;
        acc = acc * 10 + d;
        if acc > cap {
            acc = cap;
        }
        i += 1;
    }
    assert(v@.subrange(0, v.len() as int) =~= v@);
    acc
}

proof fn lemma_mod_step(x: int, d: int, m: int)
    requires
        m > 0,
    ensures
        ((x % m) * 10 + d) % m == (x * 10 + d) % m,
{
    lemma_mul_mod_noop_left(x, 10, m);
    lemma_add_mod_noop((x % m) * 10, d, m);
    lemma_add_mod_noop(x * 10, d, m);
}

/// Reads a string of digits as a number modulo `m`.
fn digits_mod(v: &Vec<char>, m: u64) -> (r: u64)
    requires
        all_digits(v@),
        0 < m <= u32::MAX,
    ensures
        r == digits_value(v@) % (m as int),
{
    let mut acc: u64 = 0;
    let mut i: usize = 0;
    proof {
        assert(digits_value(v@.subrange(0, 0)) == 0);
        lemma_small_mod(0, m as nat);
    }
    while i < v.len()
        invariant
            i <= v.len(),
            all_digits(v@),
            0 < m <= u32::MAX,
            acc == digits_value(v@.subrange(0, i as int)) % (m as int),
        decreases v.len() - i,
    {
        proof {
            lemma_digits_step(v@, i as int);
            lemma_mod_step(digits_value(v@.subrange(0, i as int)), digit_value(v@[i as int]), m as int);
        }
        let d = digit_of(v[i]);
        acc = (acc * 10 + d) % m;
        i += 1;
    }
    assert(v@.subrange(0, v.len() as int) =~= v@);
    acc
}

/// The first six digits after the point as millionths.
fn frac_millionths(f: &Vec<char>) -> (r: u64)
    requires
        all_digits(f@),
    ensures
        r == frac_scaled(f@, 6),
        r < UNIT,
{
    let mut acc: u64 = 0;
    let mut k: usize = 0;
    while k < 6
        invariant
            k <= 6,
            all_digits(f@),
            acc == frac_scaled(f@, k as nat),
            acc < pow10(k as nat),
        decreases 6 - k,
    {
        proof {
            reveal_with_fuel(pow10, 7);
        }
        let d: u64 = if k < f.len() {
            digit_of(f[k])
        } else {
            0
        };
        acc = acc * 10 + d;
        k += 1;
    }
    proof {
        reveal_with_fuel(pow10, 7);
    }
    acc
}

pub open spec fn pow10(n: nat) -> int
    decreases n,
{
    if n == 0 {
        1
    } else {
        10 * pow10((n - 1) as nat)
    }
}

/// Exponents larger than this in magnitude move the point past every digit that a clamp or
/// a hue can see, like this one does.
pub const EXPONENT_CAP: u128 = 0x40_0000_0000_0000_0000;

/// Whether the first `n` characters of `f` that exist are all zeros.
pub open spec fn leading_zeros(f: Seq<char>, n: int) -> bool {
    forall|i: int| 0 <= i < n && i < f.len() ==> #[trigger] f[i] == '0'
}

proof fn lemma_frac_zero(f: Seq<char>, n: nat)
    requires
        leading_zeros(f, n as int),
    ensures
        frac_scaled(f, n) == 0,
    decreases n,
{
    if n > 0 {
        lemma_frac_zero(f, (n - 1) as nat);
    }
}

proof fn lemma_digits_append_zero(d: Seq<char>, k: int)
    requires
        k >= 0,
    ensures
        digits_value(d + zeros(k + 1)) == digits_value(d + zeros(k)) * 10,
{
    assert((d + zeros(k + 1)).drop_last() =~= d + zeros(k));
}

/// Past four appended zeros, more zeros change neither the capped value nor the value modulo
/// 360 (ten thousand times anything is a multiple of 40, and ten times a multiple of 40 is
/// itself modulo 360).
proof fn lemma_many_zeros(d: Seq<char>, k: int)
    requires
        k >= 4,
        all_digits(d),
    ensures
        min_int(digits_value(d + zeros(k)), WHOLE_CAP as int) == min_int(
            digits_value(d + zeros(4)),
            WHOLE_CAP as int,
        ),
        digits_value(d + zeros(k)) % 360 == digits_value(d + zeros(4)) % 360,
        digits_value(d + zeros(k)) >= digits_value(d + zeros(4)),
    decreases k,
{
    let a = digits_value(d + zeros(4));
    lemma_digits_append_zero(d, 0);
    lemma_digits_append_zero(d, 1);
    lemma_digits_append_zero(d, 2);
    lemma_digits_append_zero(d, 3);
    assert(d + zeros(0) =~= d);
    lemma_digits_nonneg(d);
    let v0 = digits_value(d);
    assert(a == v0 * 10000);
    if k > 4 {
        lemma_many_zeros(d, k - 1);
        lemma_digits_append_zero(d, k - 1);
        let v = digits_value(d + zeros(k - 1));
        assert(digits_value(d + zeros(k)) == v * 10);
        lemma_mul_mod_noop_left(v, 10, 360);
        lemma_mul_mod_noop_left(a, 10, 360);
        assert(a * 10 == a + 360 * (v0 * 250));
        lemma_mod_multiples_vanish(v0 * 250, a, 360);
        assert(v0 >= 1 ==> a >= 10000);
    }
}

fn zeros_vec(k: usize) -> (r: Vec<char>)
    ensures
        r@ == zeros(k as int),
{
    let mut r: Vec<char> = Vec::new();
    let mut i: usize = 0;
    while i < k
        invariant
            i <= k,
            r@ == zeros(i as int),
        decreases k - i,
    {
        r.push('0');
        i += 1;
        assert(r@ =~= zeros(i as int));
    }
    r
}

fn concat(a: &Vec<char>, b: &Vec<char>) -> (r: Vec<char>)
    ensures
        r@ == a@ + b@,
{
    let mut r = slice_of(a, 0, a.len());
    let mut i: usize = 0;
    assert(a@.subrange(0, a.len() as int) =~= a@);
    while i < b.len()
        invariant
            i <= b.len(),
            r@ == a@ + b@.subrange(0, i as int),
        decreases b.len() - i,
    {
        r.push(b[i]);
        i += 1;
        assert(r@ =~= a@ + b@.subrange(0, i as int));
    }
    assert(b@.subrange(0, b.len() as int) =~= b@);
    r
}

/// Checks the float grammar and gives the sign, the mantissa digits and the position of the
/// point among them once the exponent has moved it. Past `EXPONENT_CAP` the position given
/// lies on the same side of the digits as the true one, at least six places before them or
/// four after them.
#[verifier::spinoff_prover]
fn mantissa_and_point(s: &Vec<char>) -> (r: Option<(bool, Vec<char>, i128)>)
    ensures
        r is Some <==> is_decimal(s@),
        r matches Some((neg, d, p)) ==> {
            let pt = point_position(s@);
            &&& neg == is_negative(s@)
            &&& d@ == mantissa_digits(s@)
            &&& all_digits(d@)
            &&& (p == pt || (p <= -6 && pt <= p) || (p >= d.len() + 4 && pt >= p))
        },
{
    let a: usize = if s.len() > 0 && (s[0] == '+' || s[0] == '-') {
        1
    } else {
        0
    };
    let t = slice_of(s, a, s.len());
    let e1 = find_char(&t, 'e');
    let e2 = find_char(&t, 'E');
    let e = if e1 < e2 {
        e1
    } else {
        e2
    };
    let m = slice_of(&t, 0, e);
    let d = find_char(&m, '.');
    let w = slice_of(&m, 0, d);
    let f = if d < m.len() {
        slice_of(&m, d + 1, m.len())
    } else {
        Vec::new()
    };
    if !all_digits_exec(&w) || !all_digits_exec(&f) || w.len() + f.len() == 0 {
        return None;
    }
    let (xneg, mag): (bool, u128) = if e < t.len() {
        let x = slice_of(&t, e + 1, t.len());
        let xd = if x.len() > 0 && (x[0] == '+' || x[0] == '-') {
            slice_of(&x, 1, x.len())
        } else {
            slice_of(&x, 0, x.len())
        };
        assert(xd@ =~= exponent_digits(s@));
        if xd.len() == 0 || !all_digits_exec(&xd) {
            return None;
        }
        (x.len() > 0 && x[0] == '-', digits_capped(&xd, EXPONENT_CAP))
    } else {
        (false, 0)
    };
    proof {
        if e >= t.len() {
            assert(exponent_digits(s@) =~= Seq::<char>::empty());
        }
        lemma_digits_nonneg(exponent_digits(s@));
    }
    let dg = concat(&w, &f);
    assert(all_digits(dg@));
    let p: i128 = if xneg {
        w.len() as i128 - mag as i128
    } else {
        w.len() as i128 + mag as i128
    };
    Some((s.len() > 0 && s[0] == '-', dg, p))
}

/// The digits before and after a point at `p` among the digits `d`, with runs of zeros cut
/// short where they make no difference to a clamp, a hue or the millionths.
#[verifier::spinoff_prover]
fn shift_point(d: &Vec<char>, p: i128, Ghost(pt): Ghost<int>) -> (r: (Vec<char>, Vec<char>))
    requires
        all_digits(d@),
        p == pt || (p <= -6 && pt <= p) || (p >= d.len() + 4 && pt >= p),
    ensures
        all_digits(r.0@) && all_digits(r.1@),
        min_int(digits_value(r.0@), WHOLE_CAP as int) == min_int(
            digits_value(whole_at(d@, pt)),
            WHOLE_CAP as int,
        ),
        digits_value(r.0@) % 360 == digits_value(whole_at(d@, pt)) % 360,
        digits_value(r.0@) <= digits_value(whole_at(d@, pt)),
        frac_scaled(r.1@, 6) == frac_scaled(fraction_at(d@, pt), 6),
{
    let n = d.len() as i128;
    if p <= 0 {
        let k: usize = if p < -6 {
            6
        } else {
            (-p) as usize
        };
        let z = zeros_vec(k);
        let fr = concat(&z, d);
        let wh: Vec<char> = Vec::new();
        proof {
            assert(all_digits(fr@));
            if k == 6 {
                assert(leading_zeros(fr@, 6));
                assert(leading_zeros(fraction_at(d@, pt), 6));
                lemma_frac_zero(fr@, 6);
                lemma_frac_zero(fraction_at(d@, pt), 6);
            } else {
                assert(fr@ =~= fraction_at(d@, pt));
            }
            assert(wh@ =~= whole_at(d@, pt));
        }
        (wh, fr)
    } else if p <= n {
        let wh = slice_of(d, 0, p as usize);
        let fr = slice_of(d, p as usize, d.len());
        proof {
            assert(wh@ =~= whole_at(d@, pt));
            assert(fr@ =~= fraction_at(d@, pt));
        }
        (wh, fr)
    } else {
        let k: usize = if p - n > 4 {
            4
        } else {
            (p - n) as usize
        };
        let z = zeros_vec(k);
        let wh = concat(d, &z);
        let fr: Vec<char> = Vec::new();
        proof {
            assert(all_digits(wh@));
            if k == 4 {
                lemma_many_zeros(d@, pt - n);
            } else {
                assert(wh@ =~= whole_at(d@, pt));
            }
            assert(fr@ =~= fraction_at(d@, pt));
        }
        (wh, fr)
    }
}

/// Splits a decimal into its sign and the digits before and after the point once the
/// exponent has moved it, or gives `None` when the text is no decimal.
fn shifted_parts(s: &Vec<char>) -> (r: Option<(bool, Vec<char>, Vec<char>)>)
    ensures
        r is Some <==> is_decimal(s@),
        r matches Some((neg, w, f)) ==> {
            &&& neg == is_negative(s@)
            &&& all_digits(w@) && all_digits(f@)
            &&& min_int(digits_value(w@), WHOLE_CAP as int) == min_int(
                digits_value(shifted_whole(s@)),
                WHOLE_CAP as int,
            )
            &&& digits_value(w@) % 360 == digits_value(shifted_whole(s@)) % 360
            &&& digits_value(w@) <= digits_value(shifted_whole(s@))
            &&& frac_scaled(f@, 6) == frac_scaled(shifted_fraction(s@), 6)
        },
{
    match mantissa_and_point(s) {
        None => None,
        Some((neg, d, p)) => {
            let (w, f) = shift_point(&d, p, Ghost(point_position(s@)));
            Some((neg, w, f))
        },
    }
}

proof fn lemma_digits_nonneg(s: Seq<char>)
    requires
        all_digits(s),
    ensures
        digits_value(s) >= 0,
    decreases s.len(),
{
    if s.len() > 0 {
        assert(all_digits(s.drop_last())) by {
            assert forall|i: int| 0 <= i < s.drop_last().len() implies is_digit(
                #[trigger] s.drop_last()[i],
            ) by {
                assert(s.drop_last()[i] == s[i]);
            }
        }
        lemma_digits_nonneg(s.drop_last());
        assert(is_digit(s[s.len() - 1]));
    }
}

proof fn lemma_frac_nonneg(f: Seq<char>, n: nat)
    requires
        all_digits(f),
    ensures
        frac_scaled(f, n) >= 0,
    decreases n,
{
    if n > 0 {
        lemma_frac_nonneg(f, (n - 1) as nat);
        if n - 1 < f.len() {
            assert(is_digit(f[n - 1]));
        }
    }
}

/// Capping the whole part changes no clamped result: below the cap nothing changes, and
/// past it both values lie beyond every bound on the same side.
proof fn lemma_capped(s: Seq<char>)
    requires
        digits_value(shifted_whole(s)) >= 0,
        frac_scaled(shifted_fraction(s), 6) >= 0,
    ensures
        digits_value(shifted_whole(s)) <= WHOLE_CAP ==> capped_value(s) == decimal_value(s),
        digits_value(shifted_whole(s)) > WHOLE_CAP ==> if is_negative(s) {
            capped_value(s) < 0 && decimal_value(s) < 0
        } else {
            capped_value(s) >= WHOLE_CAP * UNIT && decimal_value(s) >= WHOLE_CAP * UNIT
        },
{
    let w = digits_value(shifted_whole(s));
    if w > WHOLE_CAP {
        assert(w * UNIT >= (WHOLE_CAP + 1) * UNIT) by (nonlinear_arith)
            requires
                w > WHOLE_CAP,
        ;
    }
}

/// Clamps an unsigned integer to a byte.
pub fn clamp_css_byte(iv: u32) -> (r: u8)
    ensures
        r == byte_clamp(iv as int),
{
    if iv > 255 {
        255
    } else {
        iv as u8
    }
}

/// Clamps a value in millionths to [0, 1], that is to [0, `UNIT`].
pub fn clamp_css_float(v: i64) -> (r: u32)
    ensures
        r == unit_clamp(v as int),
{
    if v < 0 {
        0
    } else if v > UNIT as i64 {
        UNIT
    } else {
        v as u32
    }
}

/// Rounds `num / den` to the nearest integer (halves up) and clamps it to a byte.
pub fn clamp_css_byte_from_ratio(num: u128, den: u128) -> (r: u8)
    requires
        0 < den <= u128::MAX / 4,
        num <= u128::MAX / 4,
    ensures
        r == byte_clamp(round_div(num as int, den as int)),
{
    let q = (2 * num + den) / (2 * den);
    if q > 255 {
        255
    } else {
        q as u8
    }
}

/// A decimal's value in millionths, its whole part read no larger than `WHOLE_CAP`.
fn decimal_capped(s: &Vec<char>) -> (r: Option<i64>)
    ensures
        r is Some <==> is_decimal(s@),
        r matches Some(v) ==> v == capped_value(s@),
        r is Some ==> digits_value(shifted_whole(s@)) >= 0 && frac_scaled(shifted_fraction(s@), 6)
            >= 0,
{
    match shifted_parts(s) {
        None => None,
        Some((neg, w, f)) => {
            proof {
                lemma_digits_nonneg(w@);
                lemma_frac_nonneg(f@, 6);
            }
            let whole = digits_capped(&w, WHOLE_CAP as u128) as u64;
            let frac = frac_millionths(&f);
            let m = (whole * UNIT as u64 + frac) as i64;
            if neg {
                Some(-m)
            } else {
                Some(m)
            }
        },
    }
}

/// Reads a float-or-percentage argument.
pub fn fraction_arg(v: &Vec<char>) -> (r: Result<u32, ColorParseError>)
    ensures
        r == css_fraction(v@),
{
    if v.len() > 0 && v[v.len() - 1] == '%' {
        let b = slice_of(v, 0, v.len() - 1);
        assert(b@ == v@.drop_last());
        match decimal_capped(&b) {
            None => Err(ColorParseError),
            Some(cv) => {
                proof {
                    lemma_capped(b@);
                }
                if cv < 0 {
                    Ok(0)
                } else {
                    Ok(clamp_css_float(cv / 100))
                }
            },
        }
    } else {
        match decimal_capped(v) {
            None => Err(ColorParseError),
            Some(cv) => {
                proof {
                    lemma_capped(v@);
                }
                Ok(clamp_css_float(cv))
            },
        }
    }
}

/// Reads an integer-or-percentage channel.
pub fn byte_arg(v: &Vec<char>) -> (r: Result<u8, ColorParseError>)
    ensures
        r == css_byte(v@),
{
    if v.len() > 0 && v[v.len() - 1] == '%' {
        let b = slice_of(v, 0, v.len() - 1);
        assert(b@ == v@.drop_last());
        match decimal_capped(&b) {
            None => Err(ColorParseError),
            Some(cv) => {
                proof {
                    lemma_capped(b@);
                }
                if cv <= 0 {
                    Ok(0)
                } else {
                    Ok(clamp_css_byte_from_ratio(cv as u128 * 255, 100 * UNIT as u128))
                }
            },
        }
    } else {
        let d = if v.len() > 0 && v[0] == '+' {
            slice_of(v, 1, v.len())
        } else {
            slice_of(v, 0, v.len())
        };
        assert(d@ == integer_digits(v@));
        if d.len() == 0 || !all_digits_exec(&d) {
            return Err(ColorParseError);
        }
        proof {
            lemma_digits_nonneg(d@);
        }
        let iv = digits_capped(&d, u32::MAX as u128) as u32;
        Ok(clamp_css_byte(iv))
    }
}

/// Reads a hue argument, a plain decimal in degrees, as millionths of a degree in [0, 360).
pub fn hue_arg(v: &Vec<char>) -> (r: Result<u32, ColorParseError>)
    ensures
        r == css_hue(v@),
        r matches Ok(h) ==> h < 360 * UNIT,
{
    match shifted_parts(v) {
        None => Err(ColorParseError),
        Some((neg, w, f)) => {
            let turns = digits_mod(&w, 360);
            let frac = frac_millionths(&f);
            let m = turns * UNIT as u64 + frac;
            let full: u64 = 360 * UNIT as u64;
            proof {
                let wv = digits_value(shifted_whole(v@));
                lemma_digits_nonneg(w@);
                let q = wv / 360;
                assert(wv * UNIT + frac == m + (360 * UNIT) * q) by (nonlinear_arith)
                    requires
                        wv == 360 * q + turns,
                        m == turns * UNIT + frac,
                ;
                lemma_mod_multiples_vanish(q, m as int, 360 * UNIT);
                lemma_mod_multiples_vanish(-q, -m, 360 * UNIT);
            }
            let h = if neg {
                (full - m % full) % full
            } else {
                m % full
            };
            Ok(h as u32)
        },
    }
}

/// Reads a float-or-percentage argument (`"0.5"`, `"50%"`) as millionths of one, clamped
/// to [0, 1].
pub fn parse_css_float(s: &str) -> (r: Result<u32, ColorParseError>)
    ensures
        r == css_fraction(s@),
{
    fraction_arg(&chars_of(s))
}

/// Reads an integer-or-percentage channel (`"255"`, `"50%"`) as a byte.
pub fn parse_css_int(s: &str) -> (r: Result<u8, ColorParseError>)
    ensures
        r == css_byte(s@),
{
    byte_arg(&chars_of(s))
}

} // verus!
