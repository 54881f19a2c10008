//! The format dispatcher: keywords, hexadecimal literals and the `rgb()`, `rgba()`,
//! `hsl()` and `hsla()` functions.
use vstd::prelude::*;
use crate::color::{Color, ColorParseError, UNIT, opaque};
use crate::hsl::{hsl_color, hsl_to_color};
use crate::named::{keyword_color, named_color};
use crate::number::{css_byte, css_fraction, css_hue, byte_arg, fraction_arg, hue_arg};
use crate::text::{first_index, find_char, same_text, slice_of};

verus! {

/// Unicode whitespace, the characters that `char::is_whitespace` accepts: tab through
/// carriage return, space, next line, no-break space, ogham space mark, the spaces from en
/// quad to hair space, line and paragraph separators, narrow no-break space, medium
/// mathematical space and ideographic space.
pub open spec fn is_css_space(c: char) -> bool {
    ('\t' <= c && c <= '\r') || c == ' ' || c == '\u{85}' || c == '\u{A0}' || c == '\u{1680}'
        || ('\u{2000}' <= c && c <= '\u{200A}') || c == '\u{2028}' || c == '\u{2029}'
        || c == '\u{202F}' || c == '\u{205F}' || c == '\u{3000}'
}

fn is_space_char(c: char) -> (r: bool)
    ensures
        r == is_css_space(c),
{
    ('\t' <= c && c <= '\r') || c == ' ' || c == '\u{85}' || c == '\u{A0}' || c == '\u{1680}'
        || ('\u{2000}' <= c && c <= '\u{200A}') || c == '\u{2028}' || c == '\u{2029}'
        || c == '\u{202F}' || c == '\u{205F}' || c == '\u{3000}'
}

/// A character in ASCII lower case.
pub open spec fn ascii_lower(c: char) -> char {
    if 'A' <= c && c <= 'Z' {
        ((c as u8) + 32) as char
    } else {
        c
    }
}

/// The text without its whitespace.
pub open spec fn strip_spaces(s: Seq<char>) -> Seq<char>
    decreases s.len(),
{
    if s.len() == 0 {
        s
    } else if is_css_space(s.last()) {
        strip_spaces(s.drop_last())
    } else {
        strip_spaces(s.drop_last()).push(s.last())
    }
}

/// The text in ASCII lower case.
pub open spec fn lower_text(s: Seq<char>) -> Seq<char> {
    s.map_values(|c: char| ascii_lower(c))
}

/// The text as the grammar sees it: whitespace removed everywhere, letters in lower case.
pub open spec fn normalize(s: Seq<char>) -> Seq<char> {
    lower_text(strip_spaces(s))
}

pub open spec fn is_hex_digit(c: char) -> bool {
    ('0' <= c && c <= '9') || ('a' <= c && c <= 'f')
}

pub open spec fn hex_value(c: char) -> int {
    if c <= '9' {
        c as int - '0' as int
    } else {
        c as int - 'a' as int + 10
    }
}

pub open spec fn all_hex(d: Seq<char>) -> bool {
    forall|i: int| 0 <= i < d.len() ==> is_hex_digit(#[trigger] d[i])
}

/// The digits after `#`: three digits each doubled (`f80` as `ff8800`), or six digits as
/// three bytes.
pub open spec fn hex_color(d: Seq<char>) -> Result<Color, ColorParseError> {
    if d.len() == 3 && all_hex(d) {
        Ok(
            opaque(
                (hex_value(d[0]) * 17) as u8,
                (hex_value(d[1]) * 17) as u8,
                (hex_value(d[2]) * 17) as u8,
            ),
        )
    } else if d.len() == 6 && all_hex(d) {
        Ok(
            opaque(
                (hex_value(d[0]) * 16 + hex_value(d[1])) as u8,
                (hex_value(d[2]) * 16 + hex_value(d[3])) as u8,
                (hex_value(d[4]) * 16 + hex_value(d[5])) as u8,
            ),
        )
    } else {
        Err(ColorParseError)
    }
}

/// The pieces of the text between commas (one piece when there is no comma).
pub open spec fn split_commas(s: Seq<char>) -> Seq<Seq<char>>
    decreases s.len(),
{
    if s.len() == 0 {
        seq![Seq::empty()]
    } else {
        let p = split_commas(s.drop_last());
        if s.last() == ',' {
            p.push(Seq::empty())
        } else {
            p.update(p.len() - 1, p.last().push(s.last()))
        }
    }
}

/// Red, green and blue channels as integers or percentages.
pub open spec fn rgb_color(r: Seq<char>, g: Seq<char>, b: Seq<char>) -> Result<
    Color,
    ColorParseError,
> {
    match (css_byte(r), css_byte(g), css_byte(b)) {
        (Ok(r), Ok(g), Ok(b)) => Ok(opaque(r, g, b)),
        _ => Err(ColorParseError),
    }
}

/// Hue in degrees, saturation and lightness as decimals or percentages.
pub open spec fn hsl_args_color(h: Seq<char>, s: Seq<char>, l: Seq<char>) -> Result<
    Color,
    ColorParseError,
> {
    match (css_hue(h), css_fraction(s), css_fraction(l)) {
        (Ok(h), Ok(s), Ok(l)) => Ok(hsl_color(h as int, s as int, l as int)),
        _ => Err(ColorParseError),
    }
}

/// `c` with its alpha replaced by the argument `a`.
pub open spec fn with_alpha(c: Result<Color, ColorParseError>, a: Seq<char>) -> Result<
    Color,
    ColorParseError,
> {
    match (c, css_fraction(a)) {
        (Ok(c), Ok(a)) => Ok(Color { a, ..c }),
        _ => Err(ColorParseError),
    }
}

/// A function name with its arguments.
pub open spec fn function_color(name: Seq<char>, args: Seq<Seq<char>>) -> Result<
    Color,
    ColorParseError,
> {
    if name == "rgb"@ && args.len() == 3 {
        rgb_color(args[0], args[1], args[2])
    } else if name == "rgba"@ && args.len() == 4 {
        with_alpha(rgb_color(args[0], args[1], args[2]), args[3])
    } else if name == "hsl"@ && args.len() == 3 {
        hsl_args_color(args[0], args[1], args[2])
    } else if name == "hsla"@ && args.len() == 4 {
        with_alpha(hsl_args_color(args[0], args[1], args[2]), args[3])
    } else {
        Err(ColorParseError)
    }
}

/// Functional notation `name(arg,...)`: the name runs up to the first `(`, and the text
/// must end with `)`.
pub open spec fn functional_color(n: Seq<char>) -> Result<Color, ColorParseError> {
    let op = first_index(n, '(');
    if n.len() == 0 || n.last() != ')' || op >= n.len() {
        Err(ColorParseError)
    } else {
        function_color(n.subrange(0, op), split_commas(n.subrange(op + 1, n.len() - 1)))
    }
}

/// The color that the text `s` denotes, or the error: once normalized, the text is looked
/// up as a keyword, then read as hexadecimal after a `#`, then as functional notation.
pub open spec fn css_color(s: Seq<char>) -> Result<Color, ColorParseError> {
    let n = normalize(s);
    if n.len() == 0 {
        Err(ColorParseError)
    } else {
        match keyword_color(n) {
            Some(c) => Ok(c),
            None => if n[0] == '#' {
                hex_color(n.drop_first())
            } else {
                functional_color(n)
            },
        }
    }
}

/// Removes the whitespace of `s` and lowers its ASCII letters.
pub fn normalize_text(s: &str) -> (r: Vec<char>)
    ensures
        r@ == normalize(s@),
{
    let mut r: Vec<char> = Vec::new();
    for c in it: s.chars()
        invariant
            it.seq() == s@,
            r@ == normalize(s@.subrange(0, it.index() as int)),
    {
        let ghost i = it.index() as int;
        proof {
            assert(s@.subrange(0, i + 1).drop_last() =~= s@.subrange(0, i));
            assert(s@[i] == c);
        }
        if !is_space_char(c) {
            let lc = if 'A' <= c && c <= 'Z' {
                ((c as u8) + 32) as char
            } else {
                c
            };
            proof {
                let prev = strip_spaces(s@.subrange(0, i));
                assert(lower_text(prev.push(c)) =~= lower_text(prev).push(lc));
            }
            r.push(lc);
        }
    }
    proof {
        assert(s@.subrange(0, s@.len() as int) =~= s@);
    }
    r
}

fn hex_value_of(c: char) -> (r: Option<u8>)
    ensures
        r is Some <==> is_hex_digit(c),
        r matches Some(v) ==> v == hex_value(c) && v < 16,
{
    if '0' <= c && c <= '9' {
        Some((c as u32 - '0' as u32) as u8)
    } else if 'a' <= c && c <= 'f' {
        Some((c as u32 - 'a' as u32 + 10) as u8)
    } else {
        None
    }
}

/// Reads the hexadecimal digits of `n` after its leading `#`.
fn hex_exec(n: &Vec<char>) -> (r: Result<Color, ColorParseError>)
    requires
        n.len() > 0,
    ensures
        r == hex_color(n@.drop_first()),
{
    let ghost d = n@.drop_first();
    let len = n.len() - 1;
    if len != 3 && len != 6 {
        return Err(ColorParseError);
    }
    let mut vals: Vec<u8> = Vec::new();
    let mut i: usize = 1;
    while i < n.len()
        invariant
            1 <= i <= n.len(),
            d == n@.drop_first(),
            vals.len() == i - 1,
            forall|j: int| 0 <= j < i - 1 ==> is_hex_digit(#[trigger] d[j]),
            forall|j: int| 0 <= j < i - 1 ==> vals@[j] == hex_value(#[trigger] d[j]) && vals@[j] < 16,
        decreases n.len() - i,
    {
        match hex_value_of(n[i]) {
            None => {
                return Err(ColorParseError);
            },
            Some(v) => {
                vals.push(v);
            },
        }
        i += 1;
    }
    assert(all_hex(d));
    if len == 3 {
        Ok(Color { r: vals[0] * 17, g: vals[1] * 17, b: vals[2] * 17, a: UNIT })
    } else {
        Ok(
            Color {
                r: vals[0] * 16 + vals[1],
                g: vals[2] * 16 + vals[3],
                b: vals[4] * 16 + vals[5],
                a: UNIT,
            },
        )
    }
}

proof fn lemma_split_nonempty(s: Seq<char>)
    ensures
        split_commas(s).len() >= 1,
    decreases s.len(),
{
    if s.len() > 0 {
        lemma_split_nonempty(s.drop_last());
    }
}

/// Splits `v` at its commas.
fn split_args(v: &Vec<char>) -> (r: Vec<Vec<char>>)
    ensures
        r.len() == split_commas(v@).len(),
        forall|k: int| 0 <= k < r.len() ==> (#[trigger] r[k])@ == split_commas(v@)[k],
{
    let mut done: Vec<Vec<char>> = Vec::new();
    let mut cur: Vec<char> = Vec::new();
    let mut i: usize = 0;
    while i < v.len()
        invariant
            i <= v.len(),
            split_commas(v@.subrange(0, i as int)).len() == done.len() + 1,
            forall|k: int|
                0 <= k < done.len() ==> (#[trigger] done[k])@ == split_commas(
                    v@.subrange(0, i as int),
                )[k],
            split_commas(v@.subrange(0, i as int))[done.len() as int] == cur@,
        decreases v.len() - i,
    {
        proof {
            assert(v@.subrange(0, i + 1).drop_last() =~= v@.subrange(0, i as int));
            lemma_split_nonempty(v@.subrange(0, i as int));
        }
        if v[i] == ',' {
            done.push(cur);
            cur = Vec::new();
            proof {
                assert(cur@ =~= Seq::<char>::empty());
            }
        } else {
            cur.push(v[i]);
        }
        i += 1;
    }
    proof {
        assert(v@.subrange(0, v.len() as int) =~= v@);
    }
    done.push(cur);
    done
}

/// Reads `rgb` arguments.
fn parse_rgb(r: &Vec<char>, g: &Vec<char>, b: &Vec<char>) -> (c: Result<Color, ColorParseError>)
    ensures
        c == rgb_color(r@, g@, b@),
{
    let r = byte_arg(r)?;
    let g = byte_arg(g)?;
    let b = byte_arg(b)?;
    Ok(Color { r, g, b, a: UNIT })
}

/// Reads `hsl` arguments.
fn parse_hsl(h: &Vec<char>, s: &Vec<char>, l: &Vec<char>) -> (c: Result<Color, ColorParseError>)
    ensures
        c == hsl_args_color(h@, s@, l@),
{
    let h = hue_arg(h)?;
    let s = fraction_arg(s)?;
    let l = fraction_arg(l)?;
    Ok(hsl_to_color(h, s, l))
}

/// Replaces the alpha of a parsed color by the argument `a`.
fn set_alpha(c: Result<Color, ColorParseError>, a: &Vec<char>) -> (r: Result<Color, ColorParseError>)
    ensures
        r == with_alpha(c, a@),
{
    let c = c?;
    let a = fraction_arg(a)?;
    Ok(Color { a, ..c })
}

/// Reads functional notation.
fn functional_exec(n: &Vec<char>) -> (r: Result<Color, ColorParseError>)
    ensures
        r == functional_color(n@),
{
    if n.len() == 0 || n[n.len() - 1] != ')' {
        return Err(ColorParseError);
    }
    let op = find_char(n, '(');
    if op >= n.len() {
        return Err(ColorParseError);
    }
    let name = slice_of(n, 0, op);
    let inner = slice_of(n, op + 1, n.len() - 1);
    let args = split_args(&inner);
    let ghost sp = split_commas(inner@);
    if args.len() == 3 {
        proof {
            assert(args[0]@ == sp[0] && args[1]@ == sp[1] && args[2]@ == sp[2]);
        }
        if same_text(&name, "rgb") {
            return parse_rgb(&args[0], &args[1], &args[2]);
        } else if same_text(&name, "hsl") {
            return parse_hsl(&args[0], &args[1], &args[2]);
        }
    } else if args.len() == 4 {
        proof {
            assert(args[0]@ == sp[0] && args[1]@ == sp[1] && args[2]@ == sp[2] && args[3]@ == sp[3]);
        }
        if same_text(&name, "rgba") {
            return set_alpha(parse_rgb(&args[0], &args[1], &args[2]), &args[3]);
        } else if same_text(&name, "hsla") {
            return set_alpha(parse_hsl(&args[0], &args[1], &args[2]), &args[3]);
        }
    }
    Err(ColorParseError)
}

/// Parses CSS color text: a keyword (`red`, `transparent`), `#rgb`, `#rrggbb`, or
/// `rgb()`, `rgba()`, `hsl()`, `hsla()` with comma-separated arguments. Whitespace is
/// ignored everywhere and letters match in either case.
pub fn parse_color(s: &str) -> (r: Result<Color, ColorParseError>)
    ensures
        r == css_color(s@),
{
    let n = normalize_text(s);
    if n.len() == 0 {
        return Err(ColorParseError);
    }
    match named_color(&n) {
        Some(c) => Ok(c),
        None => if n[0] == '#' {
            hex_exec(&n)
        } else {
            functional_exec(&n)
        },
    }
}

impl Color {
    /// Parses CSS color text; see `parse_color`.
    pub fn parse(s: &str) -> (r: Result<Color, ColorParseError>)
        ensures
            r == css_color(s@),
    {
        parse_color(s)
    }
}

impl std::str::FromStr for Color {
    type Err = ColorParseError;

    fn from_str(s: &str) -> (r: Result<Color, ColorParseError>)
        ensures
            r == css_color(s@),
    {
        parse_color(s)
    }
}

} // verus!
