//! Properties of the parser as a whole, proved over its specification.
use vstd::prelude::*;
use vstd::arithmetic::div_mod::{lemma_div_is_ordered, lemma_fundamental_div_mod, lemma_mod_multiples_vanish};
use crate::color::{Color, ColorParseError, UNIT, opaque};
use crate::named::{keyword_from, keyword_entry, lemma_hash_is_no_keyword, KEYWORD_COUNT};
use crate::number::{css_fraction, decimal_value, has_percent, is_decimal};
use crate::parser::{
    ascii_lower,
    css_color,
    hex_value,
    function_color,
    hsl_args_color,
    is_css_space,
    is_hex_digit,
    lower_text,
    normalize,
    strip_spaces,
};

verus! {

/// A three-digit hexadecimal color equals the six-digit color that doubles each digit, and
/// each channel is its digit times 17, fully opaque. Digits may be in either case.
pub proof fn lemma_short_hex(a: char, b: char, c: char)
    requires
        is_hex_digit(ascii_lower(a)),
        is_hex_digit(ascii_lower(b)),
        is_hex_digit(ascii_lower(c)),
    ensures
        css_color(seq!['#', a, b, c]) == css_color(seq!['#', a, a, b, b, c, c]),
        css_color(seq!['#', a, b, c]) == Ok::<Color, ColorParseError>(
            opaque(
                (hex_value(ascii_lower(a)) * 17) as u8,
                (hex_value(ascii_lower(b)) * 17) as u8,
                (hex_value(ascii_lower(c)) * 17) as u8,
            ),
        ),
{
    let short = seq!['#', a, b, c];
    let long = seq!['#', a, a, b, b, c, c];
    assert(!is_css_space(a) && !is_css_space(b) && !is_css_space(c));
    lemma_no_space_strip(short);
    lemma_no_space_strip(long);
    let ns = normalize(short);
    let nl = normalize(long);
    assert(ns.drop_first() =~= seq![ascii_lower(a), ascii_lower(b), ascii_lower(c)]);
    assert(nl.drop_first() =~= seq![
        ascii_lower(a),
        ascii_lower(a),
        ascii_lower(b),
        ascii_lower(b),
        ascii_lower(c),
        ascii_lower(c),
    ]);
    assert(ns[0] == '#' && nl[0] == '#');
    lemma_hash_is_no_keyword(ns, 0);
    lemma_hash_is_no_keyword(nl, 0);
    let (x, y, z) = (hex_value(ascii_lower(a)), hex_value(ascii_lower(b)), hex_value(ascii_lower(c)));
    assert(x * 16 + x == x * 17 && y * 16 + y == y * 17 && z * 16 + z == z * 17);
}

/// A text without whitespace is left as it is by `strip_spaces`.
proof fn lemma_no_space_strip(s: Seq<char>)
    requires
        forall|i: int| 0 <= i < s.len() ==> !is_css_space(#[trigger] s[i]),
    ensures
        strip_spaces(s) == s,
    decreases s.len(),
{
    if s.len() > 0 {
        lemma_no_space_strip(s.drop_last());
        assert(s.drop_last().push(s.last()) =~= s);
    }
}

/// Hues that differ by whole turns give the same color: `hsl(-120, ...)` is
/// `hsl(240, ...)`, with or without an alpha argument.
pub proof fn lemma_hue_turns(
    h1: Seq<char>,
    h2: Seq<char>,
    s: Seq<char>,
    l: Seq<char>,
    a: Seq<char>,
)
    requires
        is_decimal(h1),
        is_decimal(h2),
        (decimal_value(h1) - decimal_value(h2)) % (360 * UNIT) == 0,
    ensures
        hsl_args_color(h1, s, l) == hsl_args_color(h2, s, l),
        function_color("hsl"@, seq![h1, s, l]) == function_color("hsl"@, seq![h2, s, l]),
        function_color("hsla"@, seq![h1, s, l, a]) == function_color("hsla"@, seq![h2, s, l, a]),
{
    let m = 360 * UNIT as int;
    let k = (decimal_value(h1) - decimal_value(h2)) / m;
    lemma_fundamental_div_mod(decimal_value(h1) - decimal_value(h2), m);
    assert(decimal_value(h1) == m * k + decimal_value(h2));
    lemma_mod_multiples_vanish(k, decimal_value(h2), m);
    assert(hsl_args_color(h1, s, l) == hsl_args_color(h2, s, l));
    reveal_strlit("rgb");
    reveal_strlit("rgba");
    reveal_strlit("hsl");
    reveal_strlit("hsla");
    assert("hsl"@[0] != "rgb"@[0] && "hsla"@[0] != "rgba"@[0]);
    assert("hsla"@.len() != "rgb"@.len() && "hsla"@.len() != "hsl"@.len());
    let (p, q) = (seq![h1, s, l], seq![h2, s, l]);
    assert(p[0] == h1 && p[1] == s && p[2] == l && q[0] == h2 && q[1] == s && q[2] == l);
    let (p4, q4) = (seq![h1, s, l, a], seq![h2, s, l, a]);
    assert(p4[0] == h1 && p4[1] == s && p4[2] == l && p4[3] == a);
    assert(q4[0] == h2 && q4[1] == s && q4[2] == l && q4[3] == a);
}

/// Float-or-percentage arguments keep their order: of two arguments that are both
/// percentages or both plain numbers, the smaller number never gives the larger fraction.
pub proof fn lemma_fraction_monotone(x: Seq<char>, y: Seq<char>)
    requires
        has_percent(x) == has_percent(y),
        css_fraction(x) is Ok,
        css_fraction(y) is Ok,
        has_percent(x) ==> decimal_value(x.drop_last()) <= decimal_value(y.drop_last()),
        !has_percent(x) ==> decimal_value(x) <= decimal_value(y),
    ensures
        css_fraction(x)->Ok_0 <= css_fraction(y)->Ok_0,
{
    if has_percent(x) {
        lemma_div_is_ordered(decimal_value(x.drop_last()), decimal_value(y.drop_last()), 100);
    }
}

/// Whitespace makes no difference: texts that agree once their whitespace is removed parse
/// alike.
pub proof fn lemma_spaces_ignored(s: Seq<char>, t: Seq<char>)
    requires
        strip_spaces(s) == strip_spaces(t),
    ensures
        css_color(s) == css_color(t),
{
}

/// Lowering and stripping commute.
proof fn lemma_lower_strip(s: Seq<char>)
    ensures
        normalize(s) == strip_spaces(lower_text(s)),
    decreases s.len(),
{
    if s.len() > 0 {
        lemma_lower_strip(s.drop_last());
        assert(lower_text(s).drop_last() =~= lower_text(s.drop_last()));
        let c = s.last();
        assert(is_css_space(ascii_lower(c)) == is_css_space(c));
        if !is_css_space(c) {
            assert(lower_text(strip_spaces(s.drop_last()).push(c)) =~= lower_text(
                strip_spaces(s.drop_last()),
            ).push(ascii_lower(c)));
        }
    }
}

/// Letter case makes no difference: texts that agree in ASCII lower case parse alike.
pub proof fn lemma_case_ignored(s: Seq<char>, t: Seq<char>)
    requires
        lower_text(s) == lower_text(t),
    ensures
        css_color(s) == css_color(t),
{
    lemma_lower_strip(s);
    lemma_lower_strip(t);
}

/// Parsing is a function of the text: the same text always gives the same result.
pub proof fn lemma_parse_is_pure(s: Seq<char>, t: Seq<char>)
    requires
        s == t,
    ensures
        css_color(s) == css_color(t),
{
}

proof fn lemma_keyword_alpha(n: Seq<char>, i: int)
    ensures
        keyword_from(n, i) matches Some(c) ==> c.a <= UNIT,
    decreases KEYWORD_COUNT - i,
{
    if 0 <= i < KEYWORD_COUNT {
        assert(keyword_entry(i as usize).1.a <= UNIT);
        lemma_keyword_alpha(n, i + 1);
    }
}

/// Every parsed color has its alpha in [0, 1].
pub proof fn lemma_alpha_in_range(s: Seq<char>)
    ensures
        css_color(s) matches Ok(c) ==> c.a <= UNIT,
{
    lemma_keyword_alpha(normalize(s), 0);
}

} // verus!
