//! The CSS color keywords, `transparent` included.
use vstd::prelude::*;
use crate::color::{Color, UNIT, opaque};
use crate::text::same_text;

verus! {

/// Number of color keywords.
pub const KEYWORD_COUNT: usize = 148;

/// The keyword at `i` of the table and its color (the last for any `i` past the end).
pub open spec fn keyword_entry(i: usize) -> (Seq<char>, Color) {
    match i {
        0 => ("transparent"@, Color { r: 0, g: 0, b: 0, a: 0 }),
        1 => ("aliceblue"@, opaque(240, 248, 255)),
        2 => ("antiquewhite"@, opaque(250, 235, 215)),
        3 => ("aqua"@, opaque(0, 255, 255)),
        4 => ("aquamarine"@, opaque(127, 255, 212)),
        5 => ("azure"@, opaque(240, 255, 255)),
        6 => ("beige"@, opaque(245, 245, 220)),
        7 => ("bisque"@, opaque(255, 228, 196)),
        8 => ("black"@, opaque(0, 0, 0)),
        9 => ("blanchedalmond"@, opaque(255, 235, 205)),
        10 => ("blue"@, opaque(0, 0, 255)),
        11 => ("blueviolet"@, opaque(138, 43, 226)),
        12 => ("brown"@, opaque(165, 42, 42)),
        13 => ("burlywood"@, opaque(222, 184, 135)),
        14 => ("cadetblue"@, opaque(95, 158, 160)),
        15 => ("chartreuse"@, opaque(127, 255, 0)),
        16 => ("chocolate"@, opaque(210, 105, 30)),
        17 => ("coral"@, opaque(255, 127, 80)),
        18 => ("cornflowerblue"@, opaque(100, 149, 237)),
        19 => ("cornsilk"@, opaque(255, 248, 220)),
        20 => ("crimson"@, opaque(220, 20, 60)),
        21 => ("cyan"@, opaque(0, 255, 255)),
        22 => ("darkblue"@, opaque(0, 0, 139)),
        23 => ("darkcyan"@, opaque(0, 139, 139)),
        24 => ("darkgoldenrod"@, opaque(184, 134, 11)),
        25 => ("darkgray"@, opaque(169, 169, 169)),
        26 => ("darkgreen"@, opaque(0, 100, 0)),
        27 => ("darkgrey"@, opaque(169, 169, 169)),
        28 => ("darkkhaki"@, opaque(189, 183, 107)),
        29 => ("darkmagenta"@, opaque(139, 0, 139)),
        30 => ("darkolivegreen"@, opaque(85, 107, 47)),
        31 => ("darkorange"@, opaque(255, 140, 0)),
        32 => ("darkorchid"@, opaque(153, 50, 204)),
        33 => ("darkred"@, opaque(139, 0, 0)),
        34 => ("darksalmon"@, opaque(233, 150, 122)),
        35 => ("darkseagreen"@, opaque(143, 188, 143)),
        36 => ("darkslateblue"@, opaque(72, 61, 139)),
        37 => ("darkslategray"@, opaque(47, 79, 79)),
        38 => ("darkslategrey"@, opaque(47, 79, 79)),
        39 => ("darkturquoise"@, opaque(0, 206, 209)),
        40 => ("darkviolet"@, opaque(148, 0, 211)),
        41 => ("deeppink"@, opaque(255, 20, 147)),
        42 => ("deepskyblue"@, opaque(0, 191, 255)),
        43 => ("dimgray"@, opaque(105, 105, 105)),
        44 => ("dimgrey"@, opaque(105, 105, 105)),
        45 => ("dodgerblue"@, opaque(30, 144, 255)),
        46 => ("firebrick"@, opaque(178, 34, 34)),
        47 => ("floralwhite"@, opaque(255, 250, 240)),
        48 => ("forestgreen"@, opaque(34, 139, 34)),
        49 => ("fuchsia"@, opaque(255, 0, 255)),
        50 => ("gainsboro"@, opaque(220, 220, 220)),
        51 => ("ghostwhite"@, opaque(248, 248, 255)),
        52 => ("gold"@, opaque(255, 215, 0)),
        53 => ("goldenrod"@, opaque(218, 165, 32)),
        54 => ("gray"@, opaque(128, 128, 128)),
        55 => ("green"@, opaque(0, 128, 0)),
        56 => ("greenyellow"@, opaque(173, 255, 47)),
        57 => ("grey"@, opaque(128, 128, 128)),
        58 => ("honeydew"@, opaque(240, 255, 240)),
        59 => ("hotpink"@, opaque(255, 105, 180)),
        60 => ("indianred"@, opaque(205, 92, 92)),
        61 => ("indigo"@, opaque(75, 0, 130)),
        62 => ("ivory"@, opaque(255, 255, 240)),
        63 => ("khaki"@, opaque(240, 230, 140)),
        64 => ("lavender"@, opaque(230, 230, 250)),
        65 => ("lavenderblush"@, opaque(255, 240, 245)),
        66 => ("lawngreen"@, opaque(124, 252, 0)),
        67 => ("lemonchiffon"@, opaque(255, 250, 205)),
        68 => ("lightblue"@, opaque(173, 216, 230)),
        69 => ("lightcoral"@, opaque(240, 128, 128)),
        70 => ("lightcyan"@, opaque(224, 255, 255)),
        71 => ("lightgoldenrodyellow"@, opaque(250, 250, 210)),
        72 => ("lightgray"@, opaque(211, 211, 211)),
        73 => ("lightgreen"@, opaque(144, 238, 144)),
        74 => ("lightgrey"@, opaque(211, 211, 211)),
        75 => ("lightpink"@, opaque(255, 182, 193)),
        76 => ("lightsalmon"@, opaque(255, 160, 122)),
        77 => ("lightseagreen"@, opaque(32, 178, 170)),
        78 => ("lightskyblue"@, opaque(135, 206, 250)),
        79 => ("lightslategray"@, opaque(119, 136, 153)),
        80 => ("lightslategrey"@, opaque(119, 136, 153)),
        81 => ("lightsteelblue"@, opaque(176, 196, 222)),
        82 => ("lightyellow"@, opaque(255, 255, 224)),
        83 => ("lime"@, opaque(0, 255, 0)),
        84 => ("limegreen"@, opaque(50, 205, 50)),
        85 => ("linen"@, opaque(250, 240, 230)),
        86 => ("magenta"@, opaque(255, 0, 255)),
        87 => ("maroon"@, opaque(128, 0, 0)),
        88 => ("mediumaquamarine"@, opaque(102, 205, 170)),
        89 => ("mediumblue"@, opaque(0, 0, 205)),
        90 => ("mediumorchid"@, opaque(186, 85, 211)),
        91 => ("mediumpurple"@, opaque(147, 112, 219)),
        92 => ("mediumseagreen"@, opaque(60, 179, 113)),
        93 => ("mediumslateblue"@, opaque(123, 104, 238)),
        94 => ("mediumspringgreen"@, opaque(0, 250, 154)),
        95 => ("mediumturquoise"@, opaque(72, 209, 204)),
        96 => ("mediumvioletred"@, opaque(199, 21, 133)),
        97 => ("midnightblue"@, opaque(25, 25, 112)),
        98 => ("mintcream"@, opaque(245, 255, 250)),
        99 => ("mistyrose"@, opaque(255, 228, 225)),
        100 => ("moccasin"@, opaque(255, 228, 181)),
        101 => ("navajowhite"@, opaque(255, 222, 173)),
        102 => ("navy"@, opaque(0, 0, 128)),
        103 => ("oldlace"@, opaque(253, 245, 230)),
        104 => ("olive"@, opaque(128, 128, 0)),
        105 => ("olivedrab"@, opaque(107, 142, 35)),
        106 => ("orange"@, opaque(255, 165, 0)),
        107 => ("orangered"@, opaque(255, 69, 0)),
        108 => ("orchid"@, opaque(218, 112, 214)),
        109 => ("palegoldenrod"@, opaque(238, 232, 170)),
        110 => ("palegreen"@, opaque(152, 251, 152)),
        111 => ("paleturquoise"@, opaque(175, 238, 238)),
        112 => ("palevioletred"@, opaque(219, 112, 147)),
        113 => ("papayawhip"@, opaque(255, 239, 213)),
        114 => ("peachpuff"@, opaque(255, 218, 185)),
        115 => ("peru"@, opaque(205, 133, 63)),
        116 => ("pink"@, opaque(255, 192, 203)),
        117 => ("plum"@, opaque(221, 160, 221)),
        118 => ("powderblue"@, opaque(176, 224, 230)),
        119 => ("purple"@, opaque(128, 0, 128)),
        120 => ("red"@, opaque(255, 0, 0)),
        121 => ("rosybrown"@, opaque(188, 143, 143)),
        122 => ("royalblue"@, opaque(65, 105, 225)),
        123 => ("saddlebrown"@, opaque(139, 69, 19)),
        124 => ("salmon"@, opaque(250, 128, 114)),
        125 => ("sandybrown"@, opaque(244, 164, 96)),
        126 => ("seagreen"@, opaque(46, 139, 87)),
        127 => ("seashell"@, opaque(255, 245, 238)),
        128 => ("sienna"@, opaque(160, 82, 45)),
        129 => ("silver"@, opaque(192, 192, 192)),
        130 => ("skyblue"@, opaque(135, 206, 235)),
        131 => ("slateblue"@, opaque(106, 90, 205)),
        132 => ("slategray"@, opaque(112, 128, 144)),
        133 => ("slategrey"@, opaque(112, 128, 144)),
        134 => ("snow"@, opaque(255, 250, 250)),
        135 => ("springgreen"@, opaque(0, 255, 127)),
        136 => ("steelblue"@, opaque(70, 130, 180)),
        137 => ("tan"@, opaque(210, 180, 140)),
        138 => ("teal"@, opaque(0, 128, 128)),
        139 => ("thistle"@, opaque(216, 191, 216)),
        140 => ("tomato"@, opaque(255, 99, 71)),
        141 => ("turquoise"@, opaque(64, 224, 208)),
        142 => ("violet"@, opaque(238, 130, 238)),
        143 => ("wheat"@, opaque(245, 222, 179)),
        144 => ("white"@, opaque(255, 255, 255)),
        145 => ("whitesmoke"@, opaque(245, 245, 245)),
        146 => ("yellow"@, opaque(255, 255, 0)),
        _ => ("yellowgreen"@, opaque(154, 205, 50)),
    }
}

/// The color of the first keyword at `i` or later that equals `n`.
pub open spec fn keyword_from(n: Seq<char>, i: int) -> Option<Color>
    decreases KEYWORD_COUNT - i,
{
    if i < 0 || i >= KEYWORD_COUNT {
        None
    } else if keyword_entry(i as usize).0 == n {
        Some(keyword_entry(i as usize).1)
    } else {
        keyword_from(n, i + 1)
    }
}

/// The color that the keyword `n` names, if it is one.
pub open spec fn keyword_color(n: Seq<char>) -> Option<Color> {
    keyword_from(n, 0)
}

/// Every keyword starts with a letter, so none starts with `#`.
#[verifier::spinoff_prover]
pub proof fn lemma_keywords_start_with_letter(i: usize)
    ensures
        keyword_entry(i).0.len() > 0,
        'a' <= keyword_entry(i).0[0] <= 'z',
{
    reveal_strlit("transparent");
    reveal_strlit("aliceblue");
    reveal_strlit("antiquewhite");
    reveal_strlit("aqua");
    reveal_strlit("aquamarine");
    reveal_strlit("azure");
    reveal_strlit("beige");
    reveal_strlit("bisque");
    reveal_strlit("black");
    reveal_strlit("blanchedalmond");
    reveal_strlit("blue");
    reveal_strlit("blueviolet");
    reveal_strlit("brown");
    reveal_strlit("burlywood");
    reveal_strlit("cadetblue");
    reveal_strlit("chartreuse");
    reveal_strlit("chocolate");
    reveal_strlit("coral");
    reveal_strlit("cornflowerblue");
    reveal_strlit("cornsilk");
    reveal_strlit("crimson");
    reveal_strlit("cyan");
    reveal_strlit("darkblue");
    reveal_strlit("darkcyan");
    reveal_strlit("darkgoldenrod");
    reveal_strlit("darkgray");
    reveal_strlit("darkgreen");
    reveal_strlit("darkgrey");
    reveal_strlit("darkkhaki");
    reveal_strlit("darkmagenta");
    reveal_strlit("darkolivegreen");
    reveal_strlit("darkorange");
    reveal_strlit("darkorchid");
    reveal_strlit("darkred");
    reveal_strlit("darksalmon");
    reveal_strlit("darkseagreen");
    reveal_strlit("darkslateblue");
    reveal_strlit("darkslategray");
    reveal_strlit("darkslategrey");
    reveal_strlit("darkturquoise");
    reveal_strlit("darkviolet");
    reveal_strlit("deeppink");
    reveal_strlit("deepskyblue");
    reveal_strlit("dimgray");
    reveal_strlit("dimgrey");
    reveal_strlit("dodgerblue");
    reveal_strlit("firebrick");
    reveal_strlit("floralwhite");
    reveal_strlit("forestgreen");
    reveal_strlit("fuchsia");
    reveal_strlit("gainsboro");
    reveal_strlit("ghostwhite");
    reveal_strlit("gold");
    reveal_strlit("goldenrod");
    reveal_strlit("gray");
    reveal_strlit("green");
    reveal_strlit("greenyellow");
    reveal_strlit("grey");
    reveal_strlit("honeydew");
    reveal_strlit("hotpink");
    reveal_strlit("indianred");
    reveal_strlit("indigo");
    reveal_strlit("ivory");
    reveal_strlit("khaki");
    reveal_strlit("lavender");
    reveal_strlit("lavenderblush");
    reveal_strlit("lawngreen");
    reveal_strlit("lemonchiffon");
    reveal_strlit("lightblue");
    reveal_strlit("lightcoral");
    reveal_strlit("lightcyan");
    reveal_strlit("lightgoldenrodyellow");
    reveal_strlit("lightgray");
    reveal_strlit("lightgreen");
    reveal_strlit("lightgrey");
    reveal_strlit("lightpink");
    reveal_strlit("lightsalmon");
    reveal_strlit("lightseagreen");
    reveal_strlit("lightskyblue");
    reveal_strlit("lightslategray");
    reveal_strlit("lightslategrey");
    reveal_strlit("lightsteelblue");
    reveal_strlit("lightyellow");
    reveal_strlit("lime");
    reveal_strlit("limegreen");
    reveal_strlit("linen");
    reveal_strlit("magenta");
    reveal_strlit("maroon");
    reveal_strlit("mediumaquamarine");
    reveal_strlit("mediumblue");
    reveal_strlit("mediumorchid");
    reveal_strlit("mediumpurple");
    reveal_strlit("mediumseagreen");
    reveal_strlit("mediumslateblue");
    reveal_strlit("mediumspringgreen");
    reveal_strlit("mediumturquoise");
    reveal_strlit("mediumvioletred");
    reveal_strlit("midnightblue");
    reveal_strlit("mintcream");
    reveal_strlit("mistyrose");
    reveal_strlit("moccasin");
    reveal_strlit("navajowhite");
    reveal_strlit("navy");
    reveal_strlit("oldlace");
    reveal_strlit("olive");
    reveal_strlit("olivedrab");
    reveal_strlit("orange");
    reveal_strlit("orangered");
    reveal_strlit("orchid");
    reveal_strlit("palegoldenrod");
    reveal_strlit("palegreen");
    reveal_strlit("paleturquoise");
    reveal_strlit("palevioletred");
    reveal_strlit("papayawhip");
    reveal_strlit("peachpuff");
    reveal_strlit("peru");
    reveal_strlit("pink");
    reveal_strlit("plum");
    reveal_strlit("powderblue");
    reveal_strlit("purple");
    reveal_strlit("red");
    reveal_strlit("rosybrown");
    reveal_strlit("royalblue");
    reveal_strlit("saddlebrown");
    reveal_strlit("salmon");
    reveal_strlit("sandybrown");
    reveal_strlit("seagreen");
    reveal_strlit("seashell");
    reveal_strlit("sienna");
    reveal_strlit("silver");
    reveal_strlit("skyblue");
    reveal_strlit("slateblue");
    reveal_strlit("slategray");
    reveal_strlit("slategrey");
    reveal_strlit("snow");
    reveal_strlit("springgreen");
    reveal_strlit("steelblue");
    reveal_strlit("tan");
    reveal_strlit("teal");
    reveal_strlit("thistle");
    reveal_strlit("tomato");
    reveal_strlit("turquoise");
    reveal_strlit("violet");
    reveal_strlit("wheat");
    reveal_strlit("white");
    reveal_strlit("whitesmoke");
    reveal_strlit("yellow");
    reveal_strlit("yellowgreen");
}

/// A text that starts with `#` is no keyword.
pub proof fn lemma_hash_is_no_keyword(n: Seq<char>, i: int)
    requires
        n.len() > 0,
        n[0] == '#',
    ensures
        keyword_from(n, i) is None,
    decreases KEYWORD_COUNT - i,
{
    if 0 <= i < KEYWORD_COUNT {
        lemma_keywords_start_with_letter(i as usize);
        lemma_hash_is_no_keyword(n, i + 1);
    }
}

fn keyword_at(i: usize) -> (r: (&'static str, Color))
    ensures
        r.0@ == keyword_entry(i).0,
        r.1 == keyword_entry(i).1,
{
    match i {
        0 => ("transparent", Color { r: 0, g: 0, b: 0, a: 0 }),
        1 => ("aliceblue", Color { r: 240, g: 248, b: 255, a: UNIT }),
        2 => ("antiquewhite", Color { r: 250, g: 235, b: 215, a: UNIT }),
        3 => ("aqua", Color { r: 0, g: 255, b: 255, a: UNIT }),
        4 => ("aquamarine", Color { r: 127, g: 255, b: 212, a: UNIT }),
        5 => ("azure", Color { r: 240, g: 255, b: 255, a: UNIT }),
        6 => ("beige", Color { r: 245, g: 245, b: 220, a: UNIT }),
        7 => ("bisque", Color { r: 255, g: 228, b: 196, a: UNIT }),
        8 => ("black", Color { r: 0, g: 0, b: 0, a: UNIT }),
        9 => ("blanchedalmond", Color { r: 255, g: 235, b: 205, a: UNIT }),
        10 => ("blue", Color { r: 0, g: 0, b: 255, a: UNIT }),
        11 => ("blueviolet", Color { r: 138, g: 43, b: 226, a: UNIT }),
        12 => ("brown", Color { r: 165, g: 42, b: 42, a: UNIT }),
        13 => ("burlywood", Color { r: 222, g: 184, b: 135, a: UNIT }),
        14 => ("cadetblue", Color { r: 95, g: 158, b: 160, a: UNIT }),
        15 => ("chartreuse", Color { r: 127, g: 255, b: 0, a: UNIT }),
        16 => ("chocolate", Color { r: 210, g: 105, b: 30, a: UNIT }),
        17 => ("coral", Color { r: 255, g: 127, b: 80, a: UNIT }),
        18 => ("cornflowerblue", Color { r: 100, g: 149, b: 237, a: UNIT }),
        19 => ("cornsilk", Color { r: 255, g: 248, b: 220, a: UNIT }),
        20 => ("crimson", Color { r: 220, g: 20, b: 60, a: UNIT }),
        21 => ("cyan", Color { r: 0, g: 255, b: 255, a: UNIT }),
        22 => ("darkblue", Color { r: 0, g: 0, b: 139, a: UNIT }),
        23 => ("darkcyan", Color { r: 0, g: 139, b: 139, a: UNIT }),
        24 => ("darkgoldenrod", Color { r: 184, g: 134, b: 11, a: UNIT }),
        25 => ("darkgray", Color { r: 169, g: 169, b: 169, a: UNIT }),
        26 => ("darkgreen", Color { r: 0, g: 100, b: 0, a: UNIT }),
        27 => ("darkgrey", Color { r: 169, g: 169, b: 169, a: UNIT }),
        28 => ("darkkhaki", Color { r: 189, g: 183, b: 107, a: UNIT }),
        29 => ("darkmagenta", Color { r: 139, g: 0, b: 139, a: UNIT }),
        30 => ("darkolivegreen", Color { r: 85, g: 107, b: 47, a: UNIT }),
        31 => ("darkorange", Color { r: 255, g: 140, b: 0, a: UNIT }),
        32 => ("darkorchid", Color { r: 153, g: 50, b: 204, a: UNIT }),
        33 => ("darkred", Color { r: 139, g: 0, b: 0, a: UNIT }),
        34 => ("darksalmon", Color { r: 233, g: 150, b: 122, a: UNIT }),
        35 => ("darkseagreen", Color { r: 143, g: 188, b: 143, a: UNIT }),
        36 => ("darkslateblue", Color { r: 72, g: 61, b: 139, a: UNIT }),
        37 => ("darkslategray", Color { r: 47, g: 79, b: 79, a: UNIT }),
        38 => ("darkslategrey", Color { r: 47, g: 79, b: 79, a: UNIT }),
        39 => ("darkturquoise", Color { r: 0, g: 206, b: 209, a: UNIT }),
        40 => ("darkviolet", Color { r: 148, g: 0, b: 211, a: UNIT }),
        41 => ("deeppink", Color { r: 255, g: 20, b: 147, a: UNIT }),
        42 => ("deepskyblue", Color { r: 0, g: 191, b: 255, a: UNIT }),
        43 => ("dimgray", Color { r: 105, g: 105, b: 105, a: UNIT }),
        44 => ("dimgrey", Color { r: 105, g: 105, b: 105, a: UNIT }),
        45 => ("dodgerblue", Color { r: 30, g: 144, b: 255, a: UNIT }),
        46 => ("firebrick", Color { r: 178, g: 34, b: 34, a: UNIT }),
        47 => ("floralwhite", Color { r: 255, g: 250, b: 240, a: UNIT }),
        48 => ("forestgreen", Color { r: 34, g: 139, b: 34, a: UNIT }),
        49 => ("fuchsia", Color { r: 255, g: 0, b: 255, a: UNIT }),
        50 => ("gainsboro", Color { r: 220, g: 220, b: 220, a: UNIT }),
        51 => ("ghostwhite", Color { r: 248, g: 248, b: 255, a: UNIT }),
        52 => ("gold", Color { r: 255, g: 215, b: 0, a: UNIT }),
        53 => ("goldenrod", Color { r: 218, g: 165, b: 32, a: UNIT }),
        54 => ("gray", Color { r: 128, g: 128, b: 128, a: UNIT }),
        55 => ("green", Color { r: 0, g: 128, b: 0, a: UNIT }),
        56 => ("greenyellow", Color { r: 173, g: 255, b: 47, a: UNIT }),
        57 => ("grey", Color { r: 128, g: 128, b: 128, a: UNIT }),
        58 => ("honeydew", Color { r: 240, g: 255, b: 240, a: UNIT }),
        59 => ("hotpink", Color { r: 255, g: 105, b: 180, a: UNIT }),
        60 => ("indianred", Color { r: 205, g: 92, b: 92, a: UNIT }),
        61 => ("indigo", Color { r: 75, g: 0, b: 130, a: UNIT }),
        62 => ("ivory", Color { r: 255, g: 255, b: 240, a: UNIT }),
        63 => ("khaki", Color { r: 240, g: 230, b: 140, a: UNIT }),
        64 => ("lavender", Color { r: 230, g: 230, b: 250, a: UNIT }),
        65 => ("lavenderblush", Color { r: 255, g: 240, b: 245, a: UNIT }),
        66 => ("lawngreen", Color { r: 124, g: 252, b: 0, a: UNIT }),
        67 => ("lemonchiffon", Color { r: 255, g: 250, b: 205, a: UNIT }),
        68 => ("lightblue", Color { r: 173, g: 216, b: 230, a: UNIT }),
        69 => ("lightcoral", Color { r: 240, g: 128, b: 128, a: UNIT }),
        70 => ("lightcyan", Color { r: 224, g: 255, b: 255, a: UNIT }),
        71 => ("lightgoldenrodyellow", Color { r: 250, g: 250, b: 210, a: UNIT }),
        72 => ("lightgray", Color { r: 211, g: 211, b: 211, a: UNIT }),
        73 => ("lightgreen", Color { r: 144, g: 238, b: 144, a: UNIT }),
        74 => ("lightgrey", Color { r: 211, g: 211, b: 211, a: UNIT }),
        75 => ("lightpink", Color { r: 255, g: 182, b: 193, a: UNIT }),
        76 => ("lightsalmon", Color { r: 255, g: 160, b: 122, a: UNIT }),
        77 => ("lightseagreen", Color { r: 32, g: 178, b: 170, a: UNIT }),
        78 => ("lightskyblue", Color { r: 135, g: 206, b: 250, a: UNIT }),
        79 => ("lightslategray", Color { r: 119, g: 136, b: 153, a: UNIT }),
        80 => ("lightslategrey", Color { r: 119, g: 136, b: 153, a: UNIT }),
        81 => ("lightsteelblue", Color { r: 176, g: 196, b: 222, a: UNIT }),
        82 => ("lightyellow", Color { r: 255, g: 255, b: 224, a: UNIT }),
        83 => ("lime", Color { r: 0, g: 255, b: 0, a: UNIT }),
        84 => ("limegreen", Color { r: 50, g: 205, b: 50, a: UNIT }),
        85 => ("linen", Color { r: 250, g: 240, b: 230, a: UNIT }),
        86 => ("magenta", Color { r: 255, g: 0, b: 255, a: UNIT }),
        87 => ("maroon", Color { r: 128, g: 0, b: 0, a: UNIT }),
        88 => ("mediumaquamarine", Color { r: 102, g: 205, b: 170, a: UNIT }),
        89 => ("mediumblue", Color { r: 0, g: 0, b: 205, a: UNIT }),
        90 => ("mediumorchid", Color { r: 186, g: 85, b: 211, a: UNIT }),
        91 => ("mediumpurple", Color { r: 147, g: 112, b: 219, a: UNIT }),
        92 => ("mediumseagreen", Color { r: 60, g: 179, b: 113, a: UNIT }),
        93 => ("mediumslateblue", Color { r: 123, g: 104, b: 238, a: UNIT }),
        94 => ("mediumspringgreen", Color { r: 0, g: 250, b: 154, a: UNIT }),
        95 => ("mediumturquoise", Color { r: 72, g: 209, b: 204, a: UNIT }),
        96 => ("mediumvioletred", Color { r: 199, g: 21, b: 133, a: UNIT }),
        97 => ("midnightblue", Color { r: 25, g: 25, b: 112, a: UNIT }),
        98 => ("mintcream", Color { r: 245, g: 255, b: 250, a: UNIT }),
        99 => ("mistyrose", Color { r: 255, g: 228, b: 225, a: UNIT }),
        100 => ("moccasin", Color { r: 255, g: 228, b: 181, a: UNIT }),
        101 => ("navajowhite", Color { r: 255, g: 222, b: 173, a: UNIT }),
        102 => ("navy", Color { r: 0, g: 0, b: 128, a: UNIT }),
        103 => ("oldlace", Color { r: 253, g: 245, b: 230, a: UNIT }),
        104 => ("olive", Color { r: 128, g: 128, b: 0, a: UNIT }),
        105 => ("olivedrab", Color { r: 107, g: 142, b: 35, a: UNIT }),
        106 => ("orange", Color { r: 255, g: 165, b: 0, a: UNIT }),
        107 => ("orangered", Color { r: 255, g: 69, b: 0, a: UNIT }),
        108 => ("orchid", Color { r: 218, g: 112, b: 214, a: UNIT }),
        109 => ("palegoldenrod", Color { r: 238, g: 232, b: 170, a: UNIT }),
        110 => ("palegreen", Color { r: 152, g: 251, b: 152, a: UNIT }),
        111 => ("paleturquoise", Color { r: 175, g: 238, b: 238, a: UNIT }),
        112 => ("palevioletred", Color { r: 219, g: 112, b: 147, a: UNIT }),
        113 => ("papayawhip", Color { r: 255, g: 239, b: 213, a: UNIT }),
        114 => ("peachpuff", Color { r: 255, g: 218, b: 185, a: UNIT }),
        115 => ("peru", Color { r: 205, g: 133, b: 63, a: UNIT }),
        116 => ("pink", Color { r: 255, g: 192, b: 203, a: UNIT }),
        117 => ("plum", Color { r: 221, g: 160, b: 221, a: UNIT }),
        118 => ("powderblue", Color { r: 176, g: 224, b: 230, a: UNIT }),
        119 => ("purple", Color { r: 128, g: 0, b: 128, a: UNIT }),
        120 => ("red", Color { r: 255, g: 0, b: 0, a: UNIT }),
        121 => ("rosybrown", Color { r: 188, g: 143, b: 143, a: UNIT }),
        122 => ("royalblue", Color { r: 65, g: 105, b: 225, a: UNIT }),
        123 => ("saddlebrown", Color { r: 139, g: 69, b: 19, a: UNIT }),
        124 => ("salmon", Color { r: 250, g: 128, b: 114, a: UNIT }),
        125 => ("sandybrown", Color { r: 244, g: 164, b: 96, a: UNIT }),
        126 => ("seagreen", Color { r: 46, g: 139, b: 87, a: UNIT }),
        127 => ("seashell", Color { r: 255, g: 245, b: 238, a: UNIT }),
        128 => ("sienna", Color { r: 160, g: 82, b: 45, a: UNIT }),
        129 => ("silver", Color { r: 192, g: 192, b: 192, a: UNIT }),
        130 => ("skyblue", Color { r: 135, g: 206, b: 235, a: UNIT }),
        131 => ("slateblue", Color { r: 106, g: 90, b: 205, a: UNIT }),
        132 => ("slategray", Color { r: 112, g: 128, b: 144, a: UNIT }),
        133 => ("slategrey", Color { r: 112, g: 128, b: 144, a: UNIT }),
        134 => ("snow", Color { r: 255, g: 250, b: 250, a: UNIT }),
        135 => ("springgreen", Color { r: 0, g: 255, b: 127, a: UNIT }),
        136 => ("steelblue", Color { r: 70, g: 130, b: 180, a: UNIT }),
        137 => ("tan", Color { r: 210, g: 180, b: 140, a: UNIT }),
        138 => ("teal", Color { r: 0, g: 128, b: 128, a: UNIT }),
        139 => ("thistle", Color { r: 216, g: 191, b: 216, a: UNIT }),
        140 => ("tomato", Color { r: 255, g: 99, b: 71, a: UNIT }),
        141 => ("turquoise", Color { r: 64, g: 224, b: 208, a: UNIT }),
        142 => ("violet", Color { r: 238, g: 130, b: 238, a: UNIT }),
        143 => ("wheat", Color { r: 245, g: 222, b: 179, a: UNIT }),
        144 => ("white", Color { r: 255, g: 255, b: 255, a: UNIT }),
        145 => ("whitesmoke", Color { r: 245, g: 245, b: 245, a: UNIT }),
        146 => ("yellow", Color { r: 255, g: 255, b: 0, a: UNIT }),
        _ => ("yellowgreen", Color { r: 154, g: 205, b: 50, a: UNIT }),
    }
}

/// Looks up a keyword; `n` must already be in lower case.
pub fn named_color(n: &Vec<char>) -> (r: Option<Color>)
    ensures
        r == keyword_color(n@),
{
    let mut i: usize = 0;
    while i < KEYWORD_COUNT
        invariant
            i <= KEYWORD_COUNT,
            keyword_from(n@, 0) == keyword_from(n@, i as int),
        decreases KEYWORD_COUNT - i,
    {
        let (name, color) = keyword_at(i);
        if same_text(n, name) {
            return Some(color);
        }
        i += 1;
    }
    None
}

} // verus!
