//! The standard W3C/X11 named-color set the palette can be loaded with:
//! the full table stands both as a specification-level sequence and as the
//! executable table pinned to it, so palette contracts can speak of exactly
//! which names the set registers.

use crate::color::Rgba;
use vstd::prelude::*;

verus! {

/// Every named color of the set, in registration order.
pub open spec fn named_colors() -> Seq<(&'static str, Rgba)> {
    part_colors_1() + part_colors_2() + part_colors_3() + part_colors_4() + part_colors_5() + part_colors_6() + part_colors_7() + part_colors_8() + part_colors_9() + part_colors_10() + part_colors_11() + part_colors_12() + part_colors_13() + part_colors_14()
}

/// Every named color of the set, in registration order.
pub fn named_color_table() -> (t: Vec<(&'static str, Rgba)>)
    ensures
        t@ == named_colors(),
{
    let mut t: Vec<(&'static str, Rgba)> = Vec::new();
    push_part_1(&mut t);
    push_part_2(&mut t);
    push_part_3(&mut t);
    push_part_4(&mut t);
    push_part_5(&mut t);
    push_part_6(&mut t);
    push_part_7(&mut t);
    push_part_8(&mut t);
    push_part_9(&mut t);
    push_part_10(&mut t);
    push_part_11(&mut t);
    push_part_12(&mut t);
    push_part_13(&mut t);
    push_part_14(&mut t);
    proof {
        assert(t@ =~= named_colors());
    }
    t
}

pub open spec fn part_colors_1() -> Seq<(&'static str, Rgba)> {
    seq![
        ("snow", Rgba { r: 255, g: 250, b: 250, a: 255 }),
        ("ghost_white", Rgba { r: 248, g: 248, b: 255, a: 255 }),
        ("ghostwhite", Rgba { r: 248, g: 248, b: 255, a: 255 }),
        ("white_smoke", Rgba { r: 245, g: 245, b: 245, a: 255 }),
        ("whitesmoke", Rgba { r: 245, g: 245, b: 245, a: 255 }),
        ("gainsboro", Rgba { r: 220, g: 220, b: 220, a: 255 }),
        ("floral_white", Rgba { r: 255, g: 250, b: 240, a: 255 }),
        ("floralwhite", Rgba { r: 255, g: 250, b: 240, a: 255 }),
        ("old_lace", Rgba { r: 253, g: 245, b: 230, a: 255 }),
        ("oldlace", Rgba { r: 253, g: 245, b: 230, a: 255 }),
        ("linen", Rgba { r: 250, g: 240, b: 230, a: 255 }),
        ("antique_white", Rgba { r: 250, g: 235, b: 215, a: 255 }),
        ("antiquewhite", Rgba { r: 250, g: 235, b: 215, a: 255 }),
        ("papaya_whip", Rgba { r: 255, g: 239, b: 213, a: 255 }),
        ("papayawhip", Rgba { r: 255, g: 239, b: 213, a: 255 }),
        ("blanched_almond", Rgba { r: 255, g: 235, b: 205, a: 255 }),
        ("blanchedalmond", Rgba { r: 255, g: 235, b: 205, a: 255 }),
        ("bisque", Rgba { r: 255, g: 228, b: 196, a: 255 }),
        ("peach_puff", Rgba { r: 255, g: 218, b: 185, a: 255 }),
        ("peachpuff", Rgba { r: 255, g: 218, b: 185, a: 255 }),
        ("navajo_white", Rgba { r: 255, g: 222, b: 173, a: 255 }),
        ("navajowhite", Rgba { r: 255, g: 222, b: 173, a: 255 }),
        ("moccasin", Rgba { r: 255, g: 228, b: 181, a: 255 }),
        ("cornsilk", Rgba { r: 255, g: 248, b: 220, a: 255 }),
        ("ivory", Rgba { r: 255, g: 255, b: 240, a: 255 }),
        ("lemon_chiffon", Rgba { r: 255, g: 250, b: 205, a: 255 }),
        ("lemonchiffon", Rgba { r: 255, g: 250, b: 205, a: 255 }),
        ("seashell", Rgba { r: 255, g: 245, b: 238, a: 255 }),
        ("honeydew", Rgba { r: 240, g: 255, b: 240, a: 255 }),
        ("mint_cream", Rgba { r: 245, g: 255, b: 250, a: 255 }),
        ("mintcream", Rgba { r: 245, g: 255, b: 250, a: 255 }),
        ("azure", Rgba { r: 240, g: 255, b: 255, a: 255 }),
        ("alice_blue", Rgba { r: 240, g: 248, b: 255, a: 255 }),
        ("aliceblue", Rgba { r: 240, g: 248, b: 255, a: 255 }),
        ("lavender", Rgba { r: 230, g: 230, b: 250, a: 255 }),
        ("lavender_blush", Rgba { r: 255, g: 240, b: 245, a: 255 }),
        ("lavenderblush", Rgba { r: 255, g: 240, b: 245, a: 255 }),
        ("misty_rose", Rgba { r: 255, g: 228, b: 225, a: 255 }),
        ("mistyrose", Rgba { r: 255, g: 228, b: 225, a: 255 }),
        ("white", Rgba { r: 255, g: 255, b: 255, a: 255 }),
        ("black", Rgba { r: 0, g: 0, b: 0, a: 255 }),
        ("dark_slate", Rgba { r: 47, g: 79, b: 79, a: 255 }),
        ("darkslategray", Rgba { r: 47, g: 79, b: 79, a: 255 }),
        ("darkslategrey", Rgba { r: 47, g: 79, b: 79, a: 255 }),
        ("dim_gray", Rgba { r: 105, g: 105, b: 105, a: 255 }),
        ("dimgray", Rgba { r: 105, g: 105, b: 105, a: 255 }),
        ("dim_grey", Rgba { r: 105, g: 105, b: 105, a: 255 }),
        ("dimgrey", Rgba { r: 105, g: 105, b: 105, a: 255 }),
        ("slate_gray", Rgba { r: 112, g: 128, b: 144, a: 255 }),
        ("slategray", Rgba { r: 112, g: 128, b: 144, a: 255 }),
        ("slate_grey", Rgba { r: 112, g: 128, b: 144, a: 255 }),
        ("slategrey", Rgba { r: 112, g: 128, b: 144, a: 255 }),
        ("light_slate", Rgba { r: 119, g: 136, b: 153, a: 255 }),
        ("lightslategray", Rgba { r: 119, g: 136, b: 153, a: 255 }),
        ("lightslategrey", Rgba { r: 119, g: 136, b: 153, a: 255 }),
        ("gray", Rgba { r: 190, g: 190, b: 190, a: 255 }),
    ]
}

fn push_part_1(t: &mut Vec<(&'static str, Rgba)>)
    ensures
        final(t)@ == old(t)@ + part_colors_1(),
{
    t.push(("snow", Rgba { r: 255, g: 250, b: 250, a: 255 }));
    t.push(("ghost_white", Rgba { r: 248, g: 248, b: 255, a: 255 }));
    t.push(("ghostwhite", Rgba { r: 248, g: 248, b: 255, a: 255 }));
    t.push(("white_smoke", Rgba { r: 245, g: 245, b: 245, a: 255 }));
    t.push(("whitesmoke", Rgba { r: 245, g: 245, b: 245, a: 255 }));
    t.push(("gainsboro", Rgba { r: 220, g: 220, b: 220, a: 255 }));
    t.push(("floral_white", Rgba { r: 255, g: 250, b: 240, a: 255 }));
    t.push(("floralwhite", Rgba { r: 255, g: 250, b: 240, a: 255 }));
    t.push(("old_lace", Rgba { r: 253, g: 245, b: 230, a: 255 }));
    t.push(("oldlace", Rgba { r: 253, g: 245, b: 230, a: 255 }));
    t.push(("linen", Rgba { r: 250, g: 240, b: 230, a: 255 }));
    t.push(("antique_white", Rgba { r: 250, g: 235, b: 215, a: 255 }));
    t.push(("antiquewhite", Rgba { r: 250, g: 235, b: 215, a: 255 }));
    t.push(("papaya_whip", Rgba { r: 255, g: 239, b: 213, a: 255 }));
    t.push(("papayawhip", Rgba { r: 255, g: 239, b: 213, a: 255 }));
    t.push(("blanched_almond", Rgba { r: 255, g: 235, b: 205, a: 255 }));
    t.push(("blanchedalmond", Rgba { r: 255, g: 235, b: 205, a: 255 }));
    t.push(("bisque", Rgba { r: 255, g: 228, b: 196, a: 255 }));
    t.push(("peach_puff", Rgba { r: 255, g: 218, b: 185, a: 255 }));
    t.push(("peachpuff", Rgba { r: 255, g: 218, b: 185, a: 255 }));
    t.push(("navajo_white", Rgba { r: 255, g: 222, b: 173, a: 255 }));
    t.push(("navajowhite", Rgba { r: 255, g: 222, b: 173, a: 255 }));
    t.push(("moccasin", Rgba { r: 255, g: 228, b: 181, a: 255 }));
    t.push(("cornsilk", Rgba { r: 255, g: 248, b: 220, a: 255 }));
    t.push(("ivory", Rgba { r: 255, g: 255, b: 240, a: 255 }));
    t.push(("lemon_chiffon", Rgba { r: 255, g: 250, b: 205, a: 255 }));
    t.push(("lemonchiffon", Rgba { r: 255, g: 250, b: 205, a: 255 }));
    t.push(("seashell", Rgba { r: 255, g: 245, b: 238, a: 255 }));
    t.push(("honeydew", Rgba { r: 240, g: 255, b: 240, a: 255 }));
    t.push(("mint_cream", Rgba { r: 245, g: 255, b: 250, a: 255 }));
    t.push(("mintcream", Rgba { r: 245, g: 255, b: 250, a: 255 }));
    t.push(("azure", Rgba { r: 240, g: 255, b: 255, a: 255 }));
    t.push(("alice_blue", Rgba { r: 240, g: 248, b: 255, a: 255 }));
    t.push(("aliceblue", Rgba { r: 240, g: 248, b: 255, a: 255 }));
    t.push(("lavender", Rgba { r: 230, g: 230, b: 250, a: 255 }));
    t.push(("lavender_blush", Rgba { r: 255, g: 240, b: 245, a: 255 }));
    t.push(("lavenderblush", Rgba { r: 255, g: 240, b: 245, a: 255 }));
    t.push(("misty_rose", Rgba { r: 255, g: 228, b: 225, a: 255 }));
    t.push(("mistyrose", Rgba { r: 255, g: 228, b: 225, a: 255 }));
    t.push(("white", Rgba { r: 255, g: 255, b: 255, a: 255 }));
    t.push(("black", Rgba { r: 0, g: 0, b: 0, a: 255 }));
    t.push(("dark_slate", Rgba { r: 47, g: 79, b: 79, a: 255 }));
    t.push(("darkslategray", Rgba { r: 47, g: 79, b: 79, a: 255 }));
    t.push(("darkslategrey", Rgba { r: 47, g: 79, b: 79, a: 255 }));
    t.push(("dim_gray", Rgba { r: 105, g: 105, b: 105, a: 255 }));
    t.push(("dimgray", Rgba { r: 105, g: 105, b: 105, a: 255 }));
    t.push(("dim_grey", Rgba { r: 105, g: 105, b: 105, a: 255 }));
    t.push(("dimgrey", Rgba { r: 105, g: 105, b: 105, a: 255 }));
    t.push(("slate_gray", Rgba { r: 112, g: 128, b: 144, a: 255 }));
    t.push(("slategray", Rgba { r: 112, g: 128, b: 144, a: 255 }));
    t.push(("slate_grey", Rgba { r: 112, g: 128, b: 144, a: 255 }));
    t.push(("slategrey", Rgba { r: 112, g: 128, b: 144, a: 255 }));
    t.push(("light_slate", Rgba { r: 119, g: 136, b: 153, a: 255 }));
    t.push(("lightslategray", Rgba { r: 119, g: 136, b: 153, a: 255 }));
    t.push(("lightslategrey", Rgba { r: 119, g: 136, b: 153, a: 255 }));
    t.push(("gray", Rgba { r: 190, g: 190, b: 190, a: 255 }));
    proof {
        assert(t@ =~= old(t)@ + part_colors_1());
    }
}

pub open spec fn part_colors_2() -> Seq<(&'static str, Rgba)> {
    seq![
        ("grey", Rgba { r: 190, g: 190, b: 190, a: 255 }),
        ("x11_gray", Rgba { r: 190, g: 190, b: 190, a: 255 }),
        ("x11gray", Rgba { r: 190, g: 190, b: 190, a: 255 }),
        ("x11_grey", Rgba { r: 190, g: 190, b: 190, a: 255 }),
        ("x11grey", Rgba { r: 190, g: 190, b: 190, a: 255 }),
        ("web_gray", Rgba { r: 128, g: 128, b: 128, a: 255 }),
        ("webgray", Rgba { r: 128, g: 128, b: 128, a: 255 }),
        ("web_grey", Rgba { r: 128, g: 128, b: 128, a: 255 }),
        ("webgrey", Rgba { r: 128, g: 128, b: 128, a: 255 }),
        ("light_grey", Rgba { r: 211, g: 211, b: 211, a: 255 }),
        ("lightgrey", Rgba { r: 211, g: 211, b: 211, a: 255 }),
        ("light_gray", Rgba { r: 211, g: 211, b: 211, a: 255 }),
        ("lightgray", Rgba { r: 211, g: 211, b: 211, a: 255 }),
        ("midnight_blue", Rgba { r: 25, g: 25, b: 112, a: 255 }),
        ("midnightblue", Rgba { r: 25, g: 25, b: 112, a: 255 }),
        ("navy", Rgba { r: 0, g: 0, b: 128, a: 255 }),
        ("navy_blue", Rgba { r: 0, g: 0, b: 128, a: 255 }),
        ("navyblue", Rgba { r: 0, g: 0, b: 128, a: 255 }),
        ("cornflower_blue", Rgba { r: 100, g: 149, b: 237, a: 255 }),
        ("cornflowerblue", Rgba { r: 100, g: 149, b: 237, a: 255 }),
        ("darkslateblue", Rgba { r: 72, g: 61, b: 139, a: 255 }),
        ("slate_blue", Rgba { r: 106, g: 90, b: 205, a: 255 }),
        ("slateblue", Rgba { r: 106, g: 90, b: 205, a: 255 }),
        ("medium_slate", Rgba { r: 123, g: 104, b: 238, a: 255 }),
        ("mediumslateblue", Rgba { r: 123, g: 104, b: 238, a: 255 }),
        ("lightslateblue", Rgba { r: 132, g: 112, b: 255, a: 255 }),
        ("medium_blue", Rgba { r: 0, g: 0, b: 205, a: 255 }),
        ("mediumblue", Rgba { r: 0, g: 0, b: 205, a: 255 }),
        ("royal_blue", Rgba { r: 65, g: 105, b: 225, a: 255 }),
        ("royalblue", Rgba { r: 65, g: 105, b: 225, a: 255 }),
        ("blue", Rgba { r: 0, g: 0, b: 255, a: 255 }),
        ("dodger_blue", Rgba { r: 30, g: 144, b: 255, a: 255 }),
        ("dodgerblue", Rgba { r: 30, g: 144, b: 255, a: 255 }),
        ("deep_sky", Rgba { r: 0, g: 191, b: 255, a: 255 }),
        ("deepskyblue", Rgba { r: 0, g: 191, b: 255, a: 255 }),
        ("sky_blue", Rgba { r: 135, g: 206, b: 235, a: 255 }),
        ("skyblue", Rgba { r: 135, g: 206, b: 235, a: 255 }),
        ("light_sky", Rgba { r: 135, g: 206, b: 250, a: 255 }),
        ("lightskyblue", Rgba { r: 135, g: 206, b: 250, a: 255 }),
        ("steel_blue", Rgba { r: 70, g: 130, b: 180, a: 255 }),
        ("steelblue", Rgba { r: 70, g: 130, b: 180, a: 255 }),
        ("light_steel", Rgba { r: 176, g: 196, b: 222, a: 255 }),
        ("lightsteelblue", Rgba { r: 176, g: 196, b: 222, a: 255 }),
        ("light_blue", Rgba { r: 173, g: 216, b: 230, a: 255 }),
        ("lightblue", Rgba { r: 173, g: 216, b: 230, a: 255 }),
        ("powder_blue", Rgba { r: 176, g: 224, b: 230, a: 255 }),
        ("powderblue", Rgba { r: 176, g: 224, b: 230, a: 255 }),
        ("pale_turquoise", Rgba { r: 175, g: 238, b: 238, a: 255 }),
        ("paleturquoise", Rgba { r: 175, g: 238, b: 238, a: 255 }),
        ("dark_turquoise", Rgba { r: 0, g: 206, b: 209, a: 255 }),
        ("darkturquoise", Rgba { r: 0, g: 206, b: 209, a: 255 }),
        ("medium_turquoise", Rgba { r: 72, g: 209, b: 204, a: 255 }),
        ("mediumturquoise", Rgba { r: 72, g: 209, b: 204, a: 255 }),
        ("turquoise", Rgba { r: 64, g: 224, b: 208, a: 255 }),
        ("cyan", Rgba { r: 0, g: 255, b: 255, a: 255 }),
        ("aqua", Rgba { r: 0, g: 255, b: 255, a: 255 }),
    ]
}

fn push_part_2(t: &mut Vec<(&'static str, Rgba)>)
    ensures
        final(t)@ == old(t)@ + part_colors_2(),
{
    t.push(("grey", Rgba { r: 190, g: 190, b: 190, a: 255 }));
    t.push(("x11_gray", Rgba { r: 190, g: 190, b: 190, a: 255 }));
    t.push(("x11gray", Rgba { r: 190, g: 190, b: 190, a: 255 }));
    t.push(("x11_grey", Rgba { r: 190, g: 190, b: 190, a: 255 }));
    t.push(("x11grey", Rgba { r: 190, g: 190, b: 190, a: 255 }));
    t.push(("web_gray", Rgba { r: 128, g: 128, b: 128, a: 255 }));
    t.push(("webgray", Rgba { r: 128, g: 128, b: 128, a: 255 }));
    t.push(("web_grey", Rgba { r: 128, g: 128, b: 128, a: 255 }));
    t.push(("webgrey", Rgba { r: 128, g: 128, b: 128, a: 255 }));
    t.push(("light_grey", Rgba { r: 211, g: 211, b: 211, a: 255 }));
    t.push(("lightgrey", Rgba { r: 211, g: 211, b: 211, a: 255 }));
    t.push(("light_gray", Rgba { r: 211, g: 211, b: 211, a: 255 }));
    t.push(("lightgray", Rgba { r: 211, g: 211, b: 211, a: 255 }));
    t.push(("midnight_blue", Rgba { r: 25, g: 25, b: 112, a: 255 }));
    t.push(("midnightblue", Rgba { r: 25, g: 25, b: 112, a: 255 }));
    t.push(("navy", Rgba { r: 0, g: 0, b: 128, a: 255 }));
    t.push(("navy_blue", Rgba { r: 0, g: 0, b: 128, a: 255 }));
    t.push(("navyblue", Rgba { r: 0, g: 0, b: 128, a: 255 }));
    t.push(("cornflower_blue", Rgba { r: 100, g: 149, b: 237, a: 255 }));
    t.push(("cornflowerblue", Rgba { r: 100, g: 149, b: 237, a: 255 }));
    t.push(("darkslateblue", Rgba { r: 72, g: 61, b: 139, a: 255 }));
    t.push(("slate_blue", Rgba { r: 106, g: 90, b: 205, a: 255 }));
    t.push(("slateblue", Rgba { r: 106, g: 90, b: 205, a: 255 }));
    t.push(("medium_slate", Rgba { r: 123, g: 104, b: 238, a: 255 }));
    t.push(("mediumslateblue", Rgba { r: 123, g: 104, b: 238, a: 255 }));
    t.push(("lightslateblue", Rgba { r: 132, g: 112, b: 255, a: 255 }));
    t.push(("medium_blue", Rgba { r: 0, g: 0, b: 205, a: 255 }));
    t.push(("mediumblue", Rgba { r: 0, g: 0, b: 205, a: 255 }));
    t.push(("royal_blue", Rgba { r: 65, g: 105, b: 225, a: 255 }));
    t.push(("royalblue", Rgba { r: 65, g: 105, b: 225, a: 255 }));
    t.push(("blue", Rgba { r: 0, g: 0, b: 255, a: 255 }));
    t.push(("dodger_blue", Rgba { r: 30, g: 144, b: 255, a: 255 }));
    t.push(("dodgerblue", Rgba { r: 30, g: 144, b: 255, a: 255 }));
    t.push(("deep_sky", Rgba { r: 0, g: 191, b: 255, a: 255 }));
    t.push(("deepskyblue", Rgba { r: 0, g: 191, b: 255, a: 255 }));
    t.push(("sky_blue", Rgba { r: 135, g: 206, b: 235, a: 255 }));
    t.push(("skyblue", Rgba { r: 135, g: 206, b: 235, a: 255 }));
    t.push(("light_sky", Rgba { r: 135, g: 206, b: 250, a: 255 }));
    t.push(("lightskyblue", Rgba { r: 135, g: 206, b: 250, a: 255 }));
    t.push(("steel_blue", Rgba { r: 70, g: 130, b: 180, a: 255 }));
    t.push(("steelblue", Rgba { r: 70, g: 130, b: 180, a: 255 }));
    t.push(("light_steel", Rgba { r: 176, g: 196, b: 222, a: 255 }));
    t.push(("lightsteelblue", Rgba { r: 176, g: 196, b: 222, a: 255 }));
    t.push(("light_blue", Rgba { r: 173, g: 216, b: 230, a: 255 }));
    t.push(("lightblue", Rgba { r: 173, g: 216, b: 230, a: 255 }));
    t.push(("powder_blue", Rgba { r: 176, g: 224, b: 230, a: 255 }));
    t.push(("powderblue", Rgba { r: 176, g: 224, b: 230, a: 255 }));
    t.push(("pale_turquoise", Rgba { r: 175, g: 238, b: 238, a: 255 }));
    t.push(("paleturquoise", Rgba { r: 175, g: 238, b: 238, a: 255 }));
    t.push(("dark_turquoise", Rgba { r: 0, g: 206, b: 209, a: 255 }));
    t.push(("darkturquoise", Rgba { r: 0, g: 206, b: 209, a: 255 }));
    t.push(("medium_turquoise", Rgba { r: 72, g: 209, b: 204, a: 255 }));
    t.push(("mediumturquoise", Rgba { r: 72, g: 209, b: 204, a: 255 }));
    t.push(("turquoise", Rgba { r: 64, g: 224, b: 208, a: 255 }));
    t.push(("cyan", Rgba { r: 0, g: 255, b: 255, a: 255 }));
    t.push(("aqua", Rgba { r: 0, g: 255, b: 255, a: 255 }));
    proof {
        assert(t@ =~= old(t)@ + part_colors_2());
    }
}

pub open spec fn part_colors_3() -> Seq<(&'static str, Rgba)> {
    seq![
        ("light_cyan", Rgba { r: 224, g: 255, b: 255, a: 255 }),
        ("lightcyan", Rgba { r: 224, g: 255, b: 255, a: 255 }),
        ("cadet_blue", Rgba { r: 95, g: 158, b: 160, a: 255 }),
        ("cadetblue", Rgba { r: 95, g: 158, b: 160, a: 255 }),
        ("medium_aquamarine", Rgba { r: 102, g: 205, b: 170, a: 255 }),
        ("mediumaquamarine", Rgba { r: 102, g: 205, b: 170, a: 255 }),
        ("aquamarine", Rgba { r: 127, g: 255, b: 212, a: 255 }),
        ("dark_green", Rgba { r: 0, g: 100, b: 0, a: 255 }),
        ("darkgreen", Rgba { r: 0, g: 100, b: 0, a: 255 }),
        ("dark_olive", Rgba { r: 85, g: 107, b: 47, a: 255 }),
        ("darkolivegreen", Rgba { r: 85, g: 107, b: 47, a: 255 }),
        ("dark_sea", Rgba { r: 143, g: 188, b: 143, a: 255 }),
        ("darkseagreen", Rgba { r: 143, g: 188, b: 143, a: 255 }),
        ("sea_green", Rgba { r: 46, g: 139, b: 87, a: 255 }),
        ("seagreen", Rgba { r: 46, g: 139, b: 87, a: 255 }),
        ("medium_sea", Rgba { r: 60, g: 179, b: 113, a: 255 }),
        ("mediumseagreen", Rgba { r: 60, g: 179, b: 113, a: 255 }),
        ("light_sea", Rgba { r: 32, g: 178, b: 170, a: 255 }),
        ("lightseagreen", Rgba { r: 32, g: 178, b: 170, a: 255 }),
        ("pale_green", Rgba { r: 152, g: 251, b: 152, a: 255 }),
        ("palegreen", Rgba { r: 152, g: 251, b: 152, a: 255 }),
        ("spring_green", Rgba { r: 0, g: 255, b: 127, a: 255 }),
        ("springgreen", Rgba { r: 0, g: 255, b: 127, a: 255 }),
        ("lawn_green", Rgba { r: 124, g: 252, b: 0, a: 255 }),
        ("lawngreen", Rgba { r: 124, g: 252, b: 0, a: 255 }),
        ("green", Rgba { r: 0, g: 255, b: 0, a: 255 }),
        ("lime", Rgba { r: 0, g: 255, b: 0, a: 255 }),
        ("x11_green", Rgba { r: 0, g: 255, b: 0, a: 255 }),
        ("x11green", Rgba { r: 0, g: 255, b: 0, a: 255 }),
        ("web_green", Rgba { r: 0, g: 128, b: 0, a: 255 }),
        ("webgreen", Rgba { r: 0, g: 128, b: 0, a: 255 }),
        ("chartreuse", Rgba { r: 127, g: 255, b: 0, a: 255 }),
        ("medium_spring", Rgba { r: 0, g: 250, b: 154, a: 255 }),
        ("mediumspringgreen", Rgba { r: 0, g: 250, b: 154, a: 255 }),
        ("green_yellow", Rgba { r: 173, g: 255, b: 47, a: 255 }),
        ("greenyellow", Rgba { r: 173, g: 255, b: 47, a: 255 }),
        ("lime_green", Rgba { r: 50, g: 205, b: 50, a: 255 }),
        ("limegreen", Rgba { r: 50, g: 205, b: 50, a: 255 }),
        ("yellow_green", Rgba { r: 154, g: 205, b: 50, a: 255 }),
        ("yellowgreen", Rgba { r: 154, g: 205, b: 50, a: 255 }),
        ("forest_green", Rgba { r: 34, g: 139, b: 34, a: 255 }),
        ("forestgreen", Rgba { r: 34, g: 139, b: 34, a: 255 }),
        ("olive_drab", Rgba { r: 107, g: 142, b: 35, a: 255 }),
        ("olivedrab", Rgba { r: 107, g: 142, b: 35, a: 255 }),
        ("dark_khaki", Rgba { r: 189, g: 183, b: 107, a: 255 }),
        ("darkkhaki", Rgba { r: 189, g: 183, b: 107, a: 255 }),
        ("khaki", Rgba { r: 240, g: 230, b: 140, a: 255 }),
        ("pale_goldenrod", Rgba { r: 238, g: 232, b: 170, a: 255 }),
        ("palegoldenrod", Rgba { r: 238, g: 232, b: 170, a: 255 }),
        ("light_goldenrod", Rgba { r: 238, g: 221, b: 130, a: 255 }),
        ("lightgoldenrodyellow", Rgba { r: 250, g: 250, b: 210, a: 255 }),
        ("light_yellow", Rgba { r: 255, g: 255, b: 224, a: 255 }),
        ("lightyellow", Rgba { r: 255, g: 255, b: 224, a: 255 }),
        ("yellow", Rgba { r: 255, g: 255, b: 0, a: 255 }),
        ("gold", Rgba { r: 255, g: 215, b: 0, a: 255 }),
        ("lightgoldenrod", Rgba { r: 238, g: 221, b: 130, a: 255 }),
    ]
}

fn push_part_3(t: &mut Vec<(&'static str, Rgba)>)
    ensures
        final(t)@ == old(t)@ + part_colors_3(),
{
    t.push(("light_cyan", Rgba { r: 224, g: 255, b: 255, a: 255 }));
    t.push(("lightcyan", Rgba { r: 224, g: 255, b: 255, a: 255 }));
    t.push(("cadet_blue", Rgba { r: 95, g: 158, b: 160, a: 255 }));
    t.push(("cadetblue", Rgba { r: 95, g: 158, b: 160, a: 255 }));
    t.push(("medium_aquamarine", Rgba { r: 102, g: 205, b: 170, a: 255 }));
    t.push(("mediumaquamarine", Rgba { r: 102, g: 205, b: 170, a: 255 }));
    t.push(("aquamarine", Rgba { r: 127, g: 255, b: 212, a: 255 }));
    t.push(("dark_green", Rgba { r: 0, g: 100, b: 0, a: 255 }));
    t.push(("darkgreen", Rgba { r: 0, g: 100, b: 0, a: 255 }));
    t.push(("dark_olive", Rgba { r: 85, g: 107, b: 47, a: 255 }));
    t.push(("darkolivegreen", Rgba { r: 85, g: 107, b: 47, a: 255 }));
    t.push(("dark_sea", Rgba { r: 143, g: 188, b: 143, a: 255 }));
    t.push(("darkseagreen", Rgba { r: 143, g: 188, b: 143, a: 255 }));
    t.push(("sea_green", Rgba { r: 46, g: 139, b: 87, a: 255 }));
    t.push(("seagreen", Rgba { r: 46, g: 139, b: 87, a: 255 }));
    t.push(("medium_sea", Rgba { r: 60, g: 179, b: 113, a: 255 }));
    t.push(("mediumseagreen", Rgba { r: 60, g: 179, b: 113, a: 255 }));
    t.push(("light_sea", Rgba { r: 32, g: 178, b: 170, a: 255 }));
    t.push(("lightseagreen", Rgba { r: 32, g: 178, b: 170, a: 255 }));
    t.push(("pale_green", Rgba { r: 152, g: 251, b: 152, a: 255 }));
    t.push(("palegreen", Rgba { r: 152, g: 251, b: 152, a: 255 }));
    t.push(("spring_green", Rgba { r: 0, g: 255, b: 127, a: 255 }));
    t.push(("springgreen", Rgba { r: 0, g: 255, b: 127, a: 255 }));
    t.push(("lawn_green", Rgba { r: 124, g: 252, b: 0, a: 255 }));
    t.push(("lawngreen", Rgba { r: 124, g: 252, b: 0, a: 255 }));
    t.push(("green", Rgba { r: 0, g: 255, b: 0, a: 255 }));
    t.push(("lime", Rgba { r: 0, g: 255, b: 0, a: 255 }));
    t.push(("x11_green", Rgba { r: 0, g: 255, b: 0, a: 255 }));
    t.push(("x11green", Rgba { r: 0, g: 255, b: 0, a: 255 }));
    t.push(("web_green", Rgba { r: 0, g: 128, b: 0, a: 255 }));
    t.push(("webgreen", Rgba { r: 0, g: 128, b: 0, a: 255 }));
    t.push(("chartreuse", Rgba { r: 127, g: 255, b: 0, a: 255 }));
    t.push(("medium_spring", Rgba { r: 0, g: 250, b: 154, a: 255 }));
    t.push(("mediumspringgreen", Rgba { r: 0, g: 250, b: 154, a: 255 }));
    t.push(("green_yellow", Rgba { r: 173, g: 255, b: 47, a: 255 }));
    t.push(("greenyellow", Rgba { r: 173, g: 255, b: 47, a: 255 }));
    t.push(("lime_green", Rgba { r: 50, g: 205, b: 50, a: 255 }));
    t.push(("limegreen", Rgba { r: 50, g: 205, b: 50, a: 255 }));
    t.push(("yellow_green", Rgba { r: 154, g: 205, b: 50, a: 255 }));
    t.push(("yellowgreen", Rgba { r: 154, g: 205, b: 50, a: 255 }));
    t.push(("forest_green", Rgba { r: 34, g: 139, b: 34, a: 255 }));
    t.push(("forestgreen", Rgba { r: 34, g: 139, b: 34, a: 255 }));
    t.push(("olive_drab", Rgba { r: 107, g: 142, b: 35, a: 255 }));
    t.push(("olivedrab", Rgba { r: 107, g: 142, b: 35, a: 255 }));
    t.push(("dark_khaki", Rgba { r: 189, g: 183, b: 107, a: 255 }));
    t.push(("darkkhaki", Rgba { r: 189, g: 183, b: 107, a: 255 }));
    t.push(("khaki", Rgba { r: 240, g: 230, b: 140, a: 255 }));
    t.push(("pale_goldenrod", Rgba { r: 238, g: 232, b: 170, a: 255 }));
    t.push(("palegoldenrod", Rgba { r: 238, g: 232, b: 170, a: 255 }));
    t.push(("light_goldenrod", Rgba { r: 238, g: 221, b: 130, a: 255 }));
    t.push(("lightgoldenrodyellow", Rgba { r: 250, g: 250, b: 210, a: 255 }));
    t.push(("light_yellow", Rgba { r: 255, g: 255, b: 224, a: 255 }));
    t.push(("lightyellow", Rgba { r: 255, g: 255, b: 224, a: 255 }));
    t.push(("yellow", Rgba { r: 255, g: 255, b: 0, a: 255 }));
    t.push(("gold", Rgba { r: 255, g: 215, b: 0, a: 255 }));
    t.push(("lightgoldenrod", Rgba { r: 238, g: 221, b: 130, a: 255 }));
    proof {
        assert(t@ =~= old(t)@ + part_colors_3());
    }
}

pub open spec fn part_colors_4() -> Seq<(&'static str, Rgba)> {
    seq![
        ("goldenrod", Rgba { r: 218, g: 165, b: 32, a: 255 }),
        ("dark_goldenrod", Rgba { r: 184, g: 134, b: 11, a: 255 }),
        ("darkgoldenrod", Rgba { r: 184, g: 134, b: 11, a: 255 }),
        ("rosy_brown", Rgba { r: 188, g: 143, b: 143, a: 255 }),
        ("rosybrown", Rgba { r: 188, g: 143, b: 143, a: 255 }),
        ("indian_red", Rgba { r: 205, g: 92, b: 92, a: 255 }),
        ("indianred", Rgba { r: 205, g: 92, b: 92, a: 255 }),
        ("saddle_brown", Rgba { r: 139, g: 69, b: 19, a: 255 }),
        ("saddlebrown", Rgba { r: 139, g: 69, b: 19, a: 255 }),
        ("sienna", Rgba { r: 160, g: 82, b: 45, a: 255 }),
        ("peru", Rgba { r: 205, g: 133, b: 63, a: 255 }),
        ("burlywood", Rgba { r: 222, g: 184, b: 135, a: 255 }),
        ("beige", Rgba { r: 245, g: 245, b: 220, a: 255 }),
        ("wheat", Rgba { r: 245, g: 222, b: 179, a: 255 }),
        ("sandy_brown", Rgba { r: 244, g: 164, b: 96, a: 255 }),
        ("sandybrown", Rgba { r: 244, g: 164, b: 96, a: 255 }),
        ("tan", Rgba { r: 210, g: 180, b: 140, a: 255 }),
        ("chocolate", Rgba { r: 210, g: 105, b: 30, a: 255 }),
        ("firebrick_34", Rgba { r: 178, g: 34, b: 34, a: 255 }),
        ("brown_42", Rgba { r: 165, g: 42, b: 42, a: 255 }),
        ("dark_salmon", Rgba { r: 233, g: 150, b: 122, a: 255 }),
        ("darksalmon", Rgba { r: 233, g: 150, b: 122, a: 255 }),
        ("salmon", Rgba { r: 250, g: 128, b: 114, a: 255 }),
        ("light_salmon", Rgba { r: 255, g: 160, b: 122, a: 255 }),
        ("lightsalmon", Rgba { r: 255, g: 160, b: 122, a: 255 }),
        ("orange", Rgba { r: 255, g: 165, b: 0, a: 255 }),
        ("dark_orange", Rgba { r: 255, g: 140, b: 0, a: 255 }),
        ("darkorange", Rgba { r: 255, g: 140, b: 0, a: 255 }),
        ("coral", Rgba { r: 255, g: 127, b: 80, a: 255 }),
        ("light_coral", Rgba { r: 240, g: 128, b: 128, a: 255 }),
        ("lightcoral", Rgba { r: 240, g: 128, b: 128, a: 255 }),
        ("tomato", Rgba { r: 255, g: 99, b: 71, a: 255 }),
        ("orange_red", Rgba { r: 255, g: 69, b: 0, a: 255 }),
        ("orangered", Rgba { r: 255, g: 69, b: 0, a: 255 }),
        ("red", Rgba { r: 255, g: 0, b: 0, a: 255 }),
        ("hot_pink", Rgba { r: 255, g: 105, b: 180, a: 255 }),
        ("hotpink", Rgba { r: 255, g: 105, b: 180, a: 255 }),
        ("deep_pink", Rgba { r: 255, g: 20, b: 147, a: 255 }),
        ("deeppink", Rgba { r: 255, g: 20, b: 147, a: 255 }),
        ("pink", Rgba { r: 255, g: 192, b: 203, a: 255 }),
        ("light_pink", Rgba { r: 255, g: 182, b: 193, a: 255 }),
        ("lightpink", Rgba { r: 255, g: 182, b: 193, a: 255 }),
        ("pale_violet", Rgba { r: 219, g: 112, b: 147, a: 255 }),
        ("palevioletred", Rgba { r: 219, g: 112, b: 147, a: 255 }),
        ("maroon", Rgba { r: 176, g: 48, b: 96, a: 255 }),
        ("x11_maroon", Rgba { r: 176, g: 48, b: 96, a: 255 }),
        ("x11maroon", Rgba { r: 176, g: 48, b: 96, a: 255 }),
        ("web_maroon", Rgba { r: 128, g: 0, b: 0, a: 255 }),
        ("webmaroon", Rgba { r: 128, g: 0, b: 0, a: 255 }),
        ("medium_violet", Rgba { r: 199, g: 21, b: 133, a: 255 }),
        ("mediumvioletred", Rgba { r: 199, g: 21, b: 133, a: 255 }),
        ("violet_red", Rgba { r: 208, g: 32, b: 144, a: 255 }),
        ("violetred", Rgba { r: 208, g: 32, b: 144, a: 255 }),
        ("magenta", Rgba { r: 255, g: 0, b: 255, a: 255 }),
        ("fuchsia", Rgba { r: 255, g: 0, b: 255, a: 255 }),
        ("violet", Rgba { r: 238, g: 130, b: 238, a: 255 }),
    ]
}

fn push_part_4(t: &mut Vec<(&'static str, Rgba)>)
    ensures
        final(t)@ == old(t)@ + part_colors_4(),
{
    t.push(("goldenrod", Rgba { r: 218, g: 165, b: 32, a: 255 }));
    t.push(("dark_goldenrod", Rgba { r: 184, g: 134, b: 11, a: 255 }));
    t.push(("darkgoldenrod", Rgba { r: 184, g: 134, b: 11, a: 255 }));
    t.push(("rosy_brown", Rgba { r: 188, g: 143, b: 143, a: 255 }));
    t.push(("rosybrown", Rgba { r: 188, g: 143, b: 143, a: 255 }));
    t.push(("indian_red", Rgba { r: 205, g: 92, b: 92, a: 255 }));
    t.push(("indianred", Rgba { r: 205, g: 92, b: 92, a: 255 }));
    t.push(("saddle_brown", Rgba { r: 139, g: 69, b: 19, a: 255 }));
    t.push(("saddlebrown", Rgba { r: 139, g: 69, b: 19, a: 255 }));
    t.push(("sienna", Rgba { r: 160, g: 82, b: 45, a: 255 }));
    t.push(("peru", Rgba { r: 205, g: 133, b: 63, a: 255 }));
    t.push(("burlywood", Rgba { r: 222, g: 184, b: 135, a: 255 }));
    t.push(("beige", Rgba { r: 245, g: 245, b: 220, a: 255 }));
    t.push(("wheat", Rgba { r: 245, g: 222, b: 179, a: 255 }));
    t.push(("sandy_brown", Rgba { r: 244, g: 164, b: 96, a: 255 }));
    t.push(("sandybrown", Rgba { r: 244, g: 164, b: 96, a: 255 }));
    t.push(("tan", Rgba { r: 210, g: 180, b: 140, a: 255 }));
    t.push(("chocolate", Rgba { r: 210, g: 105, b: 30, a: 255 }));
    t.push(("firebrick_34", Rgba { r: 178, g: 34, b: 34, a: 255 }));
    t.push(("brown_42", Rgba { r: 165, g: 42, b: 42, a: 255 }));
    t.push(("dark_salmon", Rgba { r: 233, g: 150, b: 122, a: 255 }));
    t.push(("darksalmon", Rgba { r: 233, g: 150, b: 122, a: 255 }));
    t.push(("salmon", Rgba { r: 250, g: 128, b: 114, a: 255 }));
    t.push(("light_salmon", Rgba { r: 255, g: 160, b: 122, a: 255 }));
    t.push(("lightsalmon", Rgba { r: 255, g: 160, b: 122, a: 255 }));
    t.push(("orange", Rgba { r: 255, g: 165, b: 0, a: 255 }));
    t.push(("dark_orange", Rgba { r: 255, g: 140, b: 0, a: 255 }));
    t.push(("darkorange", Rgba { r: 255, g: 140, b: 0, a: 255 }));
    t.push(("coral", Rgba { r: 255, g: 127, b: 80, a: 255 }));
    t.push(("light_coral", Rgba { r: 240, g: 128, b: 128, a: 255 }));
    t.push(("lightcoral", Rgba { r: 240, g: 128, b: 128, a: 255 }));
    t.push(("tomato", Rgba { r: 255, g: 99, b: 71, a: 255 }));
    t.push(("orange_red", Rgba { r: 255, g: 69, b: 0, a: 255 }));
    t.push(("orangered", Rgba { r: 255, g: 69, b: 0, a: 255 }));
    t.push(("red", Rgba { r: 255, g: 0, b: 0, a: 255 }));
    t.push(("hot_pink", Rgba { r: 255, g: 105, b: 180, a: 255 }));
    t.push(("hotpink", Rgba { r: 255, g: 105, b: 180, a: 255 }));
    t.push(("deep_pink", Rgba { r: 255, g: 20, b: 147, a: 255 }));
    t.push(("deeppink", Rgba { r: 255, g: 20, b: 147, a: 255 }));
    t.push(("pink", Rgba { r: 255, g: 192, b: 203, a: 255 }));
    t.push(("light_pink", Rgba { r: 255, g: 182, b: 193, a: 255 }));
    t.push(("lightpink", Rgba { r: 255, g: 182, b: 193, a: 255 }));
    t.push(("pale_violet", Rgba { r: 219, g: 112, b: 147, a: 255 }));
    t.push(("palevioletred", Rgba { r: 219, g: 112, b: 147, a: 255 }));
    t.push(("maroon", Rgba { r: 176, g: 48, b: 96, a: 255 }));
    t.push(("x11_maroon", Rgba { r: 176, g: 48, b: 96, a: 255 }));
    t.push(("x11maroon", Rgba { r: 176, g: 48, b: 96, a: 255 }));
    t.push(("web_maroon", Rgba { r: 128, g: 0, b: 0, a: 255 }));
    t.push(("webmaroon", Rgba { r: 128, g: 0, b: 0, a: 255 }));
    t.push(("medium_violet", Rgba { r: 199, g: 21, b: 133, a: 255 }));
    t.push(("mediumvioletred", Rgba { r: 199, g: 21, b: 133, a: 255 }));
    t.push(("violet_red", Rgba { r: 208, g: 32, b: 144, a: 255 }));
    t.push(("violetred", Rgba { r: 208, g: 32, b: 144, a: 255 }));
    t.push(("magenta", Rgba { r: 255, g: 0, b: 255, a: 255 }));
    t.push(("fuchsia", Rgba { r: 255, g: 0, b: 255, a: 255 }));
    t.push(("violet", Rgba { r: 238, g: 130, b: 238, a: 255 }));
    proof {
        assert(t@ =~= old(t)@ + part_colors_4());
    }
}

pub open spec fn part_colors_5() -> Seq<(&'static str, Rgba)> {
    seq![
        ("plum", Rgba { r: 221, g: 160, b: 221, a: 255 }),
        ("orchid", Rgba { r: 218, g: 112, b: 214, a: 255 }),
        ("medium_orchid", Rgba { r: 186, g: 85, b: 211, a: 255 }),
        ("mediumorchid", Rgba { r: 186, g: 85, b: 211, a: 255 }),
        ("dark_orchid", Rgba { r: 153, g: 50, b: 204, a: 255 }),
        ("darkorchid", Rgba { r: 153, g: 50, b: 204, a: 255 }),
        ("dark_violet", Rgba { r: 148, g: 0, b: 211, a: 255 }),
        ("darkviolet", Rgba { r: 148, g: 0, b: 211, a: 255 }),
        ("blue_violet", Rgba { r: 138, g: 43, b: 226, a: 255 }),
        ("blueviolet", Rgba { r: 138, g: 43, b: 226, a: 255 }),
        ("purple", Rgba { r: 160, g: 32, b: 240, a: 255 }),
        ("x11_purple", Rgba { r: 160, g: 32, b: 240, a: 255 }),
        ("x11purple", Rgba { r: 160, g: 32, b: 240, a: 255 }),
        ("web_purple", Rgba { r: 128, g: 0, b: 128, a: 255 }),
        ("webpurple", Rgba { r: 128, g: 0, b: 128, a: 255 }),
        ("medium_purple", Rgba { r: 147, g: 112, b: 219, a: 255 }),
        ("mediumpurple", Rgba { r: 147, g: 112, b: 219, a: 255 }),
        ("thistle", Rgba { r: 216, g: 191, b: 216, a: 255 }),
        ("snow1", Rgba { r: 255, g: 250, b: 250, a: 255 }),
        ("snow2", Rgba { r: 238, g: 233, b: 233, a: 255 }),
        ("snow3", Rgba { r: 205, g: 201, b: 201, a: 255 }),
        ("snow4", Rgba { r: 139, g: 136, b: 136, a: 255 }),
        ("seashell1", Rgba { r: 255, g: 245, b: 238, a: 255 }),
        ("seashell2", Rgba { r: 238, g: 229, b: 222, a: 255 }),
        ("seashell3", Rgba { r: 205, g: 197, b: 191, a: 255 }),
        ("seashell4", Rgba { r: 139, g: 134, b: 130, a: 255 }),
        ("antiquewhite1", Rgba { r: 255, g: 240, b: 219, a: 255 }),
        ("antiquewhite2", Rgba { r: 238, g: 224, b: 204, a: 255 }),
        ("antiquewhite3", Rgba { r: 205, g: 193, b: 176, a: 255 }),
        ("antiquewhite4", Rgba { r: 139, g: 131, b: 119, a: 255 }),
        ("bisque1", Rgba { r: 255, g: 228, b: 196, a: 255 }),
        ("bisque2", Rgba { r: 238, g: 213, b: 183, a: 255 }),
        ("bisque3", Rgba { r: 205, g: 183, b: 158, a: 255 }),
        ("bisque4", Rgba { r: 139, g: 124, b: 107, a: 255 }),
        ("peachpuff1", Rgba { r: 255, g: 218, b: 185, a: 255 }),
        ("peachpuff2", Rgba { r: 238, g: 203, b: 173, a: 255 }),
        ("peachpuff3", Rgba { r: 205, g: 175, b: 149, a: 255 }),
        ("peachpuff4", Rgba { r: 139, g: 119, b: 101, a: 255 }),
        ("navajowhite1", Rgba { r: 255, g: 222, b: 173, a: 255 }),
        ("navajowhite2", Rgba { r: 238, g: 207, b: 161, a: 255 }),
        ("navajowhite3", Rgba { r: 205, g: 178, b: 139, a: 255 }),
        ("navajowhite4", Rgba { r: 139, g: 121, b: 94, a: 255 }),
        ("lemonchiffon1", Rgba { r: 255, g: 250, b: 205, a: 255 }),
        ("lemonchiffon2", Rgba { r: 238, g: 233, b: 191, a: 255 }),
        ("lemonchiffon3", Rgba { r: 205, g: 201, b: 165, a: 255 }),
        ("lemonchiffon4", Rgba { r: 139, g: 136, b: 112, a: 255 }),
        ("cornsilk1", Rgba { r: 255, g: 248, b: 220, a: 255 }),
        ("cornsilk2", Rgba { r: 238, g: 231, b: 205, a: 255 }),
        ("cornsilk3", Rgba { r: 205, g: 199, b: 177, a: 255 }),
        ("cornsilk4", Rgba { r: 139, g: 135, b: 120, a: 255 }),
        ("ivory1", Rgba { r: 255, g: 255, b: 240, a: 255 }),
        ("ivory2", Rgba { r: 238, g: 238, b: 224, a: 255 }),
        ("ivory3", Rgba { r: 205, g: 205, b: 193, a: 255 }),
        ("ivory4", Rgba { r: 139, g: 139, b: 131, a: 255 }),
        ("honeydew1", Rgba { r: 240, g: 255, b: 240, a: 255 }),
        ("honeydew2", Rgba { r: 224, g: 238, b: 224, a: 255 }),
    ]
}

fn push_part_5(t: &mut Vec<(&'static str, Rgba)>)
    ensures
        final(t)@ == old(t)@ + part_colors_5(),
{
    t.push(("plum", Rgba { r: 221, g: 160, b: 221, a: 255 }));
    t.push(("orchid", Rgba { r: 218, g: 112, b: 214, a: 255 }));
    t.push(("medium_orchid", Rgba { r: 186, g: 85, b: 211, a: 255 }));
    t.push(("mediumorchid", Rgba { r: 186, g: 85, b: 211, a: 255 }));
    t.push(("dark_orchid", Rgba { r: 153, g: 50, b: 204, a: 255 }));
    t.push(("darkorchid", Rgba { r: 153, g: 50, b: 204, a: 255 }));
    t.push(("dark_violet", Rgba { r: 148, g: 0, b: 211, a: 255 }));
    t.push(("darkviolet", Rgba { r: 148, g: 0, b: 211, a: 255 }));
    t.push(("blue_violet", Rgba { r: 138, g: 43, b: 226, a: 255 }));
    t.push(("blueviolet", Rgba { r: 138, g: 43, b: 226, a: 255 }));
    t.push(("purple", Rgba { r: 160, g: 32, b: 240, a: 255 }));
    t.push(("x11_purple", Rgba { r: 160, g: 32, b: 240, a: 255 }));
    t.push(("x11purple", Rgba { r: 160, g: 32, b: 240, a: 255 }));
    t.push(("web_purple", Rgba { r: 128, g: 0, b: 128, a: 255 }));
    t.push(("webpurple", Rgba { r: 128, g: 0, b: 128, a: 255 }));
    t.push(("medium_purple", Rgba { r: 147, g: 112, b: 219, a: 255 }));
    t.push(("mediumpurple", Rgba { r: 147, g: 112, b: 219, a: 255 }));
    t.push(("thistle", Rgba { r: 216, g: 191, b: 216, a: 255 }));
    t.push(("snow1", Rgba { r: 255, g: 250, b: 250, a: 255 }));
    t.push(("snow2", Rgba { r: 238, g: 233, b: 233, a: 255 }));
    t.push(("snow3", Rgba { r: 205, g: 201, b: 201, a: 255 }));
    t.push(("snow4", Rgba { r: 139, g: 136, b: 136, a: 255 }));
    t.push(("seashell1", Rgba { r: 255, g: 245, b: 238, a: 255 }));
    t.push(("seashell2", Rgba { r: 238, g: 229, b: 222, a: 255 }));
    t.push(("seashell3", Rgba { r: 205, g: 197, b: 191, a: 255 }));
    t.push(("seashell4", Rgba { r: 139, g: 134, b: 130, a: 255 }));
    t.push(("antiquewhite1", Rgba { r: 255, g: 240, b: 219, a: 255 }));
    t.push(("antiquewhite2", Rgba { r: 238, g: 224, b: 204, a: 255 }));
    t.push(("antiquewhite3", Rgba { r: 205, g: 193, b: 176, a: 255 }));
    t.push(("antiquewhite4", Rgba { r: 139, g: 131, b: 119, a: 255 }));
    t.push(("bisque1", Rgba { r: 255, g: 228, b: 196, a: 255 }));
    t.push(("bisque2", Rgba { r: 238, g: 213, b: 183, a: 255 }));
    t.push(("bisque3", Rgba { r: 205, g: 183, b: 158, a: 255 }));
    t.push(("bisque4", Rgba { r: 139, g: 124, b: 107, a: 255 }));
    t.push(("peachpuff1", Rgba { r: 255, g: 218, b: 185, a: 255 }));
    t.push(("peachpuff2", Rgba { r: 238, g: 203, b: 173, a: 255 }));
    t.push(("peachpuff3", Rgba { r: 205, g: 175, b: 149, a: 255 }));
    t.push(("peachpuff4", Rgba { r: 139, g: 119, b: 101, a: 255 }));
    t.push(("navajowhite1", Rgba { r: 255, g: 222, b: 173, a: 255 }));
    t.push(("navajowhite2", Rgba { r: 238, g: 207, b: 161, a: 255 }));
    t.push(("navajowhite3", Rgba { r: 205, g: 178, b: 139, a: 255 }));
    t.push(("navajowhite4", Rgba { r: 139, g: 121, b: 94, a: 255 }));
    t.push(("lemonchiffon1", Rgba { r: 255, g: 250, b: 205, a: 255 }));
    t.push(("lemonchiffon2", Rgba { r: 238, g: 233, b: 191, a: 255 }));
    t.push(("lemonchiffon3", Rgba { r: 205, g: 201, b: 165, a: 255 }));
    t.push(("lemonchiffon4", Rgba { r: 139, g: 136, b: 112, a: 255 }));
    t.push(("cornsilk1", Rgba { r: 255, g: 248, b: 220, a: 255 }));
    t.push(("cornsilk2", Rgba { r: 238, g: 231, b: 205, a: 255 }));
    t.push(("cornsilk3", Rgba { r: 205, g: 199, b: 177, a: 255 }));
    t.push(("cornsilk4", Rgba { r: 139, g: 135, b: 120, a: 255 }));
    t.push(("ivory1", Rgba { r: 255, g: 255, b: 240, a: 255 }));
    t.push(("ivory2", Rgba { r: 238, g: 238, b: 224, a: 255 }));
    t.push(("ivory3", Rgba { r: 205, g: 205, b: 193, a: 255 }));
    t.push(("ivory4", Rgba { r: 139, g: 139, b: 131, a: 255 }));
    t.push(("honeydew1", Rgba { r: 240, g: 255, b: 240, a: 255 }));
    t.push(("honeydew2", Rgba { r: 224, g: 238, b: 224, a: 255 }));
    proof {
        assert(t@ =~= old(t)@ + part_colors_5());
    }
}

pub open spec fn part_colors_6() -> Seq<(&'static str, Rgba)> {
    seq![
        ("honeydew3", Rgba { r: 193, g: 205, b: 193, a: 255 }),
        ("honeydew4", Rgba { r: 131, g: 139, b: 131, a: 255 }),
        ("lavenderblush1", Rgba { r: 255, g: 240, b: 245, a: 255 }),
        ("lavenderblush2", Rgba { r: 238, g: 224, b: 229, a: 255 }),
        ("lavenderblush3", Rgba { r: 205, g: 193, b: 197, a: 255 }),
        ("lavenderblush4", Rgba { r: 139, g: 131, b: 134, a: 255 }),
        ("mistyrose1", Rgba { r: 255, g: 228, b: 225, a: 255 }),
        ("mistyrose2", Rgba { r: 238, g: 213, b: 210, a: 255 }),
        ("mistyrose3", Rgba { r: 205, g: 183, b: 181, a: 255 }),
        ("mistyrose4", Rgba { r: 139, g: 124, b: 123, a: 255 }),
        ("azure1", Rgba { r: 240, g: 255, b: 255, a: 255 }),
        ("azure2", Rgba { r: 224, g: 238, b: 238, a: 255 }),
        ("azure3", Rgba { r: 193, g: 205, b: 205, a: 255 }),
        ("azure4", Rgba { r: 131, g: 139, b: 139, a: 255 }),
        ("slateblue1", Rgba { r: 132, g: 112, b: 255, a: 255 }),
        ("slateblue2", Rgba { r: 123, g: 105, b: 238, a: 255 }),
        ("slateblue3", Rgba { r: 106, g: 90, b: 205, a: 255 }),
        ("slateblue4", Rgba { r: 72, g: 61, b: 139, a: 255 }),
        ("royalblue1", Rgba { r: 74, g: 119, b: 255, a: 255 }),
        ("royalblue2", Rgba { r: 69, g: 111, b: 238, a: 255 }),
        ("royalblue3", Rgba { r: 59, g: 96, b: 205, a: 255 }),
        ("royalblue4", Rgba { r: 40, g: 65, b: 139, a: 255 }),
        ("blue1", Rgba { r: 0, g: 0, b: 255, a: 255 }),
        ("blue2", Rgba { r: 0, g: 0, b: 238, a: 255 }),
        ("blue3", Rgba { r: 0, g: 0, b: 205, a: 255 }),
        ("blue4", Rgba { r: 0, g: 0, b: 139, a: 255 }),
        ("dodgerblue1", Rgba { r: 30, g: 144, b: 255, a: 255 }),
        ("dodgerblue2", Rgba { r: 28, g: 134, b: 238, a: 255 }),
        ("dodgerblue3", Rgba { r: 24, g: 116, b: 205, a: 255 }),
        ("dodgerblue4", Rgba { r: 16, g: 78, b: 139, a: 255 }),
        ("steelblue1", Rgba { r: 99, g: 184, b: 255, a: 255 }),
        ("steelblue2", Rgba { r: 92, g: 172, b: 238, a: 255 }),
        ("steelblue3", Rgba { r: 80, g: 148, b: 205, a: 255 }),
        ("steelblue4", Rgba { r: 54, g: 100, b: 139, a: 255 }),
        ("deepskyblue1", Rgba { r: 0, g: 191, b: 255, a: 255 }),
        ("deepskyblue2", Rgba { r: 0, g: 178, b: 238, a: 255 }),
        ("deepskyblue3", Rgba { r: 0, g: 154, b: 205, a: 255 }),
        ("deepskyblue4", Rgba { r: 0, g: 104, b: 139, a: 255 }),
        ("skyblue1", Rgba { r: 146, g: 224, b: 255, a: 255 }),
        ("skyblue2", Rgba { r: 136, g: 209, b: 238, a: 255 }),
        ("skyblue3", Rgba { r: 117, g: 180, b: 205, a: 255 }),
        ("skyblue4", Rgba { r: 80, g: 122, b: 139, a: 255 }),
        ("lightskyblue1", Rgba { r: 138, g: 210, b: 255, a: 255 }),
        ("lightskyblue2", Rgba { r: 129, g: 196, b: 238, a: 255 }),
        ("lightskyblue3", Rgba { r: 111, g: 169, b: 205, a: 255 }),
        ("lightskyblue4", Rgba { r: 75, g: 114, b: 139, a: 255 }),
        ("slategray1", Rgba { r: 198, g: 227, b: 255, a: 255 }),
        ("slategray2", Rgba { r: 185, g: 212, b: 238, a: 255 }),
        ("slategray3", Rgba { r: 159, g: 182, b: 205, a: 255 }),
        ("slategray4", Rgba { r: 108, g: 124, b: 139, a: 255 }),
        ("lightsteelblue1", Rgba { r: 202, g: 225, b: 255, a: 255 }),
        ("lightsteelblue2", Rgba { r: 189, g: 210, b: 238, a: 255 }),
        ("lightsteelblue3", Rgba { r: 162, g: 181, b: 205, a: 255 }),
        ("lightsteelblue4", Rgba { r: 110, g: 123, b: 139, a: 255 }),
        ("lightblue1", Rgba { r: 192, g: 239, b: 255, a: 255 }),
        ("lightblue2", Rgba { r: 179, g: 223, b: 238, a: 255 }),
    ]
}

fn push_part_6(t: &mut Vec<(&'static str, Rgba)>)
    ensures
        final(t)@ == old(t)@ + part_colors_6(),
{
    t.push(("honeydew3", Rgba { r: 193, g: 205, b: 193, a: 255 }));
    t.push(("honeydew4", Rgba { r: 131, g: 139, b: 131, a: 255 }));
    t.push(("lavenderblush1", Rgba { r: 255, g: 240, b: 245, a: 255 }));
    t.push(("lavenderblush2", Rgba { r: 238, g: 224, b: 229, a: 255 }));
    t.push(("lavenderblush3", Rgba { r: 205, g: 193, b: 197, a: 255 }));
    t.push(("lavenderblush4", Rgba { r: 139, g: 131, b: 134, a: 255 }));
    t.push(("mistyrose1", Rgba { r: 255, g: 228, b: 225, a: 255 }));
    t.push(("mistyrose2", Rgba { r: 238, g: 213, b: 210, a: 255 }));
    t.push(("mistyrose3", Rgba { r: 205, g: 183, b: 181, a: 255 }));
    t.push(("mistyrose4", Rgba { r: 139, g: 124, b: 123, a: 255 }));
    t.push(("azure1", Rgba { r: 240, g: 255, b: 255, a: 255 }));
    t.push(("azure2", Rgba { r: 224, g: 238, b: 238, a: 255 }));
    t.push(("azure3", Rgba { r: 193, g: 205, b: 205, a: 255 }));
    t.push(("azure4", Rgba { r: 131, g: 139, b: 139, a: 255 }));
    t.push(("slateblue1", Rgba { r: 132, g: 112, b: 255, a: 255 }));
    t.push(("slateblue2", Rgba { r: 123, g: 105, b: 238, a: 255 }));
    t.push(("slateblue3", Rgba { r: 106, g: 90, b: 205, a: 255 }));
    t.push(("slateblue4", Rgba { r: 72, g: 61, b: 139, a: 255 }));
    t.push(("royalblue1", Rgba { r: 74, g: 119, b: 255, a: 255 }));
    t.push(("royalblue2", Rgba { r: 69, g: 111, b: 238, a: 255 }));
    t.push(("royalblue3", Rgba { r: 59, g: 96, b: 205, a: 255 }));
    t.push(("royalblue4", Rgba { r: 40, g: 65, b: 139, a: 255 }));
    t.push(("blue1", Rgba { r: 0, g: 0, b: 255, a: 255 }));
    t.push(("blue2", Rgba { r: 0, g: 0, b: 238, a: 255 }));
    t.push(("blue3", Rgba { r: 0, g: 0, b: 205, a: 255 }));
    t.push(("blue4", Rgba { r: 0, g: 0, b: 139, a: 255 }));
    t.push(("dodgerblue1", Rgba { r: 30, g: 144, b: 255, a: 255 }));
    t.push(("dodgerblue2", Rgba { r: 28, g: 134, b: 238, a: 255 }));
    t.push(("dodgerblue3", Rgba { r: 24, g: 116, b: 205, a: 255 }));
    t.push(("dodgerblue4", Rgba { r: 16, g: 78, b: 139, a: 255 }));
    t.push(("steelblue1", Rgba { r: 99, g: 184, b: 255, a: 255 }));
    t.push(("steelblue2", Rgba { r: 92, g: 172, b: 238, a: 255 }));
    t.push(("steelblue3", Rgba { r: 80, g: 148, b: 205, a: 255 }));
    t.push(("steelblue4", Rgba { r: 54, g: 100, b: 139, a: 255 }));
    t.push(("deepskyblue1", Rgba { r: 0, g: 191, b: 255, a: 255 }));
    t.push(("deepskyblue2", Rgba { r: 0, g: 178, b: 238, a: 255 }));
    t.push(("deepskyblue3", Rgba { r: 0, g: 154, b: 205, a: 255 }));
    t.push(("deepskyblue4", Rgba { r: 0, g: 104, b: 139, a: 255 }));
    t.push(("skyblue1", Rgba { r: 146, g: 224, b: 255, a: 255 }));
    t.push(("skyblue2", Rgba { r: 136, g: 209, b: 238, a: 255 }));
    t.push(("skyblue3", Rgba { r: 117, g: 180, b: 205, a: 255 }));
    t.push(("skyblue4", Rgba { r: 80, g: 122, b: 139, a: 255 }));
    t.push(("lightskyblue1", Rgba { r: 138, g: 210, b: 255, a: 255 }));
    t.push(("lightskyblue2", Rgba { r: 129, g: 196, b: 238, a: 255 }));
    t.push(("lightskyblue3", Rgba { r: 111, g: 169, b: 205, a: 255 }));
    t.push(("lightskyblue4", Rgba { r: 75, g: 114, b: 139, a: 255 }));
    t.push(("slategray1", Rgba { r: 198, g: 227, b: 255, a: 255 }));
    t.push(("slategray2", Rgba { r: 185, g: 212, b: 238, a: 255 }));
    t.push(("slategray3", Rgba { r: 159, g: 182, b: 205, a: 255 }));
    t.push(("slategray4", Rgba { r: 108, g: 124, b: 139, a: 255 }));
    t.push(("lightsteelblue1", Rgba { r: 202, g: 225, b: 255, a: 255 }));
    t.push(("lightsteelblue2", Rgba { r: 189, g: 210, b: 238, a: 255 }));
    t.push(("lightsteelblue3", Rgba { r: 162, g: 181, b: 205, a: 255 }));
    t.push(("lightsteelblue4", Rgba { r: 110, g: 123, b: 139, a: 255 }));
    t.push(("lightblue1", Rgba { r: 192, g: 239, b: 255, a: 255 }));
    t.push(("lightblue2", Rgba { r: 179, g: 223, b: 238, a: 255 }));
    proof {
        assert(t@ =~= old(t)@ + part_colors_6());
    }
}

pub open spec fn part_colors_7() -> Seq<(&'static str, Rgba)> {
    seq![
        ("lightblue3", Rgba { r: 154, g: 192, b: 205, a: 255 }),
        ("lightblue4", Rgba { r: 105, g: 130, b: 139, a: 255 }),
        ("lightcyan1", Rgba { r: 224, g: 255, b: 255, a: 255 }),
        ("lightcyan2", Rgba { r: 209, g: 238, b: 238, a: 255 }),
        ("lightcyan3", Rgba { r: 180, g: 205, b: 205, a: 255 }),
        ("lightcyan4", Rgba { r: 122, g: 139, b: 139, a: 255 }),
        ("paleturquoise1", Rgba { r: 188, g: 255, b: 255, a: 255 }),
        ("paleturquoise2", Rgba { r: 175, g: 238, b: 238, a: 255 }),
        ("paleturquoise3", Rgba { r: 151, g: 205, b: 205, a: 255 }),
        ("paleturquoise4", Rgba { r: 102, g: 139, b: 139, a: 255 }),
        ("cadetblue1", Rgba { r: 151, g: 252, b: 255, a: 255 }),
        ("cadetblue2", Rgba { r: 141, g: 235, b: 238, a: 255 }),
        ("cadetblue3", Rgba { r: 121, g: 203, b: 205, a: 255 }),
        ("cadetblue4", Rgba { r: 82, g: 137, b: 139, a: 255 }),
        ("turquoise1", Rgba { r: 73, g: 255, b: 237, a: 255 }),
        ("turquoise2", Rgba { r: 68, g: 238, b: 221, a: 255 }),
        ("turquoise3", Rgba { r: 59, g: 205, b: 191, a: 255 }),
        ("turquoise4", Rgba { r: 40, g: 139, b: 129, a: 255 }),
        ("cyan1", Rgba { r: 0, g: 255, b: 255, a: 255 }),
        ("cyan2", Rgba { r: 0, g: 238, b: 238, a: 255 }),
        ("cyan3", Rgba { r: 0, g: 205, b: 205, a: 255 }),
        ("cyan4", Rgba { r: 0, g: 139, b: 139, a: 255 }),
        ("darkslategray1", Rgba { r: 152, g: 255, b: 255, a: 255 }),
        ("darkslategray2", Rgba { r: 142, g: 238, b: 238, a: 255 }),
        ("darkslategray3", Rgba { r: 122, g: 205, b: 205, a: 255 }),
        ("darkslategray4", Rgba { r: 83, g: 139, b: 139, a: 255 }),
        ("aquamarine1", Rgba { r: 127, g: 255, b: 212, a: 255 }),
        ("aquamarine2", Rgba { r: 119, g: 238, b: 198, a: 255 }),
        ("aquamarine3", Rgba { r: 102, g: 205, b: 170, a: 255 }),
        ("aquamarine4", Rgba { r: 69, g: 139, b: 116, a: 255 }),
        ("darkseagreen1", Rgba { r: 194, g: 255, b: 194, a: 255 }),
        ("darkseagreen2", Rgba { r: 181, g: 238, b: 181, a: 255 }),
        ("darkseagreen3", Rgba { r: 156, g: 205, b: 156, a: 255 }),
        ("darkseagreen4", Rgba { r: 106, g: 139, b: 106, a: 255 }),
        ("seagreen1", Rgba { r: 84, g: 255, b: 160, a: 255 }),
        ("seagreen2", Rgba { r: 78, g: 238, b: 149, a: 255 }),
        ("seagreen3", Rgba { r: 68, g: 205, b: 129, a: 255 }),
        ("seagreen4", Rgba { r: 46, g: 139, b: 87, a: 255 }),
        ("palegreen1", Rgba { r: 154, g: 255, b: 154, a: 255 }),
        ("palegreen2", Rgba { r: 144, g: 238, b: 144, a: 255 }),
        ("palegreen3", Rgba { r: 124, g: 205, b: 124, a: 255 }),
        ("palegreen4", Rgba { r: 84, g: 139, b: 84, a: 255 }),
        ("springgreen1", Rgba { r: 0, g: 255, b: 127, a: 255 }),
        ("springgreen2", Rgba { r: 0, g: 238, b: 119, a: 255 }),
        ("springgreen3", Rgba { r: 0, g: 205, b: 102, a: 255 }),
        ("springgreen4", Rgba { r: 0, g: 139, b: 69, a: 255 }),
        ("green1", Rgba { r: 0, g: 255, b: 0, a: 255 }),
        ("green2", Rgba { r: 0, g: 238, b: 0, a: 255 }),
        ("green3", Rgba { r: 0, g: 205, b: 0, a: 255 }),
        ("green4", Rgba { r: 0, g: 139, b: 0, a: 255 }),
        ("chartreuse1", Rgba { r: 127, g: 255, b: 0, a: 255 }),
        ("chartreuse2", Rgba { r: 119, g: 238, b: 0, a: 255 }),
        ("chartreuse3", Rgba { r: 102, g: 205, b: 0, a: 255 }),
        ("chartreuse4", Rgba { r: 69, g: 139, b: 0, a: 255 }),
        ("olivedrab1", Rgba { r: 192, g: 255, b: 63, a: 255 }),
        ("olivedrab2", Rgba { r: 179, g: 238, b: 59, a: 255 }),
    ]
}

fn push_part_7(t: &mut Vec<(&'static str, Rgba)>)
    ensures
        final(t)@ == old(t)@ + part_colors_7(),
{
    t.push(("lightblue3", Rgba { r: 154, g: 192, b: 205, a: 255 }));
    t.push(("lightblue4", Rgba { r: 105, g: 130, b: 139, a: 255 }));
    t.push(("lightcyan1", Rgba { r: 224, g: 255, b: 255, a: 255 }));
    t.push(("lightcyan2", Rgba { r: 209, g: 238, b: 238, a: 255 }));
    t.push(("lightcyan3", Rgba { r: 180, g: 205, b: 205, a: 255 }));
    t.push(("lightcyan4", Rgba { r: 122, g: 139, b: 139, a: 255 }));
    t.push(("paleturquoise1", Rgba { r: 188, g: 255, b: 255, a: 255 }));
    t.push(("paleturquoise2", Rgba { r: 175, g: 238, b: 238, a: 255 }));
    t.push(("paleturquoise3", Rgba { r: 151, g: 205, b: 205, a: 255 }));
    t.push(("paleturquoise4", Rgba { r: 102, g: 139, b: 139, a: 255 }));
    t.push(("cadetblue1", Rgba { r: 151, g: 252, b: 255, a: 255 }));
    t.push(("cadetblue2", Rgba { r: 141, g: 235, b: 238, a: 255 }));
    t.push(("cadetblue3", Rgba { r: 121, g: 203, b: 205, a: 255 }));
    t.push(("cadetblue4", Rgba { r: 82, g: 137, b: 139, a: 255 }));
    t.push(("turquoise1", Rgba { r: 73, g: 255, b: 237, a: 255 }));
    t.push(("turquoise2", Rgba { r: 68, g: 238, b: 221, a: 255 }));
    t.push(("turquoise3", Rgba { r: 59, g: 205, b: 191, a: 255 }));
    t.push(("turquoise4", Rgba { r: 40, g: 139, b: 129, a: 255 }));
    t.push(("cyan1", Rgba { r: 0, g: 255, b: 255, a: 255 }));
    t.push(("cyan2", Rgba { r: 0, g: 238, b: 238, a: 255 }));
    t.push(("cyan3", Rgba { r: 0, g: 205, b: 205, a: 255 }));
    t.push(("cyan4", Rgba { r: 0, g: 139, b: 139, a: 255 }));
    t.push(("darkslategray1", Rgba { r: 152, g: 255, b: 255, a: 255 }));
    t.push(("darkslategray2", Rgba { r: 142, g: 238, b: 238, a: 255 }));
    t.push(("darkslategray3", Rgba { r: 122, g: 205, b: 205, a: 255 }));
    t.push(("darkslategray4", Rgba { r: 83, g: 139, b: 139, a: 255 }));
    t.push(("aquamarine1", Rgba { r: 127, g: 255, b: 212, a: 255 }));
    t.push(("aquamarine2", Rgba { r: 119, g: 238, b: 198, a: 255 }));
    t.push(("aquamarine3", Rgba { r: 102, g: 205, b: 170, a: 255 }));
    t.push(("aquamarine4", Rgba { r: 69, g: 139, b: 116, a: 255 }));
    t.push(("darkseagreen1", Rgba { r: 194, g: 255, b: 194, a: 255 }));
    t.push(("darkseagreen2", Rgba { r: 181, g: 238, b: 181, a: 255 }));
    t.push(("darkseagreen3", Rgba { r: 156, g: 205, b: 156, a: 255 }));
    t.push(("darkseagreen4", Rgba { r: 106, g: 139, b: 106, a: 255 }));
    t.push(("seagreen1", Rgba { r: 84, g: 255, b: 160, a: 255 }));
    t.push(("seagreen2", Rgba { r: 78, g: 238, b: 149, a: 255 }));
    t.push(("seagreen3", Rgba { r: 68, g: 205, b: 129, a: 255 }));
    t.push(("seagreen4", Rgba { r: 46, g: 139, b: 87, a: 255 }));
    t.push(("palegreen1", Rgba { r: 154, g: 255, b: 154, a: 255 }));
    t.push(("palegreen2", Rgba { r: 144, g: 238, b: 144, a: 255 }));
    t.push(("palegreen3", Rgba { r: 124, g: 205, b: 124, a: 255 }));
    t.push(("palegreen4", Rgba { r: 84, g: 139, b: 84, a: 255 }));
    t.push(("springgreen1", Rgba { r: 0, g: 255, b: 127, a: 255 }));
    t.push(("springgreen2", Rgba { r: 0, g: 238, b: 119, a: 255 }));
    t.push(("springgreen3", Rgba { r: 0, g: 205, b: 102, a: 255 }));
    t.push(("springgreen4", Rgba { r: 0, g: 139, b: 69, a: 255 }));
    t.push(("green1", Rgba { r: 0, g: 255, b: 0, a: 255 }));
    t.push(("green2", Rgba { r: 0, g: 238, b: 0, a: 255 }));
    t.push(("green3", Rgba { r: 0, g: 205, b: 0, a: 255 }));
    t.push(("green4", Rgba { r: 0, g: 139, b: 0, a: 255 }));
    t.push(("chartreuse1", Rgba { r: 127, g: 255, b: 0, a: 255 }));
    t.push(("chartreuse2", Rgba { r: 119, g: 238, b: 0, a: 255 }));
    t.push(("chartreuse3", Rgba { r: 102, g: 205, b: 0, a: 255 }));
    t.push(("chartreuse4", Rgba { r: 69, g: 139, b: 0, a: 255 }));
    t.push(("olivedrab1", Rgba { r: 192, g: 255, b: 63, a: 255 }));
    t.push(("olivedrab2", Rgba { r: 179, g: 238, b: 59, a: 255 }));
    proof {
        assert(t@ =~= old(t)@ + part_colors_7());
    }
}

pub open spec fn part_colors_8() -> Seq<(&'static str, Rgba)> {
    seq![
        ("olivedrab3", Rgba { r: 154, g: 205, b: 51, a: 255 }),
        ("olivedrab4", Rgba { r: 105, g: 139, b: 34, a: 255 }),
        ("darkolivegreen1", Rgba { r: 203, g: 255, b: 112, a: 255 }),
        ("darkolivegreen2", Rgba { r: 189, g: 238, b: 105, a: 255 }),
        ("darkolivegreen3", Rgba { r: 163, g: 205, b: 90, a: 255 }),
        ("darkolivegreen4", Rgba { r: 111, g: 139, b: 61, a: 255 }),
        ("khaki1", Rgba { r: 255, g: 244, b: 149, a: 255 }),
        ("khaki2", Rgba { r: 238, g: 228, b: 139, a: 255 }),
        ("khaki3", Rgba { r: 205, g: 196, b: 120, a: 255 }),
        ("khaki4", Rgba { r: 139, g: 133, b: 81, a: 255 }),
        ("lightgoldenrod1", Rgba { r: 255, g: 237, b: 139, a: 255 }),
        ("lightgoldenrod2", Rgba { r: 238, g: 221, b: 130, a: 255 }),
        ("lightgoldenrod3", Rgba { r: 205, g: 191, b: 112, a: 255 }),
        ("lightgoldenrod4", Rgba { r: 139, g: 129, b: 76, a: 255 }),
        ("lightyellow1", Rgba { r: 255, g: 255, b: 224, a: 255 }),
        ("lightyellow2", Rgba { r: 238, g: 238, b: 209, a: 255 }),
        ("lightyellow3", Rgba { r: 205, g: 205, b: 180, a: 255 }),
        ("lightyellow4", Rgba { r: 139, g: 139, b: 122, a: 255 }),
        ("yellow1", Rgba { r: 255, g: 255, b: 0, a: 255 }),
        ("yellow2", Rgba { r: 238, g: 238, b: 0, a: 255 }),
        ("yellow3", Rgba { r: 205, g: 205, b: 0, a: 255 }),
        ("yellow4", Rgba { r: 139, g: 139, b: 0, a: 255 }),
        ("gold1", Rgba { r: 255, g: 215, b: 0, a: 255 }),
        ("gold2", Rgba { r: 238, g: 201, b: 0, a: 255 }),
        ("gold3", Rgba { r: 205, g: 173, b: 0, a: 255 }),
        ("gold4", Rgba { r: 139, g: 117, b: 0, a: 255 }),
        ("goldenrod1", Rgba { r: 255, g: 193, b: 37, a: 255 }),
        ("goldenrod2", Rgba { r: 238, g: 180, b: 35, a: 255 }),
        ("goldenrod3", Rgba { r: 205, g: 155, b: 30, a: 255 }),
        ("goldenrod4", Rgba { r: 139, g: 105, b: 20, a: 255 }),
        ("darkgoldenrod1", Rgba { r: 255, g: 186, b: 15, a: 255 }),
        ("darkgoldenrod2", Rgba { r: 238, g: 174, b: 14, a: 255 }),
        ("darkgoldenrod3", Rgba { r: 205, g: 150, b: 12, a: 255 }),
        ("darkgoldenrod4", Rgba { r: 139, g: 101, b: 8, a: 255 }),
        ("rosybrown1", Rgba { r: 255, g: 194, b: 194, a: 255 }),
        ("rosybrown2", Rgba { r: 238, g: 181, b: 181, a: 255 }),
        ("rosybrown3", Rgba { r: 205, g: 156, b: 156, a: 255 }),
        ("rosybrown4", Rgba { r: 139, g: 106, b: 106, a: 255 }),
        ("indianred1", Rgba { r: 255, g: 114, b: 114, a: 255 }),
        ("indianred2", Rgba { r: 238, g: 106, b: 106, a: 255 }),
        ("indianred3", Rgba { r: 205, g: 92, b: 92, a: 255 }),
        ("indianred4", Rgba { r: 139, g: 62, b: 62, a: 255 }),
        ("sienna1", Rgba { r: 255, g: 131, b: 72, a: 255 }),
        ("sienna2", Rgba { r: 238, g: 122, b: 67, a: 255 }),
        ("sienna3", Rgba { r: 205, g: 105, b: 58, a: 255 }),
        ("sienna4", Rgba { r: 139, g: 71, b: 39, a: 255 }),
        ("burlywood1", Rgba { r: 255, g: 211, b: 155, a: 255 }),
        ("burlywood2", Rgba { r: 238, g: 197, b: 145, a: 255 }),
        ("burlywood3", Rgba { r: 205, g: 170, b: 125, a: 255 }),
        ("burlywood4", Rgba { r: 139, g: 115, b: 84, a: 255 }),
        ("wheat1", Rgba { r: 255, g: 231, b: 186, a: 255 }),
        ("wheat2", Rgba { r: 238, g: 216, b: 174, a: 255 }),
        ("wheat3", Rgba { r: 205, g: 186, b: 150, a: 255 }),
        ("wheat4", Rgba { r: 139, g: 126, b: 101, a: 255 }),
        ("tan1", Rgba { r: 255, g: 219, b: 170, a: 255 }),
        ("tan2", Rgba { r: 238, g: 204, b: 159, a: 255 }),
    ]
}

fn push_part_8(t: &mut Vec<(&'static str, Rgba)>)
    ensures
        final(t)@ == old(t)@ + part_colors_8(),
{
    t.push(("olivedrab3", Rgba { r: 154, g: 205, b: 51, a: 255 }));
    t.push(("olivedrab4", Rgba { r: 105, g: 139, b: 34, a: 255 }));
    t.push(("darkolivegreen1", Rgba { r: 203, g: 255, b: 112, a: 255 }));
    t.push(("darkolivegreen2", Rgba { r: 189, g: 238, b: 105, a: 255 }));
    t.push(("darkolivegreen3", Rgba { r: 163, g: 205, b: 90, a: 255 }));
    t.push(("darkolivegreen4", Rgba { r: 111, g: 139, b: 61, a: 255 }));
    t.push(("khaki1", Rgba { r: 255, g: 244, b: 149, a: 255 }));
    t.push(("khaki2", Rgba { r: 238, g: 228, b: 139, a: 255 }));
    t.push(("khaki3", Rgba { r: 205, g: 196, b: 120, a: 255 }));
    t.push(("khaki4", Rgba { r: 139, g: 133, b: 81, a: 255 }));
    t.push(("lightgoldenrod1", Rgba { r: 255, g: 237, b: 139, a: 255 }));
    t.push(("lightgoldenrod2", Rgba { r: 238, g: 221, b: 130, a: 255 }));
    t.push(("lightgoldenrod3", Rgba { r: 205, g: 191, b: 112, a: 255 }));
    t.push(("lightgoldenrod4", Rgba { r: 139, g: 129, b: 76, a: 255 }));
    t.push(("lightyellow1", Rgba { r: 255, g: 255, b: 224, a: 255 }));
    t.push(("lightyellow2", Rgba { r: 238, g: 238, b: 209, a: 255 }));
    t.push(("lightyellow3", Rgba { r: 205, g: 205, b: 180, a: 255 }));
    t.push(("lightyellow4", Rgba { r: 139, g: 139, b: 122, a: 255 }));
    t.push(("yellow1", Rgba { r: 255, g: 255, b: 0, a: 255 }));
    t.push(("yellow2", Rgba { r: 238, g: 238, b: 0, a: 255 }));
    t.push(("yellow3", Rgba { r: 205, g: 205, b: 0, a: 255 }));
    t.push(("yellow4", Rgba { r: 139, g: 139, b: 0, a: 255 }));
    t.push(("gold1", Rgba { r: 255, g: 215, b: 0, a: 255 }));
    t.push(("gold2", Rgba { r: 238, g: 201, b: 0, a: 255 }));
    t.push(("gold3", Rgba { r: 205, g: 173, b: 0, a: 255 }));
    t.push(("gold4", Rgba { r: 139, g: 117, b: 0, a: 255 }));
    t.push(("goldenrod1", Rgba { r: 255, g: 193, b: 37, a: 255 }));
    t.push(("goldenrod2", Rgba { r: 238, g: 180, b: 35, a: 255 }));
    t.push(("goldenrod3", Rgba { r: 205, g: 155, b: 30, a: 255 }));
    t.push(("goldenrod4", Rgba { r: 139, g: 105, b: 20, a: 255 }));
    t.push(("darkgoldenrod1", Rgba { r: 255, g: 186, b: 15, a: 255 }));
    t.push(("darkgoldenrod2", Rgba { r: 238, g: 174, b: 14, a: 255 }));
    t.push(("darkgoldenrod3", Rgba { r: 205, g: 150, b: 12, a: 255 }));
    t.push(("darkgoldenrod4", Rgba { r: 139, g: 101, b: 8, a: 255 }));
    t.push(("rosybrown1", Rgba { r: 255, g: 194, b: 194, a: 255 }));
    t.push(("rosybrown2", Rgba { r: 238, g: 181, b: 181, a: 255 }));
    t.push(("rosybrown3", Rgba { r: 205, g: 156, b: 156, a: 255 }));
    t.push(("rosybrown4", Rgba { r: 139, g: 106, b: 106, a: 255 }));
    t.push(("indianred1", Rgba { r: 255, g: 114, b: 114, a: 255 }));
    t.push(("indianred2", Rgba { r: 238, g: 106, b: 106, a: 255 }));
    t.push(("indianred3", Rgba { r: 205, g: 92, b: 92, a: 255 }));
    t.push(("indianred4", Rgba { r: 139, g: 62, b: 62, a: 255 }));
    t.push(("sienna1", Rgba { r: 255, g: 131, b: 72, a: 255 }));
    t.push(("sienna2", Rgba { r: 238, g: 122, b: 67, a: 255 }));
    t.push(("sienna3", Rgba { r: 205, g: 105, b: 58, a: 255 }));
    t.push(("sienna4", Rgba { r: 139, g: 71, b: 39, a: 255 }));
    t.push(("burlywood1", Rgba { r: 255, g: 211, b: 155, a: 255 }));
    t.push(("burlywood2", Rgba { r: 238, g: 197, b: 145, a: 255 }));
    t.push(("burlywood3", Rgba { r: 205, g: 170, b: 125, a: 255 }));
    t.push(("burlywood4", Rgba { r: 139, g: 115, b: 84, a: 255 }));
    t.push(("wheat1", Rgba { r: 255, g: 231, b: 186, a: 255 }));
    t.push(("wheat2", Rgba { r: 238, g: 216, b: 174, a: 255 }));
    t.push(("wheat3", Rgba { r: 205, g: 186, b: 150, a: 255 }));
    t.push(("wheat4", Rgba { r: 139, g: 126, b: 101, a: 255 }));
    t.push(("tan1", Rgba { r: 255, g: 219, b: 170, a: 255 }));
    t.push(("tan2", Rgba { r: 238, g: 204, b: 159, a: 255 }));
    proof {
        assert(t@ =~= old(t)@ + part_colors_8());
    }
}

pub open spec fn part_colors_9() -> Seq<(&'static str, Rgba)> {
    seq![
        ("tan3", Rgba { r: 205, g: 176, b: 137, a: 255 }),
        ("tan4", Rgba { r: 139, g: 119, b: 93, a: 255 }),
        ("chocolate1", Rgba { r: 255, g: 128, b: 36, a: 255 }),
        ("chocolate2", Rgba { r: 238, g: 119, b: 34, a: 255 }),
        ("chocolate3", Rgba { r: 205, g: 103, b: 29, a: 255 }),
        ("chocolate4", Rgba { r: 139, g: 70, b: 20, a: 255 }),
        ("firebrick1", Rgba { r: 255, g: 49, b: 49, a: 255 }),
        ("firebrick2", Rgba { r: 238, g: 46, b: 46, a: 255 }),
        ("firebrick3", Rgba { r: 205, g: 39, b: 39, a: 255 }),
        ("firebrick4", Rgba { r: 139, g: 27, b: 27, a: 255 }),
        ("brown1", Rgba { r: 255, g: 65, b: 65, a: 255 }),
        ("brown2", Rgba { r: 238, g: 61, b: 61, a: 255 }),
        ("brown3", Rgba { r: 205, g: 52, b: 52, a: 255 }),
        ("brown4", Rgba { r: 139, g: 35, b: 35, a: 255 }),
        ("salmon1", Rgba { r: 255, g: 131, b: 116, a: 255 }),
        ("salmon2", Rgba { r: 238, g: 122, b: 108, a: 255 }),
        ("salmon3", Rgba { r: 205, g: 105, b: 93, a: 255 }),
        ("salmon4", Rgba { r: 139, g: 71, b: 63, a: 255 }),
        ("lightsalmon1", Rgba { r: 255, g: 160, b: 122, a: 255 }),
        ("lightsalmon2", Rgba { r: 238, g: 149, b: 114, a: 255 }),
        ("lightsalmon3", Rgba { r: 205, g: 129, b: 98, a: 255 }),
        ("lightsalmon4", Rgba { r: 139, g: 87, b: 67, a: 255 }),
        ("orange1", Rgba { r: 255, g: 165, b: 0, a: 255 }),
        ("orange2", Rgba { r: 238, g: 154, b: 0, a: 255 }),
        ("orange3", Rgba { r: 205, g: 133, b: 0, a: 255 }),
        ("orange4", Rgba { r: 139, g: 90, b: 0, a: 255 }),
        ("darkorange1", Rgba { r: 255, g: 140, b: 0, a: 255 }),
        ("darkorange2", Rgba { r: 238, g: 131, b: 0, a: 255 }),
        ("darkorange3", Rgba { r: 205, g: 113, b: 0, a: 255 }),
        ("darkorange4", Rgba { r: 139, g: 76, b: 0, a: 255 }),
        ("coral1", Rgba { r: 255, g: 127, b: 80, a: 255 }),
        ("coral2", Rgba { r: 238, g: 119, b: 75, a: 255 }),
        ("coral3", Rgba { r: 205, g: 102, b: 64, a: 255 }),
        ("coral4", Rgba { r: 139, g: 69, b: 44, a: 255 }),
        ("tomato1", Rgba { r: 255, g: 99, b: 71, a: 255 }),
        ("tomato2", Rgba { r: 238, g: 92, b: 66, a: 255 }),
        ("tomato3", Rgba { r: 205, g: 80, b: 57, a: 255 }),
        ("tomato4", Rgba { r: 139, g: 54, b: 39, a: 255 }),
        ("orangered1", Rgba { r: 255, g: 69, b: 0, a: 255 }),
        ("orangered2", Rgba { r: 238, g: 64, b: 0, a: 255 }),
        ("orangered3", Rgba { r: 205, g: 55, b: 0, a: 255 }),
        ("orangered4", Rgba { r: 139, g: 38, b: 0, a: 255 }),
        ("red1", Rgba { r: 255, g: 0, b: 0, a: 255 }),
        ("red2", Rgba { r: 238, g: 0, b: 0, a: 255 }),
        ("red3", Rgba { r: 205, g: 0, b: 0, a: 255 }),
        ("red4", Rgba { r: 139, g: 0, b: 0, a: 255 }),
        ("deeppink1", Rgba { r: 255, g: 20, b: 147, a: 255 }),
        ("deeppink2", Rgba { r: 238, g: 19, b: 137, a: 255 }),
        ("deeppink3", Rgba { r: 205, g: 16, b: 118, a: 255 }),
        ("deeppink4", Rgba { r: 139, g: 11, b: 80, a: 255 }),
        ("hotpink1", Rgba { r: 255, g: 105, b: 180, a: 255 }),
        ("hotpink2", Rgba { r: 238, g: 98, b: 168, a: 255 }),
        ("hotpink3", Rgba { r: 205, g: 84, b: 145, a: 255 }),
        ("hotpink4", Rgba { r: 139, g: 57, b: 98, a: 255 }),
        ("pink1", Rgba { r: 255, g: 192, b: 203, a: 255 }),
        ("pink2", Rgba { r: 238, g: 179, b: 189, a: 255 }),
    ]
}

fn push_part_9(t: &mut Vec<(&'static str, Rgba)>)
    ensures
        final(t)@ == old(t)@ + part_colors_9(),
{
    t.push(("tan3", Rgba { r: 205, g: 176, b: 137, a: 255 }));
    t.push(("tan4", Rgba { r: 139, g: 119, b: 93, a: 255 }));
    t.push(("chocolate1", Rgba { r: 255, g: 128, b: 36, a: 255 }));
    t.push(("chocolate2", Rgba { r: 238, g: 119, b: 34, a: 255 }));
    t.push(("chocolate3", Rgba { r: 205, g: 103, b: 29, a: 255 }));
    t.push(("chocolate4", Rgba { r: 139, g: 70, b: 20, a: 255 }));
    t.push(("firebrick1", Rgba { r: 255, g: 49, b: 49, a: 255 }));
    t.push(("firebrick2", Rgba { r: 238, g: 46, b: 46, a: 255 }));
    t.push(("firebrick3", Rgba { r: 205, g: 39, b: 39, a: 255 }));
    t.push(("firebrick4", Rgba { r: 139, g: 27, b: 27, a: 255 }));
    t.push(("brown1", Rgba { r: 255, g: 65, b: 65, a: 255 }));
    t.push(("brown2", Rgba { r: 238, g: 61, b: 61, a: 255 }));
    t.push(("brown3", Rgba { r: 205, g: 52, b: 52, a: 255 }));
    t.push(("brown4", Rgba { r: 139, g: 35, b: 35, a: 255 }));
    t.push(("salmon1", Rgba { r: 255, g: 131, b: 116, a: 255 }));
    t.push(("salmon2", Rgba { r: 238, g: 122, b: 108, a: 255 }));
    t.push(("salmon3", Rgba { r: 205, g: 105, b: 93, a: 255 }));
    t.push(("salmon4", Rgba { r: 139, g: 71, b: 63, a: 255 }));
    t.push(("lightsalmon1", Rgba { r: 255, g: 160, b: 122, a: 255 }));
    t.push(("lightsalmon2", Rgba { r: 238, g: 149, b: 114, a: 255 }));
    t.push(("lightsalmon3", Rgba { r: 205, g: 129, b: 98, a: 255 }));
    t.push(("lightsalmon4", Rgba { r: 139, g: 87, b: 67, a: 255 }));
    t.push(("orange1", Rgba { r: 255, g: 165, b: 0, a: 255 }));
    t.push(("orange2", Rgba { r: 238, g: 154, b: 0, a: 255 }));
    t.push(("orange3", Rgba { r: 205, g: 133, b: 0, a: 255 }));
    t.push(("orange4", Rgba { r: 139, g: 90, b: 0, a: 255 }));
    t.push(("darkorange1", Rgba { r: 255, g: 140, b: 0, a: 255 }));
    t.push(("darkorange2", Rgba { r: 238, g: 131, b: 0, a: 255 }));
    t.push(("darkorange3", Rgba { r: 205, g: 113, b: 0, a: 255 }));
    t.push(("darkorange4", Rgba { r: 139, g: 76, b: 0, a: 255 }));
    t.push(("coral1", Rgba { r: 255, g: 127, b: 80, a: 255 }));
    t.push(("coral2", Rgba { r: 238, g: 119, b: 75, a: 255 }));
    t.push(("coral3", Rgba { r: 205, g: 102, b: 64, a: 255 }));
    t.push(("coral4", Rgba { r: 139, g: 69, b: 44, a: 255 }));
    t.push(("tomato1", Rgba { r: 255, g: 99, b: 71, a: 255 }));
    t.push(("tomato2", Rgba { r: 238, g: 92, b: 66, a: 255 }));
    t.push(("tomato3", Rgba { r: 205, g: 80, b: 57, a: 255 }));
    t.push(("tomato4", Rgba { r: 139, g: 54, b: 39, a: 255 }));
    t.push(("orangered1", Rgba { r: 255, g: 69, b: 0, a: 255 }));
    t.push(("orangered2", Rgba { r: 238, g: 64, b: 0, a: 255 }));
    t.push(("orangered3", Rgba { r: 205, g: 55, b: 0, a: 255 }));
    t.push(("orangered4", Rgba { r: 139, g: 38, b: 0, a: 255 }));
    t.push(("red1", Rgba { r: 255, g: 0, b: 0, a: 255 }));
    t.push(("red2", Rgba { r: 238, g: 0, b: 0, a: 255 }));
    t.push(("red3", Rgba { r: 205, g: 0, b: 0, a: 255 }));
    t.push(("red4", Rgba { r: 139, g: 0, b: 0, a: 255 }));
    t.push(("deeppink1", Rgba { r: 255, g: 20, b: 147, a: 255 }));
    t.push(("deeppink2", Rgba { r: 238, g: 19, b: 137, a: 255 }));
    t.push(("deeppink3", Rgba { r: 205, g: 16, b: 118, a: 255 }));
    t.push(("deeppink4", Rgba { r: 139, g: 11, b: 80, a: 255 }));
    t.push(("hotpink1", Rgba { r: 255, g: 105, b: 180, a: 255 }));
    t.push(("hotpink2", Rgba { r: 238, g: 98, b: 168, a: 255 }));
    t.push(("hotpink3", Rgba { r: 205, g: 84, b: 145, a: 255 }));
    t.push(("hotpink4", Rgba { r: 139, g: 57, b: 98, a: 255 }));
    t.push(("pink1", Rgba { r: 255, g: 192, b: 203, a: 255 }));
    t.push(("pink2", Rgba { r: 238, g: 179, b: 189, a: 255 }));
    proof {
        assert(t@ =~= old(t)@ + part_colors_9());
    }
}

pub open spec fn part_colors_10() -> Seq<(&'static str, Rgba)> {
    seq![
        ("pink3", Rgba { r: 205, g: 154, b: 163, a: 255 }),
        ("pink4", Rgba { r: 139, g: 105, b: 111, a: 255 }),
        ("lightpink1", Rgba { r: 255, g: 182, b: 193, a: 255 }),
        ("lightpink2", Rgba { r: 238, g: 170, b: 180, a: 255 }),
        ("lightpink3", Rgba { r: 205, g: 146, b: 155, a: 255 }),
        ("lightpink4", Rgba { r: 139, g: 99, b: 105, a: 255 }),
        ("palevioletred1", Rgba { r: 255, g: 130, b: 171, a: 255 }),
        ("palevioletred2", Rgba { r: 238, g: 121, b: 160, a: 255 }),
        ("palevioletred3", Rgba { r: 205, g: 105, b: 137, a: 255 }),
        ("palevioletred4", Rgba { r: 139, g: 71, b: 93, a: 255 }),
        ("maroon1", Rgba { r: 255, g: 70, b: 139, a: 255 }),
        ("maroon2", Rgba { r: 238, g: 65, b: 130, a: 255 }),
        ("maroon3", Rgba { r: 205, g: 56, b: 112, a: 255 }),
        ("maroon4", Rgba { r: 139, g: 38, b: 76, a: 255 }),
        ("violetred1", Rgba { r: 255, g: 39, b: 177, a: 255 }),
        ("violetred2", Rgba { r: 238, g: 36, b: 165, a: 255 }),
        ("violetred3", Rgba { r: 205, g: 31, b: 142, a: 255 }),
        ("violetred4", Rgba { r: 139, g: 21, b: 96, a: 255 }),
        ("magenta1", Rgba { r: 255, g: 0, b: 255, a: 255 }),
        ("magenta2", Rgba { r: 238, g: 0, b: 238, a: 255 }),
        ("magenta3", Rgba { r: 205, g: 0, b: 205, a: 255 }),
        ("magenta4", Rgba { r: 139, g: 0, b: 139, a: 255 }),
        ("orchid1", Rgba { r: 255, g: 131, b: 250, a: 255 }),
        ("orchid2", Rgba { r: 238, g: 122, b: 233, a: 255 }),
        ("orchid3", Rgba { r: 205, g: 105, b: 201, a: 255 }),
        ("orchid4", Rgba { r: 139, g: 71, b: 136, a: 255 }),
        ("plum1", Rgba { r: 255, g: 185, b: 255, a: 255 }),
        ("plum2", Rgba { r: 238, g: 173, b: 238, a: 255 }),
        ("plum3", Rgba { r: 205, g: 149, b: 205, a: 255 }),
        ("plum4", Rgba { r: 139, g: 101, b: 139, a: 255 }),
        ("mediumorchid1", Rgba { r: 225, g: 103, b: 255, a: 255 }),
        ("mediumorchid2", Rgba { r: 210, g: 96, b: 238, a: 255 }),
        ("mediumorchid3", Rgba { r: 181, g: 83, b: 205, a: 255 }),
        ("mediumorchid4", Rgba { r: 123, g: 56, b: 139, a: 255 }),
        ("darkorchid1", Rgba { r: 191, g: 62, b: 255, a: 255 }),
        ("darkorchid2", Rgba { r: 178, g: 58, b: 238, a: 255 }),
        ("darkorchid3", Rgba { r: 154, g: 50, b: 205, a: 255 }),
        ("darkorchid4", Rgba { r: 104, g: 34, b: 139, a: 255 }),
        ("purple1", Rgba { r: 170, g: 34, b: 255, a: 255 }),
        ("purple2", Rgba { r: 159, g: 32, b: 238, a: 255 }),
        ("purple3", Rgba { r: 137, g: 27, b: 205, a: 255 }),
        ("purple4", Rgba { r: 93, g: 19, b: 139, a: 255 }),
        ("mediumpurple1", Rgba { r: 171, g: 130, b: 255, a: 255 }),
        ("mediumpurple2", Rgba { r: 160, g: 121, b: 238, a: 255 }),
        ("mediumpurple3", Rgba { r: 137, g: 105, b: 205, a: 255 }),
        ("mediumpurple4", Rgba { r: 93, g: 71, b: 139, a: 255 }),
        ("thistle1", Rgba { r: 255, g: 225, b: 255, a: 255 }),
        ("thistle2", Rgba { r: 238, g: 210, b: 238, a: 255 }),
        ("thistle3", Rgba { r: 205, g: 181, b: 205, a: 255 }),
        ("thistle4", Rgba { r: 139, g: 123, b: 139, a: 255 }),
        ("gray0", Rgba { r: 0, g: 0, b: 0, a: 255 }),
        ("grey0", Rgba { r: 0, g: 0, b: 0, a: 255 }),
        ("gray1", Rgba { r: 3, g: 3, b: 3, a: 255 }),
        ("grey1", Rgba { r: 3, g: 3, b: 3, a: 255 }),
        ("gray2", Rgba { r: 5, g: 5, b: 5, a: 255 }),
        ("grey2", Rgba { r: 5, g: 5, b: 5, a: 255 }),
    ]
}

fn push_part_10(t: &mut Vec<(&'static str, Rgba)>)
    ensures
        final(t)@ == old(t)@ + part_colors_10(),
{
    t.push(("pink3", Rgba { r: 205, g: 154, b: 163, a: 255 }));
    t.push(("pink4", Rgba { r: 139, g: 105, b: 111, a: 255 }));
    t.push(("lightpink1", Rgba { r: 255, g: 182, b: 193, a: 255 }));
    t.push(("lightpink2", Rgba { r: 238, g: 170, b: 180, a: 255 }));
    t.push(("lightpink3", Rgba { r: 205, g: 146, b: 155, a: 255 }));
    t.push(("lightpink4", Rgba { r: 139, g: 99, b: 105, a: 255 }));
    t.push(("palevioletred1", Rgba { r: 255, g: 130, b: 171, a: 255 }));
    t.push(("palevioletred2", Rgba { r: 238, g: 121, b: 160, a: 255 }));
    t.push(("palevioletred3", Rgba { r: 205, g: 105, b: 137, a: 255 }));
    t.push(("palevioletred4", Rgba { r: 139, g: 71, b: 93, a: 255 }));
    t.push(("maroon1", Rgba { r: 255, g: 70, b: 139, a: 255 }));
    t.push(("maroon2", Rgba { r: 238, g: 65, b: 130, a: 255 }));
    t.push(("maroon3", Rgba { r: 205, g: 56, b: 112, a: 255 }));
    t.push(("maroon4", Rgba { r: 139, g: 38, b: 76, a: 255 }));
    t.push(("violetred1", Rgba { r: 255, g: 39, b: 177, a: 255 }));
    t.push(("violetred2", Rgba { r: 238, g: 36, b: 165, a: 255 }));
    t.push(("violetred3", Rgba { r: 205, g: 31, b: 142, a: 255 }));
    t.push(("violetred4", Rgba { r: 139, g: 21, b: 96, a: 255 }));
    t.push(("magenta1", Rgba { r: 255, g: 0, b: 255, a: 255 }));
    t.push(("magenta2", Rgba { r: 238, g: 0, b: 238, a: 255 }));
    t.push(("magenta3", Rgba { r: 205, g: 0, b: 205, a: 255 }));
    t.push(("magenta4", Rgba { r: 139, g: 0, b: 139, a: 255 }));
    t.push(("orchid1", Rgba { r: 255, g: 131, b: 250, a: 255 }));
    t.push(("orchid2", Rgba { r: 238, g: 122, b: 233, a: 255 }));
    t.push(("orchid3", Rgba { r: 205, g: 105, b: 201, a: 255 }));
    t.push(("orchid4", Rgba { r: 139, g: 71, b: 136, a: 255 }));
    t.push(("plum1", Rgba { r: 255, g: 185, b: 255, a: 255 }));
    t.push(("plum2", Rgba { r: 238, g: 173, b: 238, a: 255 }));
    t.push(("plum3", Rgba { r: 205, g: 149, b: 205, a: 255 }));
    t.push(("plum4", Rgba { r: 139, g: 101, b: 139, a: 255 }));
    t.push(("mediumorchid1", Rgba { r: 225, g: 103, b: 255, a: 255 }));
    t.push(("mediumorchid2", Rgba { r: 210, g: 96, b: 238, a: 255 }));
    t.push(("mediumorchid3", Rgba { r: 181, g: 83, b: 205, a: 255 }));
    t.push(("mediumorchid4", Rgba { r: 123, g: 56, b: 139, a: 255 }));
    t.push(("darkorchid1", Rgba { r: 191, g: 62, b: 255, a: 255 }));
    t.push(("darkorchid2", Rgba { r: 178, g: 58, b: 238, a: 255 }));
    t.push(("darkorchid3", Rgba { r: 154, g: 50, b: 205, a: 255 }));
    t.push(("darkorchid4", Rgba { r: 104, g: 34, b: 139, a: 255 }));
    t.push(("purple1", Rgba { r: 170, g: 34, b: 255, a: 255 }));
    t.push(("purple2", Rgba { r: 159, g: 32, b: 238, a: 255 }));
    t.push(("purple3", Rgba { r: 137, g: 27, b: 205, a: 255 }));
    t.push(("purple4", Rgba { r: 93, g: 19, b: 139, a: 255 }));
    t.push(("mediumpurple1", Rgba { r: 171, g: 130, b: 255, a: 255 }));
    t.push(("mediumpurple2", Rgba { r: 160, g: 121, b: 238, a: 255 }));
    t.push(("mediumpurple3", Rgba { r: 137, g: 105, b: 205, a: 255 }));
    t.push(("mediumpurple4", Rgba { r: 93, g: 71, b: 139, a: 255 }));
    t.push(("thistle1", Rgba { r: 255, g: 225, b: 255, a: 255 }));
    t.push(("thistle2", Rgba { r: 238, g: 210, b: 238, a: 255 }));
    t.push(("thistle3", Rgba { r: 205, g: 181, b: 205, a: 255 }));
    t.push(("thistle4", Rgba { r: 139, g: 123, b: 139, a: 255 }));
    t.push(("gray0", Rgba { r: 0, g: 0, b: 0, a: 255 }));
    t.push(("grey0", Rgba { r: 0, g: 0, b: 0, a: 255 }));
    t.push(("gray1", Rgba { r: 3, g: 3, b: 3, a: 255 }));
    t.push(("grey1", Rgba { r: 3, g: 3, b: 3, a: 255 }));
    t.push(("gray2", Rgba { r: 5, g: 5, b: 5, a: 255 }));
    t.push(("grey2", Rgba { r: 5, g: 5, b: 5, a: 255 }));
    proof {
        assert(t@ =~= old(t)@ + part_colors_10());
    }
}

pub open spec fn part_colors_11() -> Seq<(&'static str, Rgba)> {
    seq![
        ("gray3", Rgba { r: 8, g: 8, b: 8, a: 255 }),
        ("grey3", Rgba { r: 8, g: 8, b: 8, a: 255 }),
        ("gray4", Rgba { r: 10, g: 10, b: 10, a: 255 }),
        ("grey4", Rgba { r: 10, g: 10, b: 10, a: 255 }),
        ("gray5", Rgba { r: 13, g: 13, b: 13, a: 255 }),
        ("grey5", Rgba { r: 13, g: 13, b: 13, a: 255 }),
        ("gray6", Rgba { r: 15, g: 15, b: 15, a: 255 }),
        ("grey6", Rgba { r: 15, g: 15, b: 15, a: 255 }),
        ("gray7", Rgba { r: 18, g: 18, b: 18, a: 255 }),
        ("grey7", Rgba { r: 18, g: 18, b: 18, a: 255 }),
        ("gray8", Rgba { r: 20, g: 20, b: 20, a: 255 }),
        ("grey8", Rgba { r: 20, g: 20, b: 20, a: 255 }),
        ("gray9", Rgba { r: 23, g: 23, b: 23, a: 255 }),
        ("grey9", Rgba { r: 23, g: 23, b: 23, a: 255 }),
        ("gray10", Rgba { r: 26, g: 26, b: 26, a: 255 }),
        ("grey10", Rgba { r: 26, g: 26, b: 26, a: 255 }),
        ("gray11", Rgba { r: 28, g: 28, b: 28, a: 255 }),
        ("grey11", Rgba { r: 28, g: 28, b: 28, a: 255 }),
        ("gray12", Rgba { r: 31, g: 31, b: 31, a: 255 }),
        ("grey12", Rgba { r: 31, g: 31, b: 31, a: 255 }),
        ("gray13", Rgba { r: 33, g: 33, b: 33, a: 255 }),
        ("grey13", Rgba { r: 33, g: 33, b: 33, a: 255 }),
        ("gray14", Rgba { r: 36, g: 36, b: 36, a: 255 }),
        ("grey14", Rgba { r: 36, g: 36, b: 36, a: 255 }),
        ("gray15", Rgba { r: 38, g: 38, b: 38, a: 255 }),
        ("grey15", Rgba { r: 38, g: 38, b: 38, a: 255 }),
        ("gray16", Rgba { r: 41, g: 41, b: 41, a: 255 }),
        ("grey16", Rgba { r: 41, g: 41, b: 41, a: 255 }),
        ("gray17", Rgba { r: 43, g: 43, b: 43, a: 255 }),
        ("grey17", Rgba { r: 43, g: 43, b: 43, a: 255 }),
        ("gray18", Rgba { r: 46, g: 46, b: 46, a: 255 }),
        ("grey18", Rgba { r: 46, g: 46, b: 46, a: 255 }),
        ("gray19", Rgba { r: 48, g: 48, b: 48, a: 255 }),
        ("grey19", Rgba { r: 48, g: 48, b: 48, a: 255 }),
        ("gray20", Rgba { r: 51, g: 51, b: 51, a: 255 }),
        ("grey20", Rgba { r: 51, g: 51, b: 51, a: 255 }),
        ("gray21", Rgba { r: 54, g: 54, b: 54, a: 255 }),
        ("grey21", Rgba { r: 54, g: 54, b: 54, a: 255 }),
        ("gray22", Rgba { r: 56, g: 56, b: 56, a: 255 }),
        ("grey22", Rgba { r: 56, g: 56, b: 56, a: 255 }),
        ("gray23", Rgba { r: 59, g: 59, b: 59, a: 255 }),
        ("grey23", Rgba { r: 59, g: 59, b: 59, a: 255 }),
        ("gray24", Rgba { r: 61, g: 61, b: 61, a: 255 }),
        ("grey24", Rgba { r: 61, g: 61, b: 61, a: 255 }),
        ("gray25", Rgba { r: 64, g: 64, b: 64, a: 255 }),
        ("grey25", Rgba { r: 64, g: 64, b: 64, a: 255 }),
        ("gray26", Rgba { r: 66, g: 66, b: 66, a: 255 }),
        ("grey26", Rgba { r: 66, g: 66, b: 66, a: 255 }),
        ("gray27", Rgba { r: 69, g: 69, b: 69, a: 255 }),
        ("grey27", Rgba { r: 69, g: 69, b: 69, a: 255 }),
        ("gray28", Rgba { r: 71, g: 71, b: 71, a: 255 }),
        ("grey28", Rgba { r: 71, g: 71, b: 71, a: 255 }),
        ("gray29", Rgba { r: 74, g: 74, b: 74, a: 255 }),
        ("grey29", Rgba { r: 74, g: 74, b: 74, a: 255 }),
        ("gray30", Rgba { r: 76, g: 76, b: 76, a: 255 }),
        ("grey30", Rgba { r: 76, g: 76, b: 76, a: 255 }),
    ]
}

fn push_part_11(t: &mut Vec<(&'static str, Rgba)>)
    ensures
        final(t)@ == old(t)@ + part_colors_11(),
{
    t.push(("gray3", Rgba { r: 8, g: 8, b: 8, a: 255 }));
    t.push(("grey3", Rgba { r: 8, g: 8, b: 8, a: 255 }));
    t.push(("gray4", Rgba { r: 10, g: 10, b: 10, a: 255 }));
    t.push(("grey4", Rgba { r: 10, g: 10, b: 10, a: 255 }));
    t.push(("gray5", Rgba { r: 13, g: 13, b: 13, a: 255 }));
    t.push(("grey5", Rgba { r: 13, g: 13, b: 13, a: 255 }));
    t.push(("gray6", Rgba { r: 15, g: 15, b: 15, a: 255 }));
    t.push(("grey6", Rgba { r: 15, g: 15, b: 15, a: 255 }));
    t.push(("gray7", Rgba { r: 18, g: 18, b: 18, a: 255 }));
    t.push(("grey7", Rgba { r: 18, g: 18, b: 18, a: 255 }));
    t.push(("gray8", Rgba { r: 20, g: 20, b: 20, a: 255 }));
    t.push(("grey8", Rgba { r: 20, g: 20, b: 20, a: 255 }));
    t.push(("gray9", Rgba { r: 23, g: 23, b: 23, a: 255 }));
    t.push(("grey9", Rgba { r: 23, g: 23, b: 23, a: 255 }));
    t.push(("gray10", Rgba { r: 26, g: 26, b: 26, a: 255 }));
    t.push(("grey10", Rgba { r: 26, g: 26, b: 26, a: 255 }));
    t.push(("gray11", Rgba { r: 28, g: 28, b: 28, a: 255 }));
    t.push(("grey11", Rgba { r: 28, g: 28, b: 28, a: 255 }));
    t.push(("gray12", Rgba { r: 31, g: 31, b: 31, a: 255 }));
    t.push(("grey12", Rgba { r: 31, g: 31, b: 31, a: 255 }));
    t.push(("gray13", Rgba { r: 33, g: 33, b: 33, a: 255 }));
    t.push(("grey13", Rgba { r: 33, g: 33, b: 33, a: 255 }));
    t.push(("gray14", Rgba { r: 36, g: 36, b: 36, a: 255 }));
    t.push(("grey14", Rgba { r: 36, g: 36, b: 36, a: 255 }));
    t.push(("gray15", Rgba { r: 38, g: 38, b: 38, a: 255 }));
    t.push(("grey15", Rgba { r: 38, g: 38, b: 38, a: 255 }));
    t.push(("gray16", Rgba { r: 41, g: 41, b: 41, a: 255 }));
    t.push(("grey16", Rgba { r: 41, g: 41, b: 41, a: 255 }));
    t.push(("gray17", Rgba { r: 43, g: 43, b: 43, a: 255 }));
    t.push(("grey17", Rgba { r: 43, g: 43, b: 43, a: 255 }));
    t.push(("gray18", Rgba { r: 46, g: 46, b: 46, a: 255 }));
    t.push(("grey18", Rgba { r: 46, g: 46, b: 46, a: 255 }));
    t.push(("gray19", Rgba { r: 48, g: 48, b: 48, a: 255 }));
    t.push(("grey19", Rgba { r: 48, g: 48, b: 48, a: 255 }));
    t.push(("gray20", Rgba { r: 51, g: 51, b: 51, a: 255 }));
    t.push(("grey20", Rgba { r: 51, g: 51, b: 51, a: 255 }));
    t.push(("gray21", Rgba { r: 54, g: 54, b: 54, a: 255 }));
    t.push(("grey21", Rgba { r: 54, g: 54, b: 54, a: 255 }));
    t.push(("gray22", Rgba { r: 56, g: 56, b: 56, a: 255 }));
    t.push(("grey22", Rgba { r: 56, g: 56, b: 56, a: 255 }));
    t.push(("gray23", Rgba { r: 59, g: 59, b: 59, a: 255 }));
    t.push(("grey23", Rgba { r: 59, g: 59, b: 59, a: 255 }));
    t.push(("gray24", Rgba { r: 61, g: 61, b: 61, a: 255 }));
    t.push(("grey24", Rgba { r: 61, g: 61, b: 61, a: 255 }));
    t.push(("gray25", Rgba { r: 64, g: 64, b: 64, a: 255 }));
    t.push(("grey25", Rgba { r: 64, g: 64, b: 64, a: 255 }));
    t.push(("gray26", Rgba { r: 66, g: 66, b: 66, a: 255 }));
    t.push(("grey26", Rgba { r: 66, g: 66, b: 66, a: 255 }));
    t.push(("gray27", Rgba { r: 69, g: 69, b: 69, a: 255 }));
    t.push(("grey27", Rgba { r: 69, g: 69, b: 69, a: 255 }));
    t.push(("gray28", Rgba { r: 71, g: 71, b: 71, a: 255 }));
    t.push(("grey28", Rgba { r: 71, g: 71, b: 71, a: 255 }));
    t.push(("gray29", Rgba { r: 74, g: 74, b: 74, a: 255 }));
    t.push(("grey29", Rgba { r: 74, g: 74, b: 74, a: 255 }));
    t.push(("gray30", Rgba { r: 76, g: 76, b: 76, a: 255 }));
    t.push(("grey30", Rgba { r: 76, g: 76, b: 76, a: 255 }));
    proof {
        assert(t@ =~= old(t)@ + part_colors_11());
    }
}

pub open spec fn part_colors_12() -> Seq<(&'static str, Rgba)> {
    seq![
        ("gray31", Rgba { r: 79, g: 79, b: 79, a: 255 }),
        ("grey31", Rgba { r: 79, g: 79, b: 79, a: 255 }),
        ("gray32", Rgba { r: 82, g: 82, b: 82, a: 255 }),
        ("grey32", Rgba { r: 82, g: 82, b: 82, a: 255 }),
        ("gray33", Rgba { r: 84, g: 84, b: 84, a: 255 }),
        ("grey33", Rgba { r: 84, g: 84, b: 84, a: 255 }),
        ("gray34", Rgba { r: 87, g: 87, b: 87, a: 255 }),
        ("grey34", Rgba { r: 87, g: 87, b: 87, a: 255 }),
        ("gray35", Rgba { r: 89, g: 89, b: 89, a: 255 }),
        ("grey35", Rgba { r: 89, g: 89, b: 89, a: 255 }),
        ("gray36", Rgba { r: 92, g: 92, b: 92, a: 255 }),
        ("grey36", Rgba { r: 92, g: 92, b: 92, a: 255 }),
        ("gray37", Rgba { r: 94, g: 94, b: 94, a: 255 }),
        ("grey37", Rgba { r: 94, g: 94, b: 94, a: 255 }),
        ("gray38", Rgba { r: 97, g: 97, b: 97, a: 255 }),
        ("grey38", Rgba { r: 97, g: 97, b: 97, a: 255 }),
        ("gray39", Rgba { r: 99, g: 99, b: 99, a: 255 }),
        ("grey39", Rgba { r: 99, g: 99, b: 99, a: 255 }),
        ("gray40", Rgba { r: 102, g: 102, b: 102, a: 255 }),
        ("grey40", Rgba { r: 102, g: 102, b: 102, a: 255 }),
        ("gray41", Rgba { r: 105, g: 105, b: 105, a: 255 }),
        ("grey41", Rgba { r: 105, g: 105, b: 105, a: 255 }),
        ("gray42", Rgba { r: 107, g: 107, b: 107, a: 255 }),
        ("grey42", Rgba { r: 107, g: 107, b: 107, a: 255 }),
        ("gray43", Rgba { r: 110, g: 110, b: 110, a: 255 }),
        ("grey43", Rgba { r: 110, g: 110, b: 110, a: 255 }),
        ("gray44", Rgba { r: 112, g: 112, b: 112, a: 255 }),
        ("grey44", Rgba { r: 112, g: 112, b: 112, a: 255 }),
        ("gray45", Rgba { r: 115, g: 115, b: 115, a: 255 }),
        ("grey45", Rgba { r: 115, g: 115, b: 115, a: 255 }),
        ("gray46", Rgba { r: 117, g: 117, b: 117, a: 255 }),
        ("grey46", Rgba { r: 117, g: 117, b: 117, a: 255 }),
        ("gray47", Rgba { r: 120, g: 120, b: 120, a: 255 }),
        ("grey47", Rgba { r: 120, g: 120, b: 120, a: 255 }),
        ("gray48", Rgba { r: 122, g: 122, b: 122, a: 255 }),
        ("grey48", Rgba { r: 122, g: 122, b: 122, a: 255 }),
        ("gray49", Rgba { r: 125, g: 125, b: 125, a: 255 }),
        ("grey49", Rgba { r: 125, g: 125, b: 125, a: 255 }),
        ("gray50", Rgba { r: 128, g: 128, b: 128, a: 255 }),
        ("grey50", Rgba { r: 128, g: 128, b: 128, a: 255 }),
        ("gray51", Rgba { r: 130, g: 130, b: 130, a: 255 }),
        ("grey51", Rgba { r: 130, g: 130, b: 130, a: 255 }),
        ("gray52", Rgba { r: 133, g: 133, b: 133, a: 255 }),
        ("grey52", Rgba { r: 133, g: 133, b: 133, a: 255 }),
        ("gray53", Rgba { r: 135, g: 135, b: 135, a: 255 }),
        ("grey53", Rgba { r: 135, g: 135, b: 135, a: 255 }),
        ("gray54", Rgba { r: 138, g: 138, b: 138, a: 255 }),
        ("grey54", Rgba { r: 138, g: 138, b: 138, a: 255 }),
        ("gray55", Rgba { r: 140, g: 140, b: 140, a: 255 }),
        ("grey55", Rgba { r: 140, g: 140, b: 140, a: 255 }),
        ("gray56", Rgba { r: 143, g: 143, b: 143, a: 255 }),
        ("grey56", Rgba { r: 143, g: 143, b: 143, a: 255 }),
        ("gray57", Rgba { r: 145, g: 145, b: 145, a: 255 }),
        ("grey57", Rgba { r: 145, g: 145, b: 145, a: 255 }),
        ("gray58", Rgba { r: 148, g: 148, b: 148, a: 255 }),
        ("grey58", Rgba { r: 148, g: 148, b: 148, a: 255 }),
    ]
}

fn push_part_12(t: &mut Vec<(&'static str, Rgba)>)
    ensures
        final(t)@ == old(t)@ + part_colors_12(),
{
    t.push(("gray31", Rgba { r: 79, g: 79, b: 79, a: 255 }));
    t.push(("grey31", Rgba { r: 79, g: 79, b: 79, a: 255 }));
    t.push(("gray32", Rgba { r: 82, g: 82, b: 82, a: 255 }));
    t.push(("grey32", Rgba { r: 82, g: 82, b: 82, a: 255 }));
    t.push(("gray33", Rgba { r: 84, g: 84, b: 84, a: 255 }));
    t.push(("grey33", Rgba { r: 84, g: 84, b: 84, a: 255 }));
    t.push(("gray34", Rgba { r: 87, g: 87, b: 87, a: 255 }));
    t.push(("grey34", Rgba { r: 87, g: 87, b: 87, a: 255 }));
    t.push(("gray35", Rgba { r: 89, g: 89, b: 89, a: 255 }));
    t.push(("grey35", Rgba { r: 89, g: 89, b: 89, a: 255 }));
    t.push(("gray36", Rgba { r: 92, g: 92, b: 92, a: 255 }));
    t.push(("grey36", Rgba { r: 92, g: 92, b: 92, a: 255 }));
    t.push(("gray37", Rgba { r: 94, g: 94, b: 94, a: 255 }));
    t.push(("grey37", Rgba { r: 94, g: 94, b: 94, a: 255 }));
    t.push(("gray38", Rgba { r: 97, g: 97, b: 97, a: 255 }));
    t.push(("grey38", Rgba { r: 97, g: 97, b: 97, a: 255 }));
    t.push(("gray39", Rgba { r: 99, g: 99, b: 99, a: 255 }));
    t.push(("grey39", Rgba { r: 99, g: 99, b: 99, a: 255 }));
    t.push(("gray40", Rgba { r: 102, g: 102, b: 102, a: 255 }));
    t.push(("grey40", Rgba { r: 102, g: 102, b: 102, a: 255 }));
    t.push(("gray41", Rgba { r: 105, g: 105, b: 105, a: 255 }));
    t.push(("grey41", Rgba { r: 105, g: 105, b: 105, a: 255 }));
    t.push(("gray42", Rgba { r: 107, g: 107, b: 107, a: 255 }));
    t.push(("grey42", Rgba { r: 107, g: 107, b: 107, a: 255 }));
    t.push(("gray43", Rgba { r: 110, g: 110, b: 110, a: 255 }));
    t.push(("grey43", Rgba { r: 110, g: 110, b: 110, a: 255 }));
    t.push(("gray44", Rgba { r: 112, g: 112, b: 112, a: 255 }));
    t.push(("grey44", Rgba { r: 112, g: 112, b: 112, a: 255 }));
    t.push(("gray45", Rgba { r: 115, g: 115, b: 115, a: 255 }));
    t.push(("grey45", Rgba { r: 115, g: 115, b: 115, a: 255 }));
    t.push(("gray46", Rgba { r: 117, g: 117, b: 117, a: 255 }));
    t.push(("grey46", Rgba { r: 117, g: 117, b: 117, a: 255 }));
    t.push(("gray47", Rgba { r: 120, g: 120, b: 120, a: 255 }));
    t.push(("grey47", Rgba { r: 120, g: 120, b: 120, a: 255 }));
    t.push(("gray48", Rgba { r: 122, g: 122, b: 122, a: 255 }));
    t.push(("grey48", Rgba { r: 122, g: 122, b: 122, a: 255 }));
    t.push(("gray49", Rgba { r: 125, g: 125, b: 125, a: 255 }));
    t.push(("grey49", Rgba { r: 125, g: 125, b: 125, a: 255 }));
    t.push(("gray50", Rgba { r: 128, g: 128, b: 128, a: 255 }));
    t.push(("grey50", Rgba { r: 128, g: 128, b: 128, a: 255 }));
    t.push(("gray51", Rgba { r: 130, g: 130, b: 130, a: 255 }));
    t.push(("grey51", Rgba { r: 130, g: 130, b: 130, a: 255 }));
    t.push(("gray52", Rgba { r: 133, g: 133, b: 133, a: 255 }));
    t.push(("grey52", Rgba { r: 133, g: 133, b: 133, a: 255 }));
    t.push(("gray53", Rgba { r: 135, g: 135, b: 135, a: 255 }));
    t.push(("grey53", Rgba { r: 135, g: 135, b: 135, a: 255 }));
    t.push(("gray54", Rgba { r: 138, g: 138, b: 138, a: 255 }));
    t.push(("grey54", Rgba { r: 138, g: 138, b: 138, a: 255 }));
    t.push(("gray55", Rgba { r: 140, g: 140, b: 140, a: 255 }));
    t.push(("grey55", Rgba { r: 140, g: 140, b: 140, a: 255 }));
    t.push(("gray56", Rgba { r: 143, g: 143, b: 143, a: 255 }));
    t.push(("grey56", Rgba { r: 143, g: 143, b: 143, a: 255 }));
    t.push(("gray57", Rgba { r: 145, g: 145, b: 145, a: 255 }));
    t.push(("grey57", Rgba { r: 145, g: 145, b: 145, a: 255 }));
    t.push(("gray58", Rgba { r: 148, g: 148, b: 148, a: 255 }));
    t.push(("grey58", Rgba { r: 148, g: 148, b: 148, a: 255 }));
    proof {
        assert(t@ =~= old(t)@ + part_colors_12());
    }
}

pub open spec fn part_colors_13() -> Seq<(&'static str, Rgba)> {
    seq![
        ("gray59", Rgba { r: 150, g: 150, b: 150, a: 255 }),
        ("grey59", Rgba { r: 150, g: 150, b: 150, a: 255 }),
        ("gray60", Rgba { r: 153, g: 153, b: 153, a: 255 }),
        ("grey60", Rgba { r: 153, g: 153, b: 153, a: 255 }),
        ("gray61", Rgba { r: 156, g: 156, b: 156, a: 255 }),
        ("grey61", Rgba { r: 156, g: 156, b: 156, a: 255 }),
        ("gray62", Rgba { r: 158, g: 158, b: 158, a: 255 }),
        ("grey62", Rgba { r: 158, g: 158, b: 158, a: 255 }),
        ("gray63", Rgba { r: 161, g: 161, b: 161, a: 255 }),
        ("grey63", Rgba { r: 161, g: 161, b: 161, a: 255 }),
        ("gray64", Rgba { r: 163, g: 163, b: 163, a: 255 }),
        ("grey64", Rgba { r: 163, g: 163, b: 163, a: 255 }),
        ("gray65", Rgba { r: 166, g: 166, b: 166, a: 255 }),
        ("grey65", Rgba { r: 166, g: 166, b: 166, a: 255 }),
        ("gray66", Rgba { r: 168, g: 168, b: 168, a: 255 }),
        ("grey66", Rgba { r: 168, g: 168, b: 168, a: 255 }),
        ("gray67", Rgba { r: 171, g: 171, b: 171, a: 255 }),
        ("grey67", Rgba { r: 171, g: 171, b: 171, a: 255 }),
        ("gray68", Rgba { r: 173, g: 173, b: 173, a: 255 }),
        ("grey68", Rgba { r: 173, g: 173, b: 173, a: 255 }),
        ("gray69", Rgba { r: 176, g: 176, b: 176, a: 255 }),
        ("grey69", Rgba { r: 176, g: 176, b: 176, a: 255 }),
        ("gray70", Rgba { r: 178, g: 178, b: 178, a: 255 }),
        ("grey70", Rgba { r: 178, g: 178, b: 178, a: 255 }),
        ("gray71", Rgba { r: 181, g: 181, b: 181, a: 255 }),
        ("grey71", Rgba { r: 181, g: 181, b: 181, a: 255 }),
        ("gray72", Rgba { r: 184, g: 184, b: 184, a: 255 }),
        ("grey72", Rgba { r: 184, g: 184, b: 184, a: 255 }),
        ("gray73", Rgba { r: 186, g: 186, b: 186, a: 255 }),
        ("grey73", Rgba { r: 186, g: 186, b: 186, a: 255 }),
        ("gray74", Rgba { r: 189, g: 189, b: 189, a: 255 }),
        ("grey74", Rgba { r: 189, g: 189, b: 189, a: 255 }),
        ("gray75", Rgba { r: 191, g: 191, b: 191, a: 255 }),
        ("grey75", Rgba { r: 191, g: 191, b: 191, a: 255 }),
        ("gray76", Rgba { r: 194, g: 194, b: 194, a: 255 }),
        ("grey76", Rgba { r: 194, g: 194, b: 194, a: 255 }),
        ("gray77", Rgba { r: 196, g: 196, b: 196, a: 255 }),
        ("grey77", Rgba { r: 196, g: 196, b: 196, a: 255 }),
        ("gray78", Rgba { r: 199, g: 199, b: 199, a: 255 }),
        ("grey78", Rgba { r: 199, g: 199, b: 199, a: 255 }),
        ("gray79", Rgba { r: 201, g: 201, b: 201, a: 255 }),
        ("grey79", Rgba { r: 201, g: 201, b: 201, a: 255 }),
        ("gray80", Rgba { r: 204, g: 204, b: 204, a: 255 }),
        ("grey80", Rgba { r: 204, g: 204, b: 204, a: 255 }),
        ("gray81", Rgba { r: 207, g: 207, b: 207, a: 255 }),
        ("grey81", Rgba { r: 207, g: 207, b: 207, a: 255 }),
        ("gray82", Rgba { r: 209, g: 209, b: 209, a: 255 }),
        ("grey82", Rgba { r: 209, g: 209, b: 209, a: 255 }),
        ("gray83", Rgba { r: 212, g: 212, b: 212, a: 255 }),
        ("grey83", Rgba { r: 212, g: 212, b: 212, a: 255 }),
        ("gray84", Rgba { r: 214, g: 214, b: 214, a: 255 }),
        ("grey84", Rgba { r: 214, g: 214, b: 214, a: 255 }),
        ("gray85", Rgba { r: 217, g: 217, b: 217, a: 255 }),
        ("grey85", Rgba { r: 217, g: 217, b: 217, a: 255 }),
        ("gray86", Rgba { r: 219, g: 219, b: 219, a: 255 }),
        ("grey86", Rgba { r: 219, g: 219, b: 219, a: 255 }),
    ]
}

fn push_part_13(t: &mut Vec<(&'static str, Rgba)>)
    ensures
        final(t)@ == old(t)@ + part_colors_13(),
{
    t.push(("gray59", Rgba { r: 150, g: 150, b: 150, a: 255 }));
    t.push(("grey59", Rgba { r: 150, g: 150, b: 150, a: 255 }));
    t.push(("gray60", Rgba { r: 153, g: 153, b: 153, a: 255 }));
    t.push(("grey60", Rgba { r: 153, g: 153, b: 153, a: 255 }));
    t.push(("gray61", Rgba { r: 156, g: 156, b: 156, a: 255 }));
    t.push(("grey61", Rgba { r: 156, g: 156, b: 156, a: 255 }));
    t.push(("gray62", Rgba { r: 158, g: 158, b: 158, a: 255 }));
    t.push(("grey62", Rgba { r: 158, g: 158, b: 158, a: 255 }));
    t.push(("gray63", Rgba { r: 161, g: 161, b: 161, a: 255 }));
    t.push(("grey63", Rgba { r: 161, g: 161, b: 161, a: 255 }));
    t.push(("gray64", Rgba { r: 163, g: 163, b: 163, a: 255 }));
    t.push(("grey64", Rgba { r: 163, g: 163, b: 163, a: 255 }));
    t.push(("gray65", Rgba { r: 166, g: 166, b: 166, a: 255 }));
    t.push(("grey65", Rgba { r: 166, g: 166, b: 166, a: 255 }));
    t.push(("gray66", Rgba { r: 168, g: 168, b: 168, a: 255 }));
    t.push(("grey66", Rgba { r: 168, g: 168, b: 168, a: 255 }));
    t.push(("gray67", Rgba { r: 171, g: 171, b: 171, a: 255 }));
    t.push(("grey67", Rgba { r: 171, g: 171, b: 171, a: 255 }));
    t.push(("gray68", Rgba { r: 173, g: 173, b: 173, a: 255 }));
    t.push(("grey68", Rgba { r: 173, g: 173, b: 173, a: 255 }));
    t.push(("gray69", Rgba { r: 176, g: 176, b: 176, a: 255 }));
    t.push(("grey69", Rgba { r: 176, g: 176, b: 176, a: 255 }));
    t.push(("gray70", Rgba { r: 178, g: 178, b: 178, a: 255 }));
    t.push(("grey70", Rgba { r: 178, g: 178, b: 178, a: 255 }));
    t.push(("gray71", Rgba { r: 181, g: 181, b: 181, a: 255 }));
    t.push(("grey71", Rgba { r: 181, g: 181, b: 181, a: 255 }));
    t.push(("gray72", Rgba { r: 184, g: 184, b: 184, a: 255 }));
    t.push(("grey72", Rgba { r: 184, g: 184, b: 184, a: 255 }));
    t.push(("gray73", Rgba { r: 186, g: 186, b: 186, a: 255 }));
    t.push(("grey73", Rgba { r: 186, g: 186, b: 186, a: 255 }));
    t.push(("gray74", Rgba { r: 189, g: 189, b: 189, a: 255 }));
    t.push(("grey74", Rgba { r: 189, g: 189, b: 189, a: 255 }));
    t.push(("gray75", Rgba { r: 191, g: 191, b: 191, a: 255 }));
    t.push(("grey75", Rgba { r: 191, g: 191, b: 191, a: 255 }));
    t.push(("gray76", Rgba { r: 194, g: 194, b: 194, a: 255 }));
    t.push(("grey76", Rgba { r: 194, g: 194, b: 194, a: 255 }));
    t.push(("gray77", Rgba { r: 196, g: 196, b: 196, a: 255 }));
    t.push(("grey77", Rgba { r: 196, g: 196, b: 196, a: 255 }));
    t.push(("gray78", Rgba { r: 199, g: 199, b: 199, a: 255 }));
    t.push(("grey78", Rgba { r: 199, g: 199, b: 199, a: 255 }));
    t.push(("gray79", Rgba { r: 201, g: 201, b: 201, a: 255 }));
    t.push(("grey79", Rgba { r: 201, g: 201, b: 201, a: 255 }));
    t.push(("gray80", Rgba { r: 204, g: 204, b: 204, a: 255 }));
    t.push(("grey80", Rgba { r: 204, g: 204, b: 204, a: 255 }));
    t.push(("gray81", Rgba { r: 207, g: 207, b: 207, a: 255 }));
    t.push(("grey81", Rgba { r: 207, g: 207, b: 207, a: 255 }));
    t.push(("gray82", Rgba { r: 209, g: 209, b: 209, a: 255 }));
    t.push(("grey82", Rgba { r: 209, g: 209, b: 209, a: 255 }));
    t.push(("gray83", Rgba { r: 212, g: 212, b: 212, a: 255 }));
    t.push(("grey83", Rgba { r: 212, g: 212, b: 212, a: 255 }));
    t.push(("gray84", Rgba { r: 214, g: 214, b: 214, a: 255 }));
    t.push(("grey84", Rgba { r: 214, g: 214, b: 214, a: 255 }));
    t.push(("gray85", Rgba { r: 217, g: 217, b: 217, a: 255 }));
    t.push(("grey85", Rgba { r: 217, g: 217, b: 217, a: 255 }));
    t.push(("gray86", Rgba { r: 219, g: 219, b: 219, a: 255 }));
    t.push(("grey86", Rgba { r: 219, g: 219, b: 219, a: 255 }));
    proof {
        assert(t@ =~= old(t)@ + part_colors_13());
    }
}

pub open spec fn part_colors_14() -> Seq<(&'static str, Rgba)> {
    seq![
        ("gray87", Rgba { r: 222, g: 222, b: 222, a: 255 }),
        ("grey87", Rgba { r: 222, g: 222, b: 222, a: 255 }),
        ("gray88", Rgba { r: 224, g: 224, b: 224, a: 255 }),
        ("grey88", Rgba { r: 224, g: 224, b: 224, a: 255 }),
        ("gray89", Rgba { r: 227, g: 227, b: 227, a: 255 }),
        ("grey89", Rgba { r: 227, g: 227, b: 227, a: 255 }),
        ("gray90", Rgba { r: 230, g: 230, b: 230, a: 255 }),
        ("grey90", Rgba { r: 230, g: 230, b: 230, a: 255 }),
        ("gray91", Rgba { r: 232, g: 232, b: 232, a: 255 }),
        ("grey91", Rgba { r: 232, g: 232, b: 232, a: 255 }),
        ("gray92", Rgba { r: 235, g: 235, b: 235, a: 255 }),
        ("grey92", Rgba { r: 235, g: 235, b: 235, a: 255 }),
        ("gray93", Rgba { r: 237, g: 237, b: 237, a: 255 }),
        ("grey93", Rgba { r: 237, g: 237, b: 237, a: 255 }),
        ("gray94", Rgba { r: 240, g: 240, b: 240, a: 255 }),
        ("grey94", Rgba { r: 240, g: 240, b: 240, a: 255 }),
        ("gray95", Rgba { r: 242, g: 242, b: 242, a: 255 }),
        ("grey95", Rgba { r: 242, g: 242, b: 242, a: 255 }),
        ("gray96", Rgba { r: 245, g: 245, b: 245, a: 255 }),
        ("grey96", Rgba { r: 245, g: 245, b: 245, a: 255 }),
        ("gray97", Rgba { r: 247, g: 247, b: 247, a: 255 }),
        ("grey97", Rgba { r: 247, g: 247, b: 247, a: 255 }),
        ("gray98", Rgba { r: 250, g: 250, b: 250, a: 255 }),
        ("grey98", Rgba { r: 250, g: 250, b: 250, a: 255 }),
        ("gray99", Rgba { r: 252, g: 252, b: 252, a: 255 }),
        ("grey99", Rgba { r: 252, g: 252, b: 252, a: 255 }),
        ("gray100", Rgba { r: 255, g: 255, b: 255, a: 255 }),
        ("grey100", Rgba { r: 255, g: 255, b: 255, a: 255 }),
        ("dark_grey", Rgba { r: 169, g: 169, b: 169, a: 255 }),
        ("darkgrey", Rgba { r: 169, g: 169, b: 169, a: 255 }),
        ("dark_gray", Rgba { r: 169, g: 169, b: 169, a: 255 }),
        ("darkgray", Rgba { r: 169, g: 169, b: 169, a: 255 }),
        ("dark_blue", Rgba { r: 0, g: 0, b: 139, a: 255 }),
        ("darkblue", Rgba { r: 0, g: 0, b: 139, a: 255 }),
        ("dark_cyan", Rgba { r: 0, g: 139, b: 139, a: 255 }),
        ("darkcyan", Rgba { r: 0, g: 139, b: 139, a: 255 }),
        ("dark_magenta", Rgba { r: 139, g: 0, b: 139, a: 255 }),
        ("darkmagenta", Rgba { r: 139, g: 0, b: 139, a: 255 }),
        ("dark_red", Rgba { r: 139, g: 0, b: 0, a: 255 }),
        ("darkred", Rgba { r: 139, g: 0, b: 0, a: 255 }),
        ("light_green", Rgba { r: 144, g: 238, b: 144, a: 255 }),
        ("lightgreen", Rgba { r: 144, g: 238, b: 144, a: 255 }),
        ("crimson", Rgba { r: 220, g: 20, b: 60, a: 255 }),
        ("indigo", Rgba { r: 75, g: 0, b: 130, a: 255 }),
        ("olive", Rgba { r: 128, g: 128, b: 0, a: 255 }),
        ("rebecca_purple", Rgba { r: 102, g: 51, b: 153, a: 255 }),
        ("rebeccapurple", Rgba { r: 102, g: 51, b: 153, a: 255 }),
        ("silver", Rgba { r: 192, g: 192, b: 192, a: 255 }),
        ("teal", Rgba { r: 0, g: 128, b: 128, a: 255 }),
    ]
}

fn push_part_14(t: &mut Vec<(&'static str, Rgba)>)
    ensures
        final(t)@ == old(t)@ + part_colors_14(),
{
    t.push(("gray87", Rgba { r: 222, g: 222, b: 222, a: 255 }));
    t.push(("grey87", Rgba { r: 222, g: 222, b: 222, a: 255 }));
    t.push(("gray88", Rgba { r: 224, g: 224, b: 224, a: 255 }));
    t.push(("grey88", Rgba { r: 224, g: 224, b: 224, a: 255 }));
    t.push(("gray89", Rgba { r: 227, g: 227, b: 227, a: 255 }));
    t.push(("grey89", Rgba { r: 227, g: 227, b: 227, a: 255 }));
    t.push(("gray90", Rgba { r: 230, g: 230, b: 230, a: 255 }));
    t.push(("grey90", Rgba { r: 230, g: 230, b: 230, a: 255 }));
    t.push(("gray91", Rgba { r: 232, g: 232, b: 232, a: 255 }));
    t.push(("grey91", Rgba { r: 232, g: 232, b: 232, a: 255 }));
    t.push(("gray92", Rgba { r: 235, g: 235, b: 235, a: 255 }));
    t.push(("grey92", Rgba { r: 235, g: 235, b: 235, a: 255 }));
    t.push(("gray93", Rgba { r: 237, g: 237, b: 237, a: 255 }));
    t.push(("grey93", Rgba { r: 237, g: 237, b: 237, a: 255 }));
    t.push(("gray94", Rgba { r: 240, g: 240, b: 240, a: 255 }));
    t.push(("grey94", Rgba { r: 240, g: 240, b: 240, a: 255 }));
    t.push(("gray95", Rgba { r: 242, g: 242, b: 242, a: 255 }));
    t.push(("grey95", Rgba { r: 242, g: 242, b: 242, a: 255 }));
    t.push(("gray96", Rgba { r: 245, g: 245, b: 245, a: 255 }));
    t.push(("grey96", Rgba { r: 245, g: 245, b: 245, a: 255 }));
    t.push(("gray97", Rgba { r: 247, g: 247, b: 247, a: 255 }));
    t.push(("grey97", Rgba { r: 247, g: 247, b: 247, a: 255 }));
    t.push(("gray98", Rgba { r: 250, g: 250, b: 250, a: 255 }));
    t.push(("grey98", Rgba { r: 250, g: 250, b: 250, a: 255 }));
    t.push(("gray99", Rgba { r: 252, g: 252, b: 252, a: 255 }));
    t.push(("grey99", Rgba { r: 252, g: 252, b: 252, a: 255 }));
    t.push(("gray100", Rgba { r: 255, g: 255, b: 255, a: 255 }));
    t.push(("grey100", Rgba { r: 255, g: 255, b: 255, a: 255 }));
    t.push(("dark_grey", Rgba { r: 169, g: 169, b: 169, a: 255 }));
    t.push(("darkgrey", Rgba { r: 169, g: 169, b: 169, a: 255 }));
    t.push(("dark_gray", Rgba { r: 169, g: 169, b: 169, a: 255 }));
    t.push(("darkgray", Rgba { r: 169, g: 169, b: 169, a: 255 }));
    t.push(("dark_blue", Rgba { r: 0, g: 0, b: 139, a: 255 }));
    t.push(("darkblue", Rgba { r: 0, g: 0, b: 139, a: 255 }));
    t.push(("dark_cyan", Rgba { r: 0, g: 139, b: 139, a: 255 }));
    t.push(("darkcyan", Rgba { r: 0, g: 139, b: 139, a: 255 }));
    t.push(("dark_magenta", Rgba { r: 139, g: 0, b: 139, a: 255 }));
    t.push(("darkmagenta", Rgba { r: 139, g: 0, b: 139, a: 255 }));
    t.push(("dark_red", Rgba { r: 139, g: 0, b: 0, a: 255 }));
    t.push(("darkred", Rgba { r: 139, g: 0, b: 0, a: 255 }));
    t.push(("light_green", Rgba { r: 144, g: 238, b: 144, a: 255 }));
    t.push(("lightgreen", Rgba { r: 144, g: 238, b: 144, a: 255 }));
    t.push(("crimson", Rgba { r: 220, g: 20, b: 60, a: 255 }));
    t.push(("indigo", Rgba { r: 75, g: 0, b: 130, a: 255 }));
    t.push(("olive", Rgba { r: 128, g: 128, b: 0, a: 255 }));
    t.push(("rebecca_purple", Rgba { r: 102, g: 51, b: 153, a: 255 }));
    t.push(("rebeccapurple", Rgba { r: 102, g: 51, b: 153, a: 255 }));
    t.push(("silver", Rgba { r: 192, g: 192, b: 192, a: 255 }));
    t.push(("teal", Rgba { r: 0, g: 128, b: 128, a: 255 }));
    proof {
        assert(t@ =~= old(t)@ + part_colors_14());
    }
}

} // verus!
