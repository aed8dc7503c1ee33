//! Product-specific design tokens for the Lair, Hearth and Alloy
//! products, and name-keyed lookups over them.
//!
//! The name lookups are case-insensitive and total: an unknown product
//! name resolves to the Alloy entry, the system default.

use vstd::prelude::*;
use crate::color::Color;
use crate::color::Rgb;
use crate::color::Rgba;
use crate::text::eq_ignore_case;
use crate::text::lower_chars;

verus! {

/// Lair product name.
pub const LAIR_NAME: &'static str = "Lair";

/// Lair tagline.
pub const LAIR_TAGLINE: &'static str = "The terminal where goblins ship code";

/// Lair description.
pub const LAIR_DESCRIPTION: &'static str = "GPU-rendered terminal and multi-agent orchestration platform";

/// Hearth product name.
pub const HEARTH_NAME: &'static str = "Hearth";

/// Hearth tagline.
pub const HEARTH_TAGLINE: &'static str = "The warm center where the community gathers";

/// Hearth description.
pub const HEARTH_DESCRIPTION: &'static str = "Content marketing platform and community hub";

/// Alloy product name.
pub const ALLOY_NAME: &'static str = "Alloy";

/// Alloy tagline.
pub const ALLOY_TAGLINE: &'static str = "Components forged together";

/// Alloy description.
pub const ALLOY_DESCRIPTION: &'static str = "The official design system for Molten Labs";

/// The primary color a product name resolves to: Goblin Purple for
/// Lair, Iron Blue for Hearth, and Molten Orange for Alloy and for
/// every unknown name. The name is matched with ASCII case folded.
pub open spec fn product_primary_spec(name: Seq<char>) -> Color {
    if lower_chars(name) == "lair"@ {
        Color::Rgb(Rgb { r: 124u8, g: 58u8, b: 237u8 })
    } else if lower_chars(name) == "hearth"@ {
        Color::Rgb(Rgb { r: 59u8, g: 130u8, b: 246u8 })
    } else {
        Color::Rgb(Rgb { r: 249u8, g: 115u8, b: 22u8 })
    }
}

/// The tagline a product name resolves to, with the Alloy tagline as
/// the default for every unknown name.
pub open spec fn product_tagline_spec(name: Seq<char>) -> Seq<char> {
    if lower_chars(name) == "lair"@ {
        "The terminal where goblins ship code"@
    } else if lower_chars(name) == "hearth"@ {
        "The warm center where the community gathers"@
    } else {
        "Components forged together"@
    }
}

/// Get a product's primary color by name, case-insensitively; unknown
/// names resolve to the Alloy primary.
pub fn get_product_primary(product: &str) -> (c: Color)
    ensures
        c == product_primary_spec(product@),
{
    proof {
        reveal_strlit("lair");
        reveal_strlit("hearth");
        assert(lower_chars("lair"@) =~= "lair"@);
        assert(lower_chars("hearth"@) =~= "hearth"@);
    }
    if eq_ignore_case(product, "lair") {
        Color::rgb(124, 58, 237)
    } else if eq_ignore_case(product, "hearth") {
        Color::rgb(59, 130, 246)
    } else {
        Color::rgb(249, 115, 22)
    }
}

/// Get a product's tagline by name, case-insensitively; unknown names
/// resolve to the Alloy tagline.
pub fn get_product_tagline(product: &str) -> (t: &'static str)
    ensures
        t@ == product_tagline_spec(product@),
{
    proof {
        reveal_strlit("lair");
        reveal_strlit("hearth");
        assert(lower_chars("lair"@) =~= "lair"@);
        assert(lower_chars("hearth"@) =~= "hearth"@);
    }
    if eq_ignore_case(product, "lair") {
        "The terminal where goblins ship code"
    } else if eq_ignore_case(product, "hearth") {
        "The warm center where the community gathers"
    } else {
        "Components forged together"
    }
}

/// Law: the product lookups are case-insensitive. Two names equal
/// after ASCII case folding resolve to the same primary color and the
/// same tagline.
pub proof fn lemma_product_lookup_case_insensitive(n1: Seq<char>, n2: Seq<char>)
    requires
        lower_chars(n1) == lower_chars(n2),
    ensures
        product_primary_spec(n1) == product_primary_spec(n2),
        product_tagline_spec(n1) == product_tagline_spec(n2),
{
}

/// Lair: primary color, Goblin Purple.
pub fn lair_primary() -> (c: Color)
    ensures
        c == Color::Rgb(Rgb { r: 124u8, g: 58u8, b: 237u8 }),
{
    Color::rgb(124, 58, 237)
}

/// Lair: secondary color, light purple for hover states.
pub fn lair_secondary() -> (c: Color)
    ensures
        c == Color::Rgb(Rgb { r: 167u8, g: 139u8, b: 250u8 }),
{
    Color::rgb(167, 139, 250)
}

/// Lair: accent color, dark purple for active states.
pub fn lair_accent() -> (c: Color)
    ensures
        c == Color::Rgb(Rgb { r: 91u8, g: 33u8, b: 182u8 }),
{
    Color::rgb(91, 33, 182)
}

/// Lair terminal: background, cave dark.
pub fn lair_terminal_background() -> (c: Color)
    ensures
        c == Color::Rgb(Rgb { r: 15u8, g: 15u8, b: 26u8 }),
{
    Color::rgb(15, 15, 26)
}

/// Lair terminal: foreground text.
pub fn lair_terminal_foreground() -> (c: Color)
    ensures
        c == Color::Rgb(Rgb { r: 228u8, g: 228u8, b: 231u8 }),
{
    Color::rgb(228, 228, 231)
}

/// Lair terminal: cursor, Goblin Purple.
pub fn lair_terminal_cursor() -> (c: Color)
    ensures
        c == Color::Rgb(Rgb { r: 124u8, g: 58u8, b: 237u8 }),
{
    Color::rgb(124, 58, 237)
}

/// Lair terminal: selection highlight, about 30% purple.
pub fn lair_terminal_selection() -> (c: Color)
    ensures
        c == Color::Rgba(Rgba { r: 124u8, g: 58u8, b: 237u8, a: 77u8 }),
{
    Color::rgba(124, 58, 237, 77)
}

/// Lair goblin effects: primary goblin color.
pub fn lair_goblin_primary() -> (c: Color)
    ensures
        c == Color::Rgb(Rgb { r: 124u8, g: 58u8, b: 237u8 }),
{
    Color::rgb(124, 58, 237)
}

/// Lair goblin effects: glow, about 40% purple.
pub fn lair_goblin_glow() -> (c: Color)
    ensures
        c == Color::Rgba(Rgba { r: 124u8, g: 58u8, b: 237u8, a: 102u8 }),
{
    Color::rgba(124, 58, 237, 102)
}

/// Lair goblin effects: shadow, about 20% purple.
pub fn lair_goblin_shadow() -> (c: Color)
    ensures
        c == Color::Rgba(Rgba { r: 124u8, g: 58u8, b: 237u8, a: 51u8 }),
{
    Color::rgba(124, 58, 237, 51)
}

/// Lair goblin effects: pulse for animations, about 60% purple.
pub fn lair_goblin_pulse() -> (c: Color)
    ensures
        c == Color::Rgba(Rgba { r: 124u8, g: 58u8, b: 237u8, a: 153u8 }),
{
    Color::rgba(124, 58, 237, 153)
}

/// Lair surfaces: base surface.
pub fn lair_surface_base() -> (c: Color)
    ensures
        c == Color::Rgb(Rgb { r: 15u8, g: 15u8, b: 26u8 }),
{
    Color::rgb(15, 15, 26)
}

/// Lair surfaces: raised surface.
pub fn lair_surface_raised() -> (c: Color)
    ensures
        c == Color::Rgb(Rgb { r: 26u8, g: 26u8, b: 46u8 }),
{
    Color::rgb(26, 26, 46)
}

/// Lair surfaces: surface with purple tint.
pub fn lair_surface_tinted() -> (c: Color)
    ensures
        c == Color::Rgb(Rgb { r: 37u8, g: 37u8, b: 56u8 }),
{
    Color::rgb(37, 37, 56)
}

/// Lair surfaces: border, about 20% purple.
pub fn lair_surface_border() -> (c: Color)
    ensures
        c == Color::Rgba(Rgba { r: 124u8, g: 58u8, b: 237u8, a: 51u8 }),
{
    Color::rgba(124, 58, 237, 51)
}

/// Lair surfaces: border on hover, about 40% purple.
pub fn lair_surface_border_hover() -> (c: Color)
    ensures
        c == Color::Rgba(Rgba { r: 124u8, g: 58u8, b: 237u8, a: 102u8 }),
{
    Color::rgba(124, 58, 237, 102)
}

/// Hearth: primary color, Iron Blue.
pub fn hearth_primary() -> (c: Color)
    ensures
        c == Color::Rgb(Rgb { r: 59u8, g: 130u8, b: 246u8 }),
{
    Color::rgb(59, 130, 246)
}

/// Hearth: secondary color, light blue for hover states.
pub fn hearth_secondary() -> (c: Color)
    ensures
        c == Color::Rgb(Rgb { r: 96u8, g: 165u8, b: 250u8 }),
{
    Color::rgb(96, 165, 250)
}

/// Hearth: accent color, dark blue for emphasis.
pub fn hearth_accent() -> (c: Color)
    ensures
        c == Color::Rgb(Rgb { r: 37u8, g: 99u8, b: 235u8 }),
{
    Color::rgb(37, 99, 235)
}

/// Hearth editorial: primary editorial text.
pub fn hearth_editorial_text() -> (c: Color)
    ensures
        c == Color::Rgb(Rgb { r: 229u8, g: 229u8, b: 229u8 }),
{
    Color::rgb(229, 229, 229)
}

/// Hearth editorial: secondary text.
pub fn hearth_editorial_secondary() -> (c: Color)
    ensures
        c == Color::Rgb(Rgb { r: 163u8, g: 163u8, b: 163u8 }),
{
    Color::rgb(163, 163, 163)
}

/// Hearth editorial: tertiary, muted text.
pub fn hearth_editorial_tertiary() -> (c: Color)
    ensures
        c == Color::Rgb(Rgb { r: 82u8, g: 82u8, b: 82u8 }),
{
    Color::rgb(82, 82, 82)
}

/// Hearth editorial: border color.
pub fn hearth_editorial_border() -> (c: Color)
    ensures
        c == Color::Rgb(Rgb { r: 38u8, g: 38u8, b: 38u8 }),
{
    Color::rgb(38, 38, 38)
}

/// Hearth content: page background.
pub fn hearth_content_background() -> (c: Color)
    ensures
        c == Color::Rgb(Rgb { r: 10u8, g: 10u8, b: 10u8 }),
{
    Color::rgb(10, 10, 10)
}

/// Hearth content: card background.
pub fn hearth_content_card() -> (c: Color)
    ensures
        c == Color::Rgb(Rgb { r: 17u8, g: 17u8, b: 17u8 }),
{
    Color::rgb(17, 17, 17)
}

/// Hearth content: card hover state.
pub fn hearth_content_card_hover() -> (c: Color)
    ensures
        c == Color::Rgb(Rgb { r: 22u8, g: 22u8, b: 22u8 }),
{
    Color::rgb(22, 22, 22)
}

/// Hearth content: content border.
pub fn hearth_content_border() -> (c: Color)
    ensures
        c == Color::Rgb(Rgb { r: 38u8, g: 38u8, b: 38u8 }),
{
    Color::rgb(38, 38, 38)
}

/// Alloy: primary color, Molten Orange.
pub fn alloy_primary() -> (c: Color)
    ensures
        c == Color::Rgb(Rgb { r: 249u8, g: 115u8, b: 22u8 }),
{
    Color::rgb(249, 115, 22)
}

/// Alloy: secondary color, light orange.
pub fn alloy_secondary() -> (c: Color)
    ensures
        c == Color::Rgb(Rgb { r: 251u8, g: 146u8, b: 60u8 }),
{
    Color::rgb(251, 146, 60)
}

/// Alloy: accent color, dark orange.
pub fn alloy_accent() -> (c: Color)
    ensures
        c == Color::Rgb(Rgb { r: 234u8, g: 88u8, b: 12u8 }),
{
    Color::rgb(234, 88, 12)
}

/// Alloy system: primary system color.
pub fn alloy_system_primary() -> (c: Color)
    ensures
        c == Color::Rgb(Rgb { r: 249u8, g: 115u8, b: 22u8 }),
{
    Color::rgb(249, 115, 22)
}

/// Alloy system: neutral system color.
pub fn alloy_system_neutral() -> (c: Color)
    ensures
        c == Color::Rgb(Rgb { r: 113u8, g: 113u8, b: 122u8 }),
{
    Color::rgb(113, 113, 122)
}

/// Alloy system: surface color.
pub fn alloy_system_surface() -> (c: Color)
    ensures
        c == Color::Rgb(Rgb { r: 24u8, g: 24u8, b: 27u8 }),
{
    Color::rgb(24, 24, 27)
}

/// Alloy glass: translucent background, about 3% white.
pub fn alloy_glass_background() -> (c: Color)
    ensures
        c == Color::Rgba(Rgba { r: 255u8, g: 255u8, b: 255u8, a: 8u8 }),
{
    Color::rgba(255, 255, 255, 8)
}

/// Alloy glass: translucent background on hover, about 5% orange.
pub fn alloy_glass_background_hover() -> (c: Color)
    ensures
        c == Color::Rgba(Rgba { r: 249u8, g: 115u8, b: 22u8, a: 13u8 }),
{
    Color::rgba(249, 115, 22, 13)
}

/// Alloy glass: translucent border, about 6% white.
pub fn alloy_glass_border() -> (c: Color)
    ensures
        c == Color::Rgba(Rgba { r: 255u8, g: 255u8, b: 255u8, a: 15u8 }),
{
    Color::rgba(255, 255, 255, 15)
}

/// Alloy glass: translucent border on hover, about 30% orange.
pub fn alloy_glass_border_hover() -> (c: Color)
    ensures
        c == Color::Rgba(Rgba { r: 249u8, g: 115u8, b: 22u8, a: 77u8 }),
{
    Color::rgba(249, 115, 22, 77)
}

} // verus!
