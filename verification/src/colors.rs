//! Core color palettes shared across all products: the Forge brand
//! palette, the Molten orange scale, the neutral gray scale, and the
//! surface, text and glass token groups.

use vstd::prelude::*;
use crate::color::Color;
use crate::color::Rgb;
use crate::color::Rgba;

verus! {

/// The neutral gray scale table, keyed 0 (white) to 950 (near black);
/// every key outside the scale resolves to the mid gray at 500.
pub open spec fn neutral_scale_spec(scale: u16) -> Color {
    if scale == 0 {
        Color::Rgb(Rgb { r: 255u8, g: 255u8, b: 255u8 })
    } else if scale == 50 {
        Color::Rgb(Rgb { r: 250u8, g: 250u8, b: 250u8 })
    } else if scale == 100 {
        Color::Rgb(Rgb { r: 244u8, g: 244u8, b: 245u8 })
    } else if scale == 200 {
        Color::Rgb(Rgb { r: 228u8, g: 228u8, b: 231u8 })
    } else if scale == 300 {
        Color::Rgb(Rgb { r: 212u8, g: 212u8, b: 216u8 })
    } else if scale == 400 {
        Color::Rgb(Rgb { r: 161u8, g: 161u8, b: 170u8 })
    } else if scale == 500 {
        Color::Rgb(Rgb { r: 113u8, g: 113u8, b: 122u8 })
    } else if scale == 600 {
        Color::Rgb(Rgb { r: 82u8, g: 82u8, b: 91u8 })
    } else if scale == 700 {
        Color::Rgb(Rgb { r: 63u8, g: 63u8, b: 70u8 })
    } else if scale == 800 {
        Color::Rgb(Rgb { r: 39u8, g: 39u8, b: 42u8 })
    } else if scale == 900 {
        Color::Rgb(Rgb { r: 24u8, g: 24u8, b: 27u8 })
    } else if scale == 950 {
        Color::Rgb(Rgb { r: 10u8, g: 10u8, b: 10u8 })
    } else {
        Color::Rgb(Rgb { r: 113u8, g: 113u8, b: 122u8 })
    }
}

/// The Molten orange scale table, keyed 50 (lightest) to 950 (darkest);
/// every key outside the scale resolves to the primary at 500.
pub open spec fn molten_scale_spec(scale: u16) -> Color {
    if scale == 50 {
        Color::Rgb(Rgb { r: 255u8, g: 247u8, b: 237u8 })
    } else if scale == 100 {
        Color::Rgb(Rgb { r: 255u8, g: 237u8, b: 213u8 })
    } else if scale == 200 {
        Color::Rgb(Rgb { r: 254u8, g: 215u8, b: 170u8 })
    } else if scale == 300 {
        Color::Rgb(Rgb { r: 253u8, g: 186u8, b: 116u8 })
    } else if scale == 400 {
        Color::Rgb(Rgb { r: 251u8, g: 146u8, b: 60u8 })
    } else if scale == 500 {
        Color::Rgb(Rgb { r: 249u8, g: 115u8, b: 22u8 })
    } else if scale == 600 {
        Color::Rgb(Rgb { r: 234u8, g: 88u8, b: 12u8 })
    } else if scale == 700 {
        Color::Rgb(Rgb { r: 194u8, g: 65u8, b: 12u8 })
    } else if scale == 800 {
        Color::Rgb(Rgb { r: 154u8, g: 52u8, b: 18u8 })
    } else if scale == 900 {
        Color::Rgb(Rgb { r: 124u8, g: 45u8, b: 18u8 })
    } else if scale == 950 {
        Color::Rgb(Rgb { r: 67u8, g: 20u8, b: 7u8 })
    } else {
        Color::Rgb(Rgb { r: 249u8, g: 115u8, b: 22u8 })
    }
}

/// Get a neutral color by scale key (0-950).
pub fn neutral_scale(scale: u16) -> (c: Color)
    ensures
        c == neutral_scale_spec(scale),
{
    match scale {
        0 => Color::rgb(255, 255, 255),
        50 => Color::rgb(250, 250, 250),
        100 => Color::rgb(244, 244, 245),
        200 => Color::rgb(228, 228, 231),
        300 => Color::rgb(212, 212, 216),
        400 => Color::rgb(161, 161, 170),
        500 => Color::rgb(113, 113, 122),
        600 => Color::rgb(82, 82, 91),
        700 => Color::rgb(63, 63, 70),
        800 => Color::rgb(39, 39, 42),
        900 => Color::rgb(24, 24, 27),
        950 => Color::rgb(10, 10, 10),
        _ => Color::rgb(113, 113, 122),
    }
}

/// Get a Molten orange color by scale key (50-950).
pub fn molten_scale(scale: u16) -> (c: Color)
    ensures
        c == molten_scale_spec(scale),
{
    match scale {
        50 => Color::rgb(255, 247, 237),
        100 => Color::rgb(255, 237, 213),
        200 => Color::rgb(254, 215, 170),
        300 => Color::rgb(253, 186, 116),
        400 => Color::rgb(251, 146, 60),
        500 => Color::rgb(249, 115, 22),
        600 => Color::rgb(234, 88, 12),
        700 => Color::rgb(194, 65, 12),
        800 => Color::rgb(154, 52, 18),
        900 => Color::rgb(124, 45, 18),
        950 => Color::rgb(67, 20, 7),
        _ => Color::rgb(249, 115, 22),
    }
}

/// Law: a neutral-scale lookup with any key outside the enumerated
/// scale returns the documented default, the mid gray at 500.
pub proof fn lemma_neutral_scale_default(k: u16)
    requires
        k != 0,
        k != 50,
        k != 100,
        k != 200,
        k != 300,
        k != 400,
        k != 500,
        k != 600,
        k != 700,
        k != 800,
        k != 900,
        k != 950,
    ensures
        neutral_scale_spec(k) == neutral_scale_spec(500),
{
}

/// Law: a Molten-scale lookup with any key outside the enumerated
/// scale returns the documented default, the primary at 500.
pub proof fn lemma_molten_scale_default(k: u16)
    requires
        k != 50,
        k != 100,
        k != 200,
        k != 300,
        k != 400,
        k != 500,
        k != 600,
        k != 700,
        k != 800,
        k != 900,
        k != 950,
    ensures
        molten_scale_spec(k) == molten_scale_spec(500),
{
}

/// Primary brand color: Molten orange, the scale entry at 500.
pub fn molten_primary() -> (c: Color)
    ensures
        c == Color::Rgb(Rgb { r: 249u8, g: 115u8, b: 22u8 }),
{
    Color::rgb(249, 115, 22)
}

/// Forge palette: primary background, deep black.
pub fn forge_black() -> (c: Color)
    ensures
        c == Color::Rgb(Rgb { r: 10u8, g: 10u8, b: 10u8 }),
{
    Color::rgb(10, 10, 10)
}

/// Forge palette: secondary text and borders, steel gray.
pub fn forge_steel() -> (c: Color)
    ensures
        c == Color::Rgb(Rgb { r: 113u8, g: 113u8, b: 122u8 }),
{
    Color::rgb(113, 113, 122)
}

/// Forge palette: primary text, near white.
pub fn forge_white() -> (c: Color)
    ensures
        c == Color::Rgb(Rgb { r: 250u8, g: 250u8, b: 250u8 }),
{
    Color::rgb(250, 250, 250)
}

/// Forge palette: energy and highlights, molten orange.
pub fn forge_molten() -> (c: Color)
    ensures
        c == Color::Rgb(Rgb { r: 249u8, g: 115u8, b: 22u8 }),
{
    Color::rgb(249, 115, 22)
}

/// Forge palette: accent and alerts, ember red.
pub fn forge_ember() -> (c: Color)
    ensures
        c == Color::Rgb(Rgb { r: 239u8, g: 68u8, b: 68u8 }),
{
    Color::rgb(239, 68, 68)
}

/// Forge palette: links and interactive elements, iron blue.
pub fn forge_iron() -> (c: Color)
    ensures
        c == Color::Rgb(Rgb { r: 59u8, g: 130u8, b: 246u8 }),
{
    Color::rgb(59, 130, 246)
}

/// Dark-mode surfaces: base app background.
pub fn surface_base() -> (c: Color)
    ensures
        c == Color::Rgb(Rgb { r: 10u8, g: 10u8, b: 10u8 }),
{
    Color::rgb(10, 10, 10)
}

/// Dark-mode surfaces: raised surfaces such as cards.
pub fn surface_raised() -> (c: Color)
    ensures
        c == Color::Rgb(Rgb { r: 24u8, g: 24u8, b: 27u8 }),
{
    Color::rgb(24, 24, 27)
}

/// Dark-mode surfaces: overlays such as modals and dropdowns.
pub fn surface_overlay() -> (c: Color)
    ensures
        c == Color::Rgb(Rgb { r: 39u8, g: 39u8, b: 42u8 }),
{
    Color::rgb(39, 39, 42)
}

/// Dark-mode surfaces: muted or disabled surfaces.
pub fn surface_muted() -> (c: Color)
    ensures
        c == Color::Rgb(Rgb { r: 63u8, g: 63u8, b: 70u8 }),
{
    Color::rgb(63, 63, 70)
}

/// Text tokens: primary text color.
pub fn text_primary() -> (c: Color)
    ensures
        c == Color::Rgb(Rgb { r: 250u8, g: 250u8, b: 250u8 }),
{
    Color::rgb(250, 250, 250)
}

/// Text tokens: secondary text color.
pub fn text_secondary() -> (c: Color)
    ensures
        c == Color::Rgb(Rgb { r: 161u8, g: 161u8, b: 170u8 }),
{
    Color::rgb(161, 161, 170)
}

/// Text tokens: muted text color.
pub fn text_muted() -> (c: Color)
    ensures
        c == Color::Rgb(Rgb { r: 113u8, g: 113u8, b: 122u8 }),
{
    Color::rgb(113, 113, 122)
}

/// Text tokens: inverse text for light backgrounds.
pub fn text_inverse() -> (c: Color)
    ensures
        c == Color::Rgb(Rgb { r: 10u8, g: 10u8, b: 10u8 }),
{
    Color::rgb(10, 10, 10)
}

/// Text tokens: brand-colored text.
pub fn text_brand() -> (c: Color)
    ensures
        c == Color::Rgb(Rgb { r: 249u8, g: 115u8, b: 22u8 }),
{
    Color::rgb(249, 115, 22)
}

/// Glass effects: translucent background, about 3% white.
pub fn glass_background() -> (c: Color)
    ensures
        c == Color::Rgba(Rgba { r: 255u8, g: 255u8, b: 255u8, a: 8u8 }),
{
    Color::rgba(255, 255, 255, 8)
}

/// Glass effects: translucent background on hover, about 5% orange.
pub fn glass_background_hover() -> (c: Color)
    ensures
        c == Color::Rgba(Rgba { r: 249u8, g: 115u8, b: 22u8, a: 13u8 }),
{
    Color::rgba(249, 115, 22, 13)
}

/// Glass effects: translucent border, about 6% white.
pub fn glass_border() -> (c: Color)
    ensures
        c == Color::Rgba(Rgba { r: 255u8, g: 255u8, b: 255u8, a: 15u8 }),
{
    Color::rgba(255, 255, 255, 15)
}

/// Glass effects: translucent border on hover, about 30% orange.
pub fn glass_border_hover() -> (c: Color)
    ensures
        c == Color::Rgba(Rgba { r: 249u8, g: 115u8, b: 22u8, a: 77u8 }),
{
    Color::rgba(249, 115, 22, 77)
}

} // verus!
