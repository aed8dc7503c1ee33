//! Spacing scale tokens: a 4px base unit with deliberate gaps for
//! visual rhythm, a scale lookup with a documented default, and a
//! unit-to-pixel conversion.

use vstd::prelude::*;

verus! {

/// Base spacing unit in pixels.
pub const BASE: u16 = 4;

/// The spacing table: each enumerated scale index maps to its pixel
/// value; every other index resolves to the medium entry of 16px.
pub open spec fn spacing_spec(index: u16) -> u16 {
    if index == 0 {
        0u16
    } else if index == 1 {
        4u16
    } else if index == 2 {
        8u16
    } else if index == 3 {
        12u16
    } else if index == 4 {
        16u16
    } else if index == 5 {
        20u16
    } else if index == 6 {
        24u16
    } else if index == 8 {
        32u16
    } else if index == 10 {
        40u16
    } else if index == 12 {
        48u16
    } else if index == 16 {
        64u16
    } else if index == 20 {
        80u16
    } else if index == 24 {
        96u16
    } else if index == 32 {
        128u16
    } else if index == 40 {
        160u16
    } else if index == 48 {
        192u16
    } else if index == 64 {
        256u16
    } else {
        16u16
    }
}

/// Get a spacing value in pixels by scale index; indices outside the
/// scale resolve to the medium entry of 16px.
pub fn get(index: u16) -> (px: u16)
    ensures
        px == spacing_spec(index),
{
    match index {
        0 => 0,
        1 => 4,
        2 => 8,
        3 => 12,
        4 => 16,
        5 => 20,
        6 => 24,
        8 => 32,
        10 => 40,
        12 => 48,
        16 => 64,
        20 => 80,
        24 => 96,
        32 => 128,
        40 => 160,
        48 => 192,
        64 => 256,
        _ => 16,
    }
}

/// Convert spacing units to pixels at 4px per unit.
pub fn units(n: u16) -> (px: u16)
    requires
        4 * n <= u16::MAX,
    ensures
        px == 4 * n,
{
    n * BASE
}

/// Law: a spacing lookup with any index outside the enumerated scale
/// returns the documented default, the medium entry at index 4.
pub proof fn lemma_spacing_default(k: u16)
    requires
        k != 0,
        k != 1,
        k != 2,
        k != 3,
        k != 4,
        k != 5,
        k != 6,
        k != 8,
        k != 10,
        k != 12,
        k != 16,
        k != 20,
        k != 24,
        k != 32,
        k != 40,
        k != 48,
        k != 64,
    ensures
        spacing_spec(k) == spacing_spec(4),
{
}

/// Semantic spacing: padding for inline elements.
pub fn inline_pad() -> (px: u16)
    ensures
        px == spacing_spec(1),
{
    4
}

/// Semantic spacing: padding for small components such as buttons.
pub fn component_sm() -> (px: u16)
    ensures
        px == spacing_spec(2),
{
    8
}

/// Semantic spacing: padding for medium components.
pub fn component_md() -> (px: u16)
    ensures
        px == spacing_spec(3),
{
    12
}

/// Semantic spacing: padding for large components.
pub fn component_lg() -> (px: u16)
    ensures
        px == spacing_spec(4),
{
    16
}

/// Semantic spacing: gap between related items.
pub fn gap_sm() -> (px: u16)
    ensures
        px == spacing_spec(2),
{
    8
}

/// Semantic spacing: standard gap.
pub fn gap_md() -> (px: u16)
    ensures
        px == spacing_spec(4),
{
    16
}

/// Semantic spacing: large gap.
pub fn gap_lg() -> (px: u16)
    ensures
        px == spacing_spec(6),
{
    24
}

/// Semantic spacing: section padding.
pub fn section() -> (px: u16)
    ensures
        px == spacing_spec(8),
{
    32
}

/// Semantic spacing: page margin.
pub fn page() -> (px: u16)
    ensures
        px == spacing_spec(16),
{
    64
}

} // verus!
