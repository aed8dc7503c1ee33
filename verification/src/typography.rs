//! Typography tokens: font stacks, size and weight scales, and preset
//! text styles.
//!
//! Line heights and letter spacings are carried in thousandths (a line
//! height multiplier of 1.5 is 1500; a letter spacing of -0.025em is
//! -25), so every token is exact integer data.

use vstd::prelude::*;

verus! {

/// Primary sans-serif font stack (Geist Sans).
pub const SANS: &'static str = "\"Geist Sans\", system-ui, -apple-system, BlinkMacSystemFont, \"Segoe UI\", Roboto, \"Helvetica Neue\", Arial, sans-serif";

/// Monospace font stack (Geist Mono).
pub const MONO: &'static str = "\"Geist Mono\", \"SF Mono\", Menlo, Monaco, Consolas, \"Liberation Mono\", \"Courier New\", monospace";

/// Display font stack (Space Grotesk for headlines).
pub const DISPLAY: &'static str = "\"Space Grotesk\", \"Geist Sans\", system-ui, -apple-system, sans-serif";

/// Serif font stack (for editorial content).
pub const SERIF: &'static str = "\"Fraunces\", \"Georgia\", \"Times New Roman\", \"Times\", serif";

/// 12px: tiny text such as footnotes.
pub const SIZE_TINY: u16 = 12;

/// 14px: small text such as captions and labels.
pub const SIZE_SMALL: u16 = 14;

/// 16px: base body text.
pub const SIZE_BASE: u16 = 16;

/// 18px: large body text.
pub const SIZE_LARGE: u16 = 18;

/// 20px: lead paragraph.
pub const SIZE_LEAD: u16 = 20;

/// 22px: level-four heading.
pub const SIZE_H4: u16 = 22;

/// 24px: level-three heading.
pub const SIZE_H3: u16 = 24;

/// 28px: level-two heading.
pub const SIZE_H2: u16 = 28;

/// 36px: level-one heading.
pub const SIZE_H1: u16 = 36;

/// 48px: display and hero headlines.
pub const SIZE_DISPLAY: u16 = 48;

/// 60px: large display headlines.
pub const SIZE_DISPLAY_LG: u16 = 60;

/// 72px: extra large display headlines.
pub const SIZE_DISPLAY_XL: u16 = 72;

/// Font weight 100, thin.
pub const WEIGHT_THIN: u16 = 100;

/// Font weight 200, extra light.
pub const WEIGHT_EXTRA_LIGHT: u16 = 200;

/// Font weight 300, light.
pub const WEIGHT_LIGHT: u16 = 300;

/// Font weight 400, regular.
pub const WEIGHT_REGULAR: u16 = 400;

/// Font weight 500, medium.
pub const WEIGHT_MEDIUM: u16 = 500;

/// Font weight 600, semi bold.
pub const WEIGHT_SEMI_BOLD: u16 = 600;

/// Font weight 700, bold.
pub const WEIGHT_BOLD: u16 = 700;

/// Font weight 800, extra bold.
pub const WEIGHT_EXTRA_BOLD: u16 = 800;

/// Font weight 900, black.
pub const WEIGHT_BLACK: u16 = 900;

/// Tight line height, 1.1, for headings (in thousandths).
pub const LINE_TIGHT: u16 = 1100;

/// Snug line height, 1.25, for subheadings (in thousandths).
pub const LINE_SNUG: u16 = 1250;

/// Normal line height, 1.5, for body text (in thousandths).
pub const LINE_NORMAL: u16 = 1500;

/// Relaxed line height, 1.625, for comfortable reading (in thousandths).
pub const LINE_RELAXED: u16 = 1625;

/// Loose line height, 2.0, for emphasis (in thousandths).
pub const LINE_LOOSE: u16 = 2000;

/// Tighter letter spacing, -0.025em, for large headings (in thousandths of an em).
pub const SPACING_TIGHTER: i16 = -25;

/// Tight letter spacing, -0.015em, for headings (in thousandths of an em).
pub const SPACING_TIGHT: i16 = -15;

/// Normal letter spacing (in thousandths of an em).
pub const SPACING_NORMAL: i16 = 0;

/// Wide letter spacing, 0.025em, for small caps and labels (in thousandths of an em).
pub const SPACING_WIDE: i16 = 25;

/// Wider letter spacing, 0.05em, for all caps (in thousandths of an em).
pub const SPACING_WIDER: i16 = 50;

/// Widest letter spacing, 0.1em, for extreme emphasis (in thousandths of an em).
pub const SPACING_WIDEST: i16 = 100;

/// A typography preset: pure data, never constructed dynamically by
/// the core.
#[derive(Debug, Clone)]
pub struct TextStyle {
    /// Font family stack.
    pub family: &'static str,
    /// Font size in pixels.
    pub size: u16,
    /// Font weight.
    pub weight: u16,
    /// Line height multiplier in thousandths (1500 is 1.5).
    pub line_height_milli: u16,
    /// Letter spacing in thousandths of an em (-25 is -0.025em).
    pub letter_spacing_milli: i16,
}

/// Display heading style.
pub fn preset_display() -> (t: TextStyle)
    ensures
        t.family@ == DISPLAY@,
        t.size == 48,
        t.weight == 700,
        t.line_height_milli == 1100,
        t.letter_spacing_milli == -25,
{
    TextStyle {
        family: DISPLAY,
        size: SIZE_DISPLAY,
        weight: WEIGHT_BOLD,
        line_height_milli: LINE_TIGHT,
        letter_spacing_milli: SPACING_TIGHTER,
    }
}

/// Level-one heading style.
pub fn preset_h1() -> (t: TextStyle)
    ensures
        t.family@ == SANS@,
        t.size == 36,
        t.weight == 700,
        t.line_height_milli == 1100,
        t.letter_spacing_milli == -15,
{
    TextStyle {
        family: SANS,
        size: SIZE_H1,
        weight: WEIGHT_BOLD,
        line_height_milli: LINE_TIGHT,
        letter_spacing_milli: SPACING_TIGHT,
    }
}

/// Level-two heading style.
pub fn preset_h2() -> (t: TextStyle)
    ensures
        t.family@ == SANS@,
        t.size == 28,
        t.weight == 600,
        t.line_height_milli == 1250,
        t.letter_spacing_milli == -15,
{
    TextStyle {
        family: SANS,
        size: SIZE_H2,
        weight: WEIGHT_SEMI_BOLD,
        line_height_milli: LINE_SNUG,
        letter_spacing_milli: SPACING_TIGHT,
    }
}

/// Level-three heading style.
pub fn preset_h3() -> (t: TextStyle)
    ensures
        t.family@ == SANS@,
        t.size == 24,
        t.weight == 600,
        t.line_height_milli == 1250,
        t.letter_spacing_milli == 0,
{
    TextStyle {
        family: SANS,
        size: SIZE_H3,
        weight: WEIGHT_SEMI_BOLD,
        line_height_milli: LINE_SNUG,
        letter_spacing_milli: SPACING_NORMAL,
    }
}

/// Body text style.
pub fn preset_body() -> (t: TextStyle)
    ensures
        t.family@ == SANS@,
        t.size == 16,
        t.weight == 400,
        t.line_height_milli == 1500,
        t.letter_spacing_milli == 0,
{
    TextStyle {
        family: SANS,
        size: SIZE_BASE,
        weight: WEIGHT_REGULAR,
        line_height_milli: LINE_NORMAL,
        letter_spacing_milli: SPACING_NORMAL,
    }
}

/// Small text style.
pub fn preset_small() -> (t: TextStyle)
    ensures
        t.family@ == SANS@,
        t.size == 14,
        t.weight == 400,
        t.line_height_milli == 1500,
        t.letter_spacing_milli == 0,
{
    TextStyle {
        family: SANS,
        size: SIZE_SMALL,
        weight: WEIGHT_REGULAR,
        line_height_milli: LINE_NORMAL,
        letter_spacing_milli: SPACING_NORMAL,
    }
}

/// Code and monospace style.
pub fn preset_code() -> (t: TextStyle)
    ensures
        t.family@ == MONO@,
        t.size == 14,
        t.weight == 400,
        t.line_height_milli == 1625,
        t.letter_spacing_milli == 0,
{
    TextStyle {
        family: MONO,
        size: SIZE_SMALL,
        weight: WEIGHT_REGULAR,
        line_height_milli: LINE_RELAXED,
        letter_spacing_milli: SPACING_NORMAL,
    }
}

/// Label style with a small-caps effect.
pub fn preset_label() -> (t: TextStyle)
    ensures
        t.family@ == SANS@,
        t.size == 12,
        t.weight == 500,
        t.line_height_milli == 1500,
        t.letter_spacing_milli == 25,
{
    TextStyle {
        family: SANS,
        size: SIZE_TINY,
        weight: WEIGHT_MEDIUM,
        line_height_milli: LINE_NORMAL,
        letter_spacing_milli: SPACING_WIDE,
    }
}

} // verus!
