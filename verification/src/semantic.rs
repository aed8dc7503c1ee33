//! Semantic color tokens: status colors that convey meaning and are
//! consistent across all products, plus the agent status palette and
//! the `SemanticColors` record used by themes.

use vstd::prelude::*;
use crate::color::Color;
use crate::color::Rgb;
use crate::text::eq_ignore_case;
use crate::text::lower_chars;

verus! {

/// Success color: indicates positive outcomes.
pub fn success() -> (c: Color)
    ensures
        c == Color::Rgb(Rgb { r: 16u8, g: 185u8, b: 129u8 }),
{
    Color::rgb(16, 185, 129)
}

/// Success, light variant.
pub fn success_light() -> (c: Color)
    ensures
        c == Color::Rgb(Rgb { r: 209u8, g: 250u8, b: 229u8 }),
{
    Color::rgb(209, 250, 229)
}

/// Success, dark variant.
pub fn success_dark() -> (c: Color)
    ensures
        c == Color::Rgb(Rgb { r: 5u8, g: 150u8, b: 105u8 }),
{
    Color::rgb(5, 150, 105)
}

/// Warning color: indicates caution needed.
pub fn warning() -> (c: Color)
    ensures
        c == Color::Rgb(Rgb { r: 245u8, g: 158u8, b: 11u8 }),
{
    Color::rgb(245, 158, 11)
}

/// Warning, light variant.
pub fn warning_light() -> (c: Color)
    ensures
        c == Color::Rgb(Rgb { r: 254u8, g: 243u8, b: 199u8 }),
{
    Color::rgb(254, 243, 199)
}

/// Warning, dark variant.
pub fn warning_dark() -> (c: Color)
    ensures
        c == Color::Rgb(Rgb { r: 217u8, g: 119u8, b: 6u8 }),
{
    Color::rgb(217, 119, 6)
}

/// Error color: indicates problems or failures.
pub fn error() -> (c: Color)
    ensures
        c == Color::Rgb(Rgb { r: 239u8, g: 68u8, b: 68u8 }),
{
    Color::rgb(239, 68, 68)
}

/// Error, light variant.
pub fn error_light() -> (c: Color)
    ensures
        c == Color::Rgb(Rgb { r: 254u8, g: 226u8, b: 226u8 }),
{
    Color::rgb(254, 226, 226)
}

/// Error, dark variant.
pub fn error_dark() -> (c: Color)
    ensures
        c == Color::Rgb(Rgb { r: 220u8, g: 38u8, b: 38u8 }),
{
    Color::rgb(220, 38, 38)
}

/// Info color: indicates neutral information.
pub fn info() -> (c: Color)
    ensures
        c == Color::Rgb(Rgb { r: 59u8, g: 130u8, b: 246u8 }),
{
    Color::rgb(59, 130, 246)
}

/// Info, light variant.
pub fn info_light() -> (c: Color)
    ensures
        c == Color::Rgb(Rgb { r: 219u8, g: 234u8, b: 254u8 }),
{
    Color::rgb(219, 234, 254)
}

/// Info, dark variant.
pub fn info_dark() -> (c: Color)
    ensures
        c == Color::Rgb(Rgb { r: 37u8, g: 99u8, b: 235u8 }),
{
    Color::rgb(37, 99, 235)
}

/// Agent status: spawning state, purple.
pub fn agent_spawning() -> (c: Color)
    ensures
        c == Color::Rgb(Rgb { r: 124u8, g: 58u8, b: 237u8 }),
{
    Color::rgb(124, 58, 237)
}

/// Agent status: running state, green.
pub fn agent_running() -> (c: Color)
    ensures
        c == Color::Rgb(Rgb { r: 16u8, g: 185u8, b: 129u8 }),
{
    Color::rgb(16, 185, 129)
}

/// Agent status: thinking state, amber.
pub fn agent_thinking() -> (c: Color)
    ensures
        c == Color::Rgb(Rgb { r: 245u8, g: 158u8, b: 11u8 }),
{
    Color::rgb(245, 158, 11)
}

/// Agent status: complete state, cyan.
pub fn agent_complete() -> (c: Color)
    ensures
        c == Color::Rgb(Rgb { r: 6u8, g: 182u8, b: 212u8 }),
{
    Color::rgb(6, 182, 212)
}

/// Agent status: failed state, red.
pub fn agent_failed() -> (c: Color)
    ensures
        c == Color::Rgb(Rgb { r: 239u8, g: 68u8, b: 68u8 }),
{
    Color::rgb(239, 68, 68)
}

/// Agent status: idle state, gray.
pub fn agent_idle() -> (c: Color)
    ensures
        c == Color::Rgb(Rgb { r: 113u8, g: 113u8, b: 122u8 }),
{
    Color::rgb(113, 113, 122)
}

/// Agent status: paused state, light purple.
pub fn agent_paused() -> (c: Color)
    ensures
        c == Color::Rgb(Rgb { r: 167u8, g: 139u8, b: 250u8 }),
{
    Color::rgb(167, 139, 250)
}

/// The four status colors used by themes.
#[derive(Debug, Clone, Copy)]
pub struct SemanticColors {
    /// Success color.
    pub success: Color,
    /// Warning color.
    pub warning: Color,
    /// Error color.
    pub error: Color,
    /// Info color.
    pub info: Color,
}

/// The record holding the default semantic constants.
pub open spec fn default_semantic_colors() -> SemanticColors {
    SemanticColors {
        success: Color::Rgb(Rgb { r: 16u8, g: 185u8, b: 129u8 }),
        warning: Color::Rgb(Rgb { r: 245u8, g: 158u8, b: 11u8 }),
        error: Color::Rgb(Rgb { r: 239u8, g: 68u8, b: 68u8 }),
        info: Color::Rgb(Rgb { r: 59u8, g: 130u8, b: 246u8 }),
    }
}

impl SemanticColors {
    /// The field a status name selects, matched with ASCII case folded:
    /// one of `success`, `warning`, `error` and `info`, or nothing for
    /// any other name.
    pub open spec fn get_spec(self, name: Seq<char>) -> Option<Color> {
        if lower_chars(name) == "success"@ {
            Some(self.success)
        } else if lower_chars(name) == "warning"@ {
            Some(self.warning)
        } else if lower_chars(name) == "error"@ {
            Some(self.error)
        } else if lower_chars(name) == "info"@ {
            Some(self.info)
        } else {
            None
        }
    }

    /// Create a new semantic colors record with the default values.
    pub fn new() -> (s: Self)
        ensures
            s == default_semantic_colors(),
    {
        SemanticColors {
            success: Color::rgb(16, 185, 129),
            warning: Color::rgb(245, 158, 11),
            error: Color::rgb(239, 68, 68),
            info: Color::rgb(59, 130, 246),
        }
    }

    /// Get a color by status name, case-insensitively; any other name
    /// yields `None`.
    pub fn get(&self, name: &str) -> (c: Option<Color>)
        ensures
            c == self.get_spec(name@),
    {
        proof {
            reveal_strlit("success");
            reveal_strlit("warning");
            reveal_strlit("error");
            reveal_strlit("info");
            assert(lower_chars("success"@) =~= "success"@);
            assert(lower_chars("warning"@) =~= "warning"@);
            assert(lower_chars("error"@) =~= "error"@);
            assert(lower_chars("info"@) =~= "info"@);
        }
        if eq_ignore_case(name, "success") {
            Some(self.success)
        } else if eq_ignore_case(name, "warning") {
            Some(self.warning)
        } else if eq_ignore_case(name, "error") {
            Some(self.error)
        } else if eq_ignore_case(name, "info") {
            Some(self.info)
        } else {
            None
        }
    }
}

impl Default for SemanticColors {
    /// The default record holds the semantic constants.
    fn default() -> (s: Self)
        ensures
            s == default_semantic_colors(),
    {
        SemanticColors::new()
    }
}

/// Law: the status lookup is case-insensitive. Two names equal after
/// ASCII case folding select the same field of the record.
pub proof fn lemma_semantic_get_case_insensitive(s: SemanticColors, n1: Seq<char>, n2: Seq<char>)
    requires
        lower_chars(n1) == lower_chars(n2),
    ensures
        s.get_spec(n1) == s.get_spec(n2),
{
}

} // verus!
