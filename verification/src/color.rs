//! The `Color` value type: RGB and RGBA variants with hex parsing and
//! formatting, CSS formatting, and alpha composition.
//!
//! Opacity is handled in thousandths of the unit range (an opacity of
//! 0.4 is passed as 400), so that clamping and scaling are exact
//! integer arithmetic.

use vstd::prelude::*;
use vstd::arithmetic::div_mod::lemma_fundamental_div_mod;
use vstd::string::StrSliceExecFns;
use vstd::string::StringExecFns;
use crate::text::dec_chars;
use crate::text::dec_str_u8;
use crate::text::digit_char;
use crate::text::digit_str;
use crate::text::hex_digit_val;
use crate::text::hex_val;
use crate::text::is_hex_digit;
use crate::text::is_upper_hex_digit;
use crate::text::lemma_digit_char_val;
use crate::text::lower_char;
use crate::text::lower_chars;

verus! {

/// Error returned when a hex color string cannot be parsed.
#[derive(Debug, Clone, Copy, PartialEq, Eq, Structural)]
pub enum ColorError {
    /// The input is not a six-digit hexadecimal color, with or without
    /// a leading `#`.
    InvalidFormat,
}

/// An RGB color with 8-bit components.
#[derive(Debug, Clone, Copy, PartialEq, Eq, Hash, Structural)]
pub struct Rgb {
    /// Red component (0-255).
    pub r: u8,
    /// Green component (0-255).
    pub g: u8,
    /// Blue component (0-255).
    pub b: u8,
}

/// An RGBA color with 8-bit components.
#[derive(Debug, Clone, Copy, PartialEq, Eq, Hash, Structural)]
pub struct Rgba {
    /// Red component (0-255).
    pub r: u8,
    /// Green component (0-255).
    pub g: u8,
    /// Blue component (0-255).
    pub b: u8,
    /// Alpha component (0-255), 0 fully transparent, 255 fully opaque.
    pub a: u8,
}

/// A color that can be either RGB or RGBA.
#[derive(Debug, Clone, Copy, PartialEq, Eq, Hash, Structural)]
pub enum Color {
    /// Solid RGB color.
    Rgb(Rgb),
    /// RGBA color with alpha.
    Rgba(Rgba),
}

/// The hex rendering of an RGB value: `#` followed by six uppercase
/// hexadecimal digits, two per channel.
pub open spec fn rgb_hex_chars(c: Rgb) -> Seq<char> {
    seq![
        '#',
        digit_char(c.r as int / 16),
        digit_char(c.r as int % 16),
        digit_char(c.g as int / 16),
        digit_char(c.g as int % 16),
        digit_char(c.b as int / 16),
        digit_char(c.b as int % 16),
    ]
}

/// A hex input after removing the optional leading `#`.
pub open spec fn strip_hash(s: Seq<char>) -> Seq<char> {
    if s.len() > 0 && s[0] == '#' {
        s.skip(1)
    } else {
        s
    }
}

/// Whether a sequence begins with six hexadecimal digits.
pub open spec fn starts_with_hex6(s: Seq<char>) -> bool {
    s.len() >= 6 && (forall|i: int| 0 <= i < 6 ==> is_hex_digit(#[trigger] s[i]))
}

/// The channel read from one two-digit group of a hexadecimal body:
/// group 0 is red, 1 green, 2 blue.
pub open spec fn hex_group(s: Seq<char>, k: int) -> int {
    16 * hex_val(s[2 * k]) + hex_val(s[2 * k + 1])
}

/// What hex parsing yields on a character sequence: the color read from
/// the first six digits after an optional leading `#`, or nothing when
/// they are missing or not hexadecimal.
pub open spec fn parse_rgb_hex(s: Seq<char>) -> Option<Rgb> {
    let body = strip_hash(s);
    if starts_with_hex6(body) {
        Some(
            Rgb {
                r: hex_group(body, 0) as u8,
                g: hex_group(body, 1) as u8,
                b: hex_group(body, 2) as u8,
            },
        )
    } else {
        None
    }
}

impl Rgb {
    /// Create a new RGB color.
    pub fn new(r: u8, g: u8, b: u8) -> (c: Self)
        ensures
            c == (Rgb { r, g, b }),
    {
        Rgb { r, g, b }
    }

    /// Parse an RGB color from a hex string, with or without a leading
    /// `#`, case-insensitive; the first six digits are read.
    pub fn from_hex(hex: &str) -> (res: Result<Rgb, ColorError>)
        ensures
            match parse_rgb_hex(hex@) {
                Some(c) => res == Ok::<Rgb, ColorError>(c),
                None => res == Err::<Rgb, ColorError>(ColorError::InvalidFormat),
            },
    {
        let n = hex.unicode_len();
        let start: usize = if n >= 1 && hex.get_char(0) == '#' {
            1
        } else {
            0
        };
        let ghost body = strip_hash(hex@);
        proof {
            assert(body =~= hex@.skip(start as int));
        }
        if n < 6 || n - 6 < start {
            proof {
                assert(body.len() < 6);
            }
            return Err(ColorError::InvalidFormat);
        }
        let d0 = hex_digit_val(hex.get_char(start));
        let d1 = hex_digit_val(hex.get_char(start + 1));
        let d2 = hex_digit_val(hex.get_char(start + 2));
        let d3 = hex_digit_val(hex.get_char(start + 3));
        let d4 = hex_digit_val(hex.get_char(start + 4));
        let d5 = hex_digit_val(hex.get_char(start + 5));
        proof {
            assert(forall|j: int| 0 <= j < body.len() ==> body[j] == hex@[start as int + j]);
        }
        match (d0, d1, d2, d3, d4, d5) {
            (Some(h0), Some(h1), Some(h2), Some(h3), Some(h4), Some(h5)) => {
                let c = Rgb { r: 16 * h0 + h1, g: 16 * h2 + h3, b: 16 * h4 + h5 };
                proof {
                    assert(starts_with_hex6(body));
                    assert(c.r == hex_group(body, 0));
                    assert(c.g == hex_group(body, 1));
                    assert(c.b == hex_group(body, 2));
                }
                Ok(c)
            },
            _ => {
                proof {
                    assert(!starts_with_hex6(body));
                }
                Err(ColorError::InvalidFormat)
            },
        }
    }

    /// Format as `#RRGGBB` with uppercase hex digits.
    pub fn hex(&self) -> (s: String)
        ensures
            s@ == rgb_hex_chars(*self),
    {
        let mut s = String::new();
        s.append("#");
        s.append(digit_str(self.r / 16));
        s.append(digit_str(self.r % 16));
        s.append(digit_str(self.g / 16));
        s.append(digit_str(self.g % 16));
        s.append(digit_str(self.b / 16));
        s.append(digit_str(self.b % 16));
        proof {
            reveal_strlit("#");
            assert(s@ =~= rgb_hex_chars(*self));
        }
        s
    }

    /// The RGBA value carrying the same channels at full opacity.
    pub open spec fn with_full_alpha(self) -> Rgba {
        Rgba { r: self.r, g: self.g, b: self.b, a: 255u8 }
    }

    /// Convert to an RGBA color with full opacity.
    pub fn to_rgba(self) -> (c: Rgba)
        ensures
            c == self.with_full_alpha(),
    {
        Rgba { r: self.r, g: self.g, b: self.b, a: 255 }
    }

    /// Format as `rgb(R, G, B)` with decimal channel values.
    pub fn css(&self) -> (s: String)
        ensures
            s@ == rgb_css_chars(*self),
    {
        let mut s = String::new();
        s.append("rgb(");
        s.append(dec_str_u8(self.r).as_str());
        s.append(", ");
        s.append(dec_str_u8(self.g).as_str());
        s.append(", ");
        s.append(dec_str_u8(self.b).as_str());
        s.append(")");
        proof {
            assert(s@ =~= rgb_css_chars(*self));
        }
        s
    }
}

/// An opacity in thousandths of the unit range, clamped to it.
pub open spec fn clamp_milli(m: int) -> int {
    if m < 0 {
        0
    } else if m > 1000 {
        1000
    } else {
        m
    }
}

/// The stored alpha byte for an opacity given in thousandths: the
/// clamped opacity scaled to 255 and truncated.
pub open spec fn alpha_byte(m: int) -> int {
    clamp_milli(m) * 255 / 1000
}

/// An alpha byte as a count of hundredths of full opacity, rounded to
/// the nearest hundredth (exact ties cannot arise).
pub open spec fn alpha_hundredths(a: int) -> int {
    (200 * a + 255) / 510
}

/// The two-decimal rendering of an alpha byte as a unit fraction,
/// `0.00` through `1.00`.
pub open spec fn alpha_css_chars(a: int) -> Seq<char> {
    let h = alpha_hundredths(a);
    if h == 100 {
        "1.00"@
    } else {
        seq!['0', '.', digit_char(h / 10), digit_char(h % 10)]
    }
}

/// The CSS rendering of an RGBA value: `rgba(R, G, B, A.AA)` with
/// decimal channels and the normalized alpha to two decimal places.
pub open spec fn rgba_css_chars(c: Rgba) -> Seq<char> {
    "rgba("@ + dec_chars(c.r as int) + ", "@ + dec_chars(c.g as int) + ", "@ + dec_chars(
        c.b as int,
    ) + ", "@ + alpha_css_chars(c.a as int) + ")"@
}

impl Rgba {
    /// Create a new RGBA color.
    pub fn new(r: u8, g: u8, b: u8, a: u8) -> (c: Self)
        ensures
            c == (Rgba { r, g, b, a }),
    {
        Rgba { r, g, b, a }
    }

    /// Create an RGBA color from RGB with an opacity given in
    /// thousandths of the unit range (400 for an opacity of 0.4).
    /// Out-of-range opacities are clamped, not rejected.
    pub fn from_rgb_alpha(rgb: Rgb, alpha_milli: i32) -> (c: Self)
        ensures
            c.r == rgb.r,
            c.g == rgb.g,
            c.b == rgb.b,
            c.a == alpha_byte(alpha_milli as int),
    {
        let m: i32 = if alpha_milli < 0 {
            0
        } else if alpha_milli > 1000 {
            1000
        } else {
            alpha_milli
        };
        let a = (m * 255 / 1000) as u8;
        Rgba { r: rgb.r, g: rgb.g, b: rgb.b, a }
    }

    /// The RGB value carrying the same color channels.
    pub open spec fn rgb_channels(self) -> Rgb {
        Rgb { r: self.r, g: self.g, b: self.b }
    }

    /// Convert to an RGB color, discarding alpha.
    pub fn to_rgb(self) -> (c: Rgb)
        ensures
            c == self.rgb_channels(),
    {
        Rgb { r: self.r, g: self.g, b: self.b }
    }

    /// The alpha channel as hundredths of full opacity, rounded to the
    /// nearest hundredth: 0 fully transparent, 100 fully opaque.
    pub fn alpha_percent(&self) -> (h: u8)
        ensures
            h == alpha_hundredths(self.a as int),
    {
        ((200 * (self.a as u32) + 255) / 510) as u8
    }

    /// Format as `rgba(R, G, B, A.AA)` with decimal channels and the
    /// normalized alpha to two decimal places.
    pub fn css(&self) -> (s: String)
        ensures
            s@ == rgba_css_chars(*self),
    {
        let mut s = String::new();
        s.append("rgba(");
        s.append(dec_str_u8(self.r).as_str());
        s.append(", ");
        s.append(dec_str_u8(self.g).as_str());
        s.append(", ");
        s.append(dec_str_u8(self.b).as_str());
        s.append(", ");
        let h = (200 * (self.a as u32) + 255) / 510;
        if h == 100 {
            s.append("1.00");
            proof {
                reveal_strlit("1.00");
            }
        } else {
            s.append("0.");
            s.append(digit_str((h / 10) as u8));
            s.append(digit_str((h % 10) as u8));
            proof {
                reveal_strlit("0.");
                assert(s@ =~= "rgba("@ + dec_chars(self.r as int) + ", "@ + dec_chars(
                    self.g as int,
                ) + ", "@ + dec_chars(self.b as int) + ", "@ + alpha_css_chars(self.a as int));
            }
        }
        s.append(")");
        proof {
            assert(s@ =~= rgba_css_chars(*self));
        }
        s
    }
}

/// Law: the stored alpha byte approximates the requested opacity to
/// within one part in 255. For an opacity of `m` thousandths within the
/// unit range, `|alpha_byte(m) / 255 - m / 1000| < 1 / 255`, stated
/// here over integers with denominators cleared.
pub proof fn lemma_alpha_byte_close(m: int)
    requires
        0 <= m <= 1000,
    ensures
        1000 * alpha_byte(m) <= 255 * m,
        255 * m < 1000 * alpha_byte(m) + 1000,
{
    lemma_fundamental_div_mod(255 * m, 1000);
    assert(0 <= (255 * m) % 1000 < 1000);
    assert(255 * m == 1000 * (255 * m / 1000) + (255 * m) % 1000);
}

/// The CSS rendering of an RGB value: `rgb(R, G, B)` in decimal.
pub open spec fn rgb_css_chars(c: Rgb) -> Seq<char> {
    "rgb("@ + dec_chars(c.r as int) + ", "@ + dec_chars(c.g as int) + ", "@ + dec_chars(
        c.b as int,
    ) + ")"@
}

impl Color {
    /// The RGB projection: an RGB variant's channels, or an RGBA
    /// variant's channels with alpha discarded.
    pub open spec fn rgb_part(self) -> Rgb {
        match self {
            Color::Rgb(c) => c,
            Color::Rgba(c) => c.rgb_channels(),
        }
    }

    /// The RGBA projection: an RGBA variant unchanged, or an RGB
    /// variant at full opacity.
    pub open spec fn rgba_part(self) -> Rgba {
        match self {
            Color::Rgb(c) => c.with_full_alpha(),
            Color::Rgba(c) => c,
        }
    }

    /// The color after replacing the opacity: always the RGBA variant,
    /// carrying the RGB projection and the new alpha.
    pub open spec fn with_alpha_spec(self, alpha_milli: int) -> Color {
        Color::Rgba(
            Rgba {
                r: self.rgb_part().r,
                g: self.rgb_part().g,
                b: self.rgb_part().b,
                a: alpha_byte(alpha_milli) as u8,
            },
        )
    }

    /// Create a new RGB color.
    pub fn rgb(r: u8, g: u8, b: u8) -> (c: Self)
        ensures
            c == Color::Rgb(Rgb { r, g, b }),
    {
        Color::Rgb(Rgb { r, g, b })
    }

    /// Create a new RGBA color.
    pub fn rgba(r: u8, g: u8, b: u8, a: u8) -> (c: Self)
        ensures
            c == Color::Rgba(Rgba { r, g, b, a }),
    {
        Color::Rgba(Rgba { r, g, b, a })
    }

    /// Parse a color from a hex string, producing the RGB variant.
    pub fn from_hex(hex: &str) -> (res: Result<Color, ColorError>)
        ensures
            match parse_rgb_hex(hex@) {
                Some(c) => res == Ok::<Color, ColorError>(Color::Rgb(c)),
                None => res == Err::<Color, ColorError>(ColorError::InvalidFormat),
            },
    {
        match Rgb::from_hex(hex) {
            Ok(c) => Ok(Color::Rgb(c)),
            Err(e) => Err(e),
        }
    }

    /// Format as `#RRGGBB`: hex output never carries transparency, an
    /// RGBA variant is projected to RGB first.
    pub fn hex(&self) -> (s: String)
        ensures
            s@ == rgb_hex_chars(self.rgb_part()),
    {
        match self {
            Color::Rgb(c) => c.hex(),
            Color::Rgba(c) => c.to_rgb().hex(),
        }
    }

    /// Get the RGB components, discarding alpha if present.
    pub fn to_rgb(&self) -> (c: Rgb)
        ensures
            c == self.rgb_part(),
    {
        match self {
            Color::Rgb(c) => *c,
            Color::Rgba(c) => c.to_rgb(),
        }
    }

    /// Get the RGBA components, at full opacity for an RGB variant.
    pub fn to_rgba(&self) -> (c: Rgba)
        ensures
            c == self.rgba_part(),
    {
        match self {
            Color::Rgb(c) => c.to_rgba(),
            Color::Rgba(c) => *c,
        }
    }

    /// Replace the opacity, given in thousandths of the unit range and
    /// clamped to it. The result is always the RGBA variant; an
    /// original alpha, if any, is discarded first.
    pub fn with_alpha(self, alpha_milli: i32) -> (c: Self)
        ensures
            c == self.with_alpha_spec(alpha_milli as int),
    {
        let rgb = self.to_rgb();
        Color::Rgba(Rgba::from_rgb_alpha(rgb, alpha_milli))
    }

    /// Format the active variant for CSS: `rgb(R, G, B)` for the RGB
    /// variant, `rgba(R, G, B, A.AA)` for the RGBA variant.
    pub fn css(&self) -> (s: String)
        ensures
            s@ == (match *self {
                Color::Rgb(c) => rgb_css_chars(c),
                Color::Rgba(c) => rgba_css_chars(c),
            }),
    {
        match self {
            Color::Rgb(c) => c.css(),
            Color::Rgba(c) => c.css(),
        }
    }

    /// Fully transparent black: the RGBA variant with every channel 0.
    pub fn transparent() -> (c: Self)
        ensures
            c == Color::Rgba(Rgba { r: 0u8, g: 0u8, b: 0u8, a: 0u8 }),
    {
        Color::Rgba(Rgba { r: 0, g: 0, b: 0, a: 0 })
    }

    /// Opaque black, as the RGB variant.
    pub fn black() -> (c: Self)
        ensures
            c == Color::Rgb(Rgb { r: 0u8, g: 0u8, b: 0u8 }),
    {
        Color::Rgb(Rgb { r: 0, g: 0, b: 0 })
    }

    /// Opaque white, as the RGB variant.
    pub fn white() -> (c: Self)
        ensures
            c == Color::Rgb(Rgb { r: 255u8, g: 255u8, b: 255u8 }),
    {
        Color::Rgb(Rgb { r: 255, g: 255, b: 255 })
    }
}

impl From<Rgb> for Color {
    /// Wrap an RGB value in the RGB variant.
    fn from(rgb: Rgb) -> (c: Self) {
        Color::Rgb(rgb)
    }
}

impl vstd::std_specs::convert::FromSpecImpl<Rgb> for Color {
    open spec fn obeys_from_spec() -> bool {
        true
    }

    open spec fn from_spec(rgb: Rgb) -> Color {
        Color::Rgb(rgb)
    }
}

impl From<Rgba> for Color {
    /// Wrap an RGBA value in the RGBA variant.
    fn from(rgba: Rgba) -> (c: Self) {
        Color::Rgba(rgba)
    }
}

impl vstd::std_specs::convert::FromSpecImpl<Rgba> for Color {
    open spec fn obeys_from_spec() -> bool {
        true
    }

    open spec fn from_spec(rgba: Rgba) -> Color {
        Color::Rgba(rgba)
    }
}

/// Law: projecting any color to RGB, raising that to RGBA at full
/// opacity, and dropping the alpha again returns the same RGB
/// projection.
pub proof fn lemma_rgb_projection_round_trip(x: Color)
    ensures
        x.rgb_part().with_full_alpha().rgb_channels() == x.rgb_part(),
{
}

/// Law: replacing a color's opacity never changes its RGB projection,
/// whatever the requested opacity.
pub proof fn lemma_with_alpha_keeps_rgb(x: Color, alpha_milli: int)
    ensures
        x.with_alpha_spec(alpha_milli).rgb_part() == x.rgb_part(),
{
}

/// Law: hex parsing treats the leading `#` as optional. Prefixing `#`
/// to any input that does not already start with one never changes the
/// result.
pub proof fn lemma_parse_hex_prefix_insensitive(s: Seq<char>)
    requires
        s.len() == 0 || s[0] != '#',
    ensures
        parse_rgb_hex(seq!['#'] + s) == parse_rgb_hex(s),
{
    let t = seq!['#'] + s;
    assert(t[0] == '#');
    assert(strip_hash(t) =~= s);
    assert(strip_hash(s) =~= s);
}

/// Law: hex parsing is case-insensitive. Folding ASCII case anywhere
/// in the input never changes the result.
pub proof fn lemma_parse_hex_case_insensitive(s: Seq<char>)
    ensures
        parse_rgb_hex(lower_chars(s)) == parse_rgb_hex(s),
{
    let ls = lower_chars(s);
    let b = strip_hash(s);
    let lb = strip_hash(ls);
    if s.len() > 0 && s[0] == '#' {
        assert(ls[0] == '#');
        assert(lb =~= lower_chars(b));
    } else {
        if s.len() > 0 {
            assert(ls[0] == lower_char(s[0]));
            assert(ls[0] != '#');
        }
        assert(lb =~= lower_chars(b));
    }
    assert(forall|i: int| 0 <= i < b.len() ==> #[trigger] lb[i] == lower_char(b[i]));
    assert(forall|c: char| #[trigger] hex_val(lower_char(c)) == hex_val(c));
    assert(starts_with_hex6(lb) == starts_with_hex6(b)) by {
        if starts_with_hex6(b) {
            assert(forall|i: int| 0 <= i < 6 ==> is_hex_digit(#[trigger] lb[i]));
        }
        if starts_with_hex6(lb) {
            assert(forall|i: int| 0 <= i < 6 ==> is_hex_digit(#[trigger] b[i]));
        }
    }
    if starts_with_hex6(b) {
        assert(hex_group(lb, 0) == hex_group(b, 0));
        assert(hex_group(lb, 1) == hex_group(b, 1));
        assert(hex_group(lb, 2) == hex_group(b, 2));
    }
}

/// Law: hex formatting of any RGB value yields `#` followed by six
/// uppercase hexadecimal digits, and parsing that string yields the
/// same value back.
pub proof fn lemma_hex_round_trip(c: Rgb)
    ensures
        rgb_hex_chars(c).len() == 7,
        rgb_hex_chars(c)[0] == '#',
        forall|i: int| 1 <= i < 7 ==> is_upper_hex_digit(#[trigger] rgb_hex_chars(c)[i]),
        parse_rgb_hex(rgb_hex_chars(c)) == Some(c),
{
    let s = rgb_hex_chars(c);
    lemma_digit_char_val(c.r as int / 16);
    lemma_digit_char_val(c.r as int % 16);
    lemma_digit_char_val(c.g as int / 16);
    lemma_digit_char_val(c.g as int % 16);
    lemma_digit_char_val(c.b as int / 16);
    lemma_digit_char_val(c.b as int % 16);
    let body = strip_hash(s);
    assert(body =~= s.skip(1));
    assert(starts_with_hex6(body));
    assert(hex_group(body, 0) == c.r);
    assert(hex_group(body, 1) == c.g);
    assert(hex_group(body, 2) == c.b);
    assert(parse_rgb_hex(s) == Some(c));
}

} // verus!
