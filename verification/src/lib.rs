//! Design tokens for the Molten Labs brand system.
//!
//! The core of the library is the `Color` value type (RGB and RGBA
//! variants with hex and CSS conversions), together with small lookup
//! helpers that resolve scale indices and product names to token values.

pub mod brand;
pub mod color;
pub mod colors;
pub mod products;
pub mod semantic;
pub mod spacing;
pub mod text;
pub mod typography;

pub use color::Color;
pub use color::ColorError;
pub use color::Rgb;
pub use color::Rgba;
pub use semantic::SemanticColors;
pub use typography::TextStyle;
