//! Brand metadata.

use vstd::prelude::*;

verus! {

/// The company name.
pub const COMPANY: &'static str = "Molten Labs";

/// The primary tagline.
pub const TAGLINE: &'static str = "Let them cook";

/// The website URL.
pub const WEBSITE: &'static str = "https://molten.dev";

/// The GitHub organization.
pub const GITHUB: &'static str = "https://github.com/moltenlabs";

} // verus!
