//! The `brand.toml` schema: the configuration a synthesized brand is built from.
use vstd::prelude::*;

verus! {

/// The `[colors]` section: the 12 OOXML color slots, each optional.
///
/// Values are `"#RRGGBB"` hex strings. `fol_hlink` is the TOML name of the
/// OOXML `folHlink` slot.
#[derive(Debug, Clone, PartialEq, Eq, Default)]
pub struct ColorConfig {
    /// Dark 1.
    pub dk1: Option<String>,
    /// Light 1.
    pub lt1: Option<String>,
    /// Dark 2.
    pub dk2: Option<String>,
    /// Light 2.
    pub lt2: Option<String>,
    /// Accent 1.
    pub acc1: Option<String>,
    /// Accent 2.
    pub acc2: Option<String>,
    /// Accent 3.
    pub acc3: Option<String>,
    /// Accent 4.
    pub acc4: Option<String>,
    /// Accent 5.
    pub acc5: Option<String>,
    /// Accent 6.
    pub acc6: Option<String>,
    /// Hyperlink.
    pub hlink: Option<String>,
    /// Followed hyperlink.
    pub fol_hlink: Option<String>,
}

/// The `[fonts]` section.
#[derive(Debug, Clone, PartialEq, Eq, Default)]
pub struct FontConfig {
    /// Heading (major) font name.
    pub heading: String,
    /// Body (minor) font name.
    pub body: String,
}

/// The `[logo]` section.
#[derive(Debug, Clone, PartialEq, Eq, Default)]
pub struct LogoConfig {
    /// Logo path, relative to the directory that holds `brand.toml`.
    pub path: String,
}

/// The `[footer]` section.
#[derive(Debug, Clone, PartialEq, Eq, Default)]
pub struct FooterConfig {
    /// Footer text; empty means no footer text.
    pub text: String,
    /// Whether slide numbers are shown.
    pub show_slide_number: bool,
    /// Whether the date is shown.
    pub show_date: bool,
}

/// A parsed `brand.toml`.
#[derive(Debug, Clone, PartialEq, Eq, Default)]
pub struct BrandConfig {
    /// The `[colors]` section.
    pub colors: ColorConfig,
    /// The `[fonts]` section.
    pub fonts: FontConfig,
    /// The `[logo]` section, if present.
    pub logo: Option<LogoConfig>,
    /// The `[footer]` section.
    pub footer: FooterConfig,
}

} // verus!
