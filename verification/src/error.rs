//! Error types and error codes of the brand library.
//!
//! | Code | Variant | Severity |
//! |------|---------|---------|
//! | `E-BRD-001` | [`BrandError::FileNotFound`], [`BrandError::LogoRequired`], [`BrandError::TomlReadError`] | broken (exit 4) |
//! | `E-BRD-002` | [`BrandError::ParseError`], [`BrandError::TomlParseError`] | broken (exit 4) |
//! | `E-BRD-003` | [`BrandError::MissingColorSlot`] | cosmetic (exit 0) |
//! | `E-BRD-004` | [`BrandError::FontUnavailable`], [`BrandError::DeclaredFontUnavailable`] | cosmetic (exit 0) |
//! | `E-BRD-005` | [`BrandError::InvalidHexColor`] | cosmetic (exit 0) |
//! | `E-BRD-006` | [`BrandError::OutputExists`] | broken (exit 4) |
//! | `E-BRD-007` | [`BrandError::LogoOutsideBrandDir`] | broken (exit 4) |
use vstd::prelude::*;

verus! {

/// `E-BRD-001`: brand file not found (also: synthesized brand without a logo path).
pub const E_BRD_001: &'static str = "E-BRD-001";
/// `E-BRD-002`: the brand template or `brand.toml` cannot be parsed.
pub const E_BRD_002: &'static str = "E-BRD-002";
/// `E-BRD-003`: a color slot is absent and was inferred.
pub const E_BRD_003: &'static str = "E-BRD-003";
/// `E-BRD-004`: a declared font is not installed on the build host.
pub const E_BRD_004: &'static str = "E-BRD-004";
/// `E-BRD-005`: a hex color value in `brand.toml` is not valid `#RRGGBB`.
pub const E_BRD_005: &'static str = "E-BRD-005";
/// `E-BRD-006`: the output `brand.toml` exists and overwriting was not requested.
pub const E_BRD_006: &'static str = "E-BRD-006";
/// `E-BRD-007`: the logo path escapes the directory of `brand.toml`.
pub const E_BRD_007: &'static str = "E-BRD-007";

/// A location in a `.sf` source file (byte offsets).
#[derive(Debug, Clone, Copy, PartialEq, Eq, Structural, Hash, Default)]
pub struct SourceSpan {
    /// Start offset.
    pub start: usize,
    /// End offset.
    pub end: usize,
}

/// Errors and warnings produced by the brand library.
#[derive(Debug, Clone, PartialEq, Eq)]
pub enum BrandError {
    /// `E-BRD-001` — the brand template file was not found.
    FileNotFound { path: String, span: SourceSpan },
    /// `E-BRD-002` — the brand template exists but is not a readable OOXML package.
    ParseError { path: String, reason: String, span: SourceSpan },
    /// `E-BRD-003` — a color slot was absent and its value inferred.
    MissingColorSlot { slot_name: String, inferred_hex: String, derivation: String },
    /// `E-BRD-004` — a font of the template is not installed on the build host.
    FontUnavailable { font_name: String, fallback: String },
    /// `E-BRD-001` — a synthesized brand has no (or an empty) logo path.
    LogoRequired { span: SourceSpan },
    /// `E-BRD-001` — `brand.toml` could not be read.
    TomlReadError { path: String, reason: String },
    /// `E-BRD-002` — `brand.toml` is not valid TOML.
    TomlParseError { path: String, reason: String },
    /// `E-BRD-005` — a declared hex color is not valid; the slot is treated as absent.
    InvalidHexColor { slot_name: String, value: String },
    /// `E-BRD-007` — the logo path escapes the directory of `brand.toml`.
    LogoOutsideBrandDir { logo_path: String, brand_dir: String },
    /// `E-BRD-006` — the output `brand.toml` already exists.
    OutputExists { path: String },
    /// `E-BRD-004` — a font declared in `brand.toml` is not installed.
    DeclaredFontUnavailable { font_name: String },
}

/// The mathematical value of a [`BrandError`].
pub enum BrandErrorV {
    FileNotFound { path: Seq<char>, span: SourceSpan },
    ParseError { path: Seq<char>, reason: Seq<char>, span: SourceSpan },
    MissingColorSlot { slot_name: Seq<char>, inferred_hex: Seq<char>, derivation: Seq<char> },
    FontUnavailable { font_name: Seq<char>, fallback: Seq<char> },
    LogoRequired { span: SourceSpan },
    TomlReadError { path: Seq<char>, reason: Seq<char> },
    TomlParseError { path: Seq<char>, reason: Seq<char> },
    InvalidHexColor { slot_name: Seq<char>, value: Seq<char> },
    LogoOutsideBrandDir { logo_path: Seq<char>, brand_dir: Seq<char> },
    OutputExists { path: Seq<char> },
    DeclaredFontUnavailable { font_name: Seq<char> },
}

impl DeepView for BrandError {
    type V = BrandErrorV;

    open spec fn deep_view(&self) -> BrandErrorV {
        match self {
            BrandError::FileNotFound { path, span } => BrandErrorV::FileNotFound { path: path@, span: *span },
            BrandError::ParseError { path, reason, span } => BrandErrorV::ParseError {
                path: path@,
                reason: reason@,
                span: *span,
            },
            BrandError::MissingColorSlot { slot_name, inferred_hex, derivation } => BrandErrorV::MissingColorSlot {
                slot_name: slot_name@,
                inferred_hex: inferred_hex@,
                derivation: derivation@,
            },
            BrandError::FontUnavailable { font_name, fallback } => BrandErrorV::FontUnavailable {
                font_name: font_name@,
                fallback: fallback@,
            },
            BrandError::LogoRequired { span } => BrandErrorV::LogoRequired { span: *span },
            BrandError::TomlReadError { path, reason } => BrandErrorV::TomlReadError { path: path@, reason: reason@ },
            BrandError::TomlParseError { path, reason } => BrandErrorV::TomlParseError { path: path@, reason: reason@ },
            BrandError::InvalidHexColor { slot_name, value } => BrandErrorV::InvalidHexColor {
                slot_name: slot_name@,
                value: value@,
            },
            BrandError::LogoOutsideBrandDir { logo_path, brand_dir } => BrandErrorV::LogoOutsideBrandDir {
                logo_path: logo_path@,
                brand_dir: brand_dir@,
            },
            BrandError::OutputExists { path } => BrandErrorV::OutputExists { path: path@ },
            BrandError::DeclaredFontUnavailable { font_name } => BrandErrorV::DeclaredFontUnavailable {
                font_name: font_name@,
            },
        }
    }
}

impl BrandError {
    /// The error code (`"E-BRD-00N"`) of this error.
    pub fn code(&self) -> (c: &'static str)
        ensures
            c@ == error_code(self.deep_view()),
    {
        match self {
            BrandError::FileNotFound { .. } | BrandError::LogoRequired { .. } | BrandError::TomlReadError { .. } => E_BRD_001,
            BrandError::ParseError { .. } | BrandError::TomlParseError { .. } => E_BRD_002,
            BrandError::MissingColorSlot { .. } => E_BRD_003,
            BrandError::FontUnavailable { .. } | BrandError::DeclaredFontUnavailable { .. } => E_BRD_004,
            BrandError::InvalidHexColor { .. } => E_BRD_005,
            BrandError::OutputExists { .. } => E_BRD_006,
            BrandError::LogoOutsideBrandDir { .. } => E_BRD_007,
        }
    }

    /// Whether the error is fatal (the build stops, exit 4) rather than a cosmetic warning.
    pub fn is_fatal(&self) -> (f: bool)
        ensures
            f == !(self.deep_view() is MissingColorSlot || self.deep_view() is FontUnavailable
                || self.deep_view() is InvalidHexColor || self.deep_view() is DeclaredFontUnavailable),
    {
        !matches!(self, BrandError::MissingColorSlot { .. } | BrandError::FontUnavailable { .. }
            | BrandError::InvalidHexColor { .. } | BrandError::DeclaredFontUnavailable { .. })
    }
}

/// The error code of each kind of error.
pub open spec fn error_code(e: BrandErrorV) -> Seq<char> {
    match e {
        BrandErrorV::FileNotFound { .. } | BrandErrorV::LogoRequired { .. } | BrandErrorV::TomlReadError { .. } => E_BRD_001@,
        BrandErrorV::ParseError { .. } | BrandErrorV::TomlParseError { .. } => E_BRD_002@,
        BrandErrorV::MissingColorSlot { .. } => E_BRD_003@,
        BrandErrorV::FontUnavailable { .. } | BrandErrorV::DeclaredFontUnavailable { .. } => E_BRD_004@,
        BrandErrorV::InvalidHexColor { .. } => E_BRD_005@,
        BrandErrorV::OutputExists { .. } => E_BRD_006@,
        BrandErrorV::LogoOutsideBrandDir { .. } => E_BRD_007@,
    }
}

/// The message of an error, starting with its code.
pub open spec fn error_message(e: BrandErrorV) -> Seq<char> {
    match e {
        BrandErrorV::FileNotFound { path, .. } => "E-BRD-001: Brand file not found: '"@ + path
            + "'. Check the template path in slideforge.toml or --template flag."@,
        BrandErrorV::ParseError { path, reason, .. } => "E-BRD-002: Cannot parse brand template '"@ + path + "': "@
            + reason + ". File may be corrupted or not a valid PPTX/DOCX."@,
        BrandErrorV::MissingColorSlot { slot_name, inferred_hex, derivation } => "E-BRD-003: Brand color slot '"@
            + slot_name + "' inferred as "@ + inferred_hex + " (derived from "@ + derivation
            + "). Review in brand.toml to confirm."@,
        BrandErrorV::FontUnavailable { font_name, fallback } => "E-BRD-004: Font '"@ + font_name
            + "' not available on this build host. Using '"@ + fallback
            + "' for build-time metrics. Text metrics may differ."@,
        BrandErrorV::LogoRequired { .. } =>
            "E-BRD-001: A logo path is required. Add a [logo] section with 'path = \"...\"' to brand.toml, or give the slide's brand_overlay: a non-empty logo path."@,
        BrandErrorV::TomlReadError { path, reason } => "E-BRD-001: Cannot read brand.toml at '"@ + path + "': "@
            + reason + "."@,
        BrandErrorV::TomlParseError { path, reason } => "E-BRD-002: Cannot parse brand.toml at '"@ + path + "': "@
            + reason + ". File may contain invalid TOML syntax."@,
        BrandErrorV::InvalidHexColor { slot_name, value } => "E-BRD-005: Invalid hex color value '"@ + value
            + "' in brand.toml slot '"@ + slot_name
            + "'. Use 6-digit uppercase hex RGB (e.g. #3B82F6; case insensitive — uppercase or lowercase accepted)."@,
        BrandErrorV::LogoOutsideBrandDir { logo_path, brand_dir } => "E-BRD-007: Logo path '"@ + logo_path
            + "' escapes the brand.toml directory '"@ + brand_dir
            + "'. The logo file must be inside (or beneath) the brand.toml directory."@,
        BrandErrorV::OutputExists { path } => "E-BRD-006: "@ + path
            + ": brand.toml already exists. Use --force to overwrite."@,
        BrandErrorV::DeclaredFontUnavailable { font_name } => "E-BRD-004: Font '"@ + font_name
            + "' declared in brand.toml is not available on this build host. Build continues; output will use '"@
            + font_name + "'."@,
    }
}

impl BrandError {
    /// The message of this error (what it displays as), starting with its code.
    pub fn message(&self) -> (m: String)
        ensures
            m@ == error_message(self.deep_view()),
    {
        let mut m = String::new();
        match self {
            BrandError::FileNotFound { path, .. } => {
                m.append("E-BRD-001: Brand file not found: '");
                m.append(path.as_str());
                m.append("'. Check the template path in slideforge.toml or --template flag.");
            },
            BrandError::ParseError { path, reason, .. } => {
                m.append("E-BRD-002: Cannot parse brand template '");
                m.append(path.as_str());
                m.append("': ");
                m.append(reason.as_str());
                m.append(". File may be corrupted or not a valid PPTX/DOCX.");
            },
            BrandError::MissingColorSlot { slot_name, inferred_hex, derivation } => {
                m.append("E-BRD-003: Brand color slot '");
                m.append(slot_name.as_str());
                m.append("' inferred as ");
                m.append(inferred_hex.as_str());
                m.append(" (derived from ");
                m.append(derivation.as_str());
                m.append("). Review in brand.toml to confirm.");
            },
            BrandError::FontUnavailable { font_name, fallback } => {
                m.append("E-BRD-004: Font '");
                m.append(font_name.as_str());
                m.append("' not available on this build host. Using '");
                m.append(fallback.as_str());
                m.append("' for build-time metrics. Text metrics may differ.");
            },
            BrandError::LogoRequired { .. } => {
                m.append(
                    "E-BRD-001: A logo path is required. Add a [logo] section with 'path = \"...\"' to brand.toml, or give the slide's brand_overlay: a non-empty logo path.",
                );
            },
            BrandError::TomlReadError { path, reason } => {
                m.append("E-BRD-001: Cannot read brand.toml at '");
                m.append(path.as_str());
                m.append("': ");
                m.append(reason.as_str());
                m.append(".");
            },
            BrandError::TomlParseError { path, reason } => {
                m.append("E-BRD-002: Cannot parse brand.toml at '");
                m.append(path.as_str());
                m.append("': ");
                m.append(reason.as_str());
                m.append(". File may contain invalid TOML syntax.");
            },
            BrandError::InvalidHexColor { slot_name, value } => {
                m.append("E-BRD-005: Invalid hex color value '");
                m.append(value.as_str());
                m.append("' in brand.toml slot '");
                m.append(slot_name.as_str());
                m.append(
                    "'. Use 6-digit uppercase hex RGB (e.g. #3B82F6; case insensitive — uppercase or lowercase accepted).",
                );
            },
            BrandError::LogoOutsideBrandDir { logo_path, brand_dir } => {
                m.append("E-BRD-007: Logo path '");
                m.append(logo_path.as_str());
                m.append("' escapes the brand.toml directory '");
                m.append(brand_dir.as_str());
                m.append("'. The logo file must be inside (or beneath) the brand.toml directory.");
            },
            BrandError::OutputExists { path } => {
                m.append("E-BRD-006: ");
                m.append(path.as_str());
                m.append(": brand.toml already exists. Use --force to overwrite.");
            },
            BrandError::DeclaredFontUnavailable { font_name } => {
                m.append("E-BRD-004: Font '");
                m.append(font_name.as_str());
                m.append(
                    "' declared in brand.toml is not available on this build host. Build continues; output will use '",
                );
                m.append(font_name.as_str());
                m.append("'.");
            },
        }
        assert(m@ =~= error_message(self.deep_view()));
        m
    }
}

} // verus!
