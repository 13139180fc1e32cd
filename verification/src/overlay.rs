//! Per-slide brand overlays.
//!
//! A [`SlideOverlay`] is the parse-time metadata of one slide (a logo path,
//! footer text, a confidentiality label); [`resolve_overlay`] turns it into a
//! [`BrandOverlay`] with the logo bytes loaded. An overlay holds shape-level
//! overrides only: no master, layout or template reference, so a slide can
//! never switch masters through it.
use vstd::prelude::*;

use crate::error::{BrandError, BrandErrorV, SourceSpan};
use crate::extractor::{path_extension, path_extension_of};
use crate::text::{ascii_lower_is, eq_ascii_lower};

verus! {

/// A fully loaded per-slide brand overlay.
///
/// `footer_text`: `None` keeps the deck footer, `Some("")` clears the footer
/// text (the placeholder stays), `Some(text)` replaces it on this slide.
#[derive(Debug, Clone, PartialEq, Eq, Hash)]
pub struct BrandOverlay {
    /// Logo override for this slide.
    pub logo: Option<LogoOverride>,
    /// Footer text override for this slide.
    pub footer_text: Option<String>,
    /// Confidentiality label for this slide.
    pub confidentiality: Option<String>,
}

/// A loaded per-slide logo.
#[derive(Debug, Clone, PartialEq, Eq, Hash)]
pub struct LogoOverride {
    /// The logo path as declared on the slide.
    pub path: String,
    /// The image bytes.
    pub bytes: Vec<u8>,
    /// MIME type inferred from the file extension.
    pub media_type: String,
}

/// The parse-time overlay of a slide.
#[derive(Debug, Clone, PartialEq, Eq)]
pub struct SlideOverlay {
    /// Logo path, relative to the directory of the `.sf` source.
    pub logo_path: Option<String>,
    /// Footer text override.
    pub footer_text: Option<String>,
    /// Confidentiality label.
    pub confidentiality: Option<String>,
    /// Source location of the overlay.
    pub span: SourceSpan,
}

impl SlideOverlay {
    /// Whether the overlay changes nothing.
    pub fn is_empty(&self) -> (r: bool)
        ensures
            r == (self.logo_path is None && self.footer_text is None && self.confidentiality is None),
    {
        self.logo_path.is_none() && self.footer_text.is_none() && self.confidentiality.is_none()
    }
}

/// The MIME type of a logo with file extension `ext` (compared ASCII-case-insensitively).
pub open spec fn overlay_media_type(ext: Option<Seq<char>>) -> Seq<char> {
    match ext {
        Some(e) => if ascii_lower_is(e, "png"@) {
            "image/png"@
        } else if ascii_lower_is(e, "jpg"@) || ascii_lower_is(e, "jpeg"@) {
            "image/jpeg"@
        } else if ascii_lower_is(e, "gif"@) {
            "image/gif"@
        } else if ascii_lower_is(e, "svg"@) {
            "image/svg+xml"@
        } else {
            "application/octet-stream"@
        },
        None => "application/octet-stream"@,
    }
}

/// The MIME type of a logo file from its extension: PNG, JPEG, GIF and SVG
/// are recognized, anything else is `application/octet-stream`.
pub fn infer_media_type(path: &str) -> (r: String)
    ensures
        r@ == overlay_media_type(path_extension_of(path@)),
{
    match path_extension(path) {
        Some(e) => {
            let e = e.as_str();
            if eq_ascii_lower(e, "png") {
                String::from_str("image/png")
            } else if eq_ascii_lower(e, "jpg") || eq_ascii_lower(e, "jpeg") {
                String::from_str("image/jpeg")
            } else if eq_ascii_lower(e, "gif") {
                String::from_str("image/gif")
            } else if eq_ascii_lower(e, "svg") {
                String::from_str("image/svg+xml")
            } else {
                String::from_str("application/octet-stream")
            }
        },
        None => String::from_str("application/octet-stream"),
    }
}

/// Resolve a slide overlay.
///
/// `logo_location` is where the overlay's logo path resolves to (its
/// extension gives the MIME type) and `logo_bytes` what was read there, or
/// `None` when the file is missing or unreadable; both are ignored without a
/// logo path. An empty overlay resolves to `Ok(None)`; a logo that could not
/// be read gives [`BrandError::FileNotFound`] (`E-BRD-001`) with the declared path.
pub fn resolve_overlay(raw: &SlideOverlay, logo_location: &str, logo_bytes: Option<Vec<u8>>) -> (r: Result<
    Option<BrandOverlay>,
    BrandError,
>)
    ensures
        (raw.logo_path is None && raw.footer_text is None && raw.confidentiality is None) ==> r matches Ok(None),
        !(raw.logo_path is None && raw.footer_text is None && raw.confidentiality is None) ==> match raw.logo_path {
            Some(p) => match logo_bytes {
                None => r matches Err(e) && e.deep_view() == (BrandErrorV::FileNotFound { path: p@, span: raw.span }),
                Some(b) => r matches Ok(Some(o)) && o.logo matches Some(l) && l.path@ == p@ && l.bytes@ == b@
                    && l.media_type@ == overlay_media_type(path_extension_of(logo_location@))
                    && o.footer_text.deep_view() == raw.footer_text.deep_view()
                    && o.confidentiality.deep_view() == raw.confidentiality.deep_view(),
            },
            None => r matches Ok(Some(o)) && o.logo is None && o.footer_text.deep_view() == raw.footer_text.deep_view()
                && o.confidentiality.deep_view() == raw.confidentiality.deep_view(),
        },
{
    if raw.is_empty() {
        return Ok(None);
    }
    let logo = match &raw.logo_path {
        None => None,
        Some(p) => match logo_bytes {
            None => {
                return Err(BrandError::FileNotFound { path: p.clone(), span: raw.span });
            },
            Some(bytes) => Some(LogoOverride { path: p.clone(), bytes, media_type: infer_media_type(logo_location) }),
        },
    };
    Ok(Some(BrandOverlay { logo, footer_text: raw.footer_text.clone(), confidentiality: raw.confidentiality.clone() }))
}

} // verus!
