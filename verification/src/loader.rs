//! Loading a brand template from a `.pptx` or `.docx` package.
//!
//! The package type is told by its theme part: `ppt/theme/theme1.xml` makes
//! a `.pptx`, `word/theme/theme1.xml` a `.docx`; a package with neither is
//! refused with `E-BRD-002`. From the theme come the 12 color slots and the
//! heading and body fonts; a `.pptx` also gives its logo, its footer and the
//! package paths of its slide layouts.
use vstd::prelude::*;

use crate::archive::{zip_entry, zip_entry_of, zip_file_names, zip_names_of, ZipEntry, ZipEntryV};
use crate::color::{parse_theme_colors, theme_colors_of};
use crate::context::BrandLoadContext;
use crate::error::{error_message, BrandError, BrandErrorV, SourceSpan};
use crate::extractor::{path_extension, path_extension_of};
use crate::font::{font_or_calibri, font_run, parse_theme_fonts};
use crate::footer::{detect_footer, detect_footer_of};
use crate::logo::{extract_logo, logo_of};
use crate::template::{colors_view, BrandTemplate, ColorSlotV, ColorValueV, MasterIds};
use crate::text::{
    ascii_lower_is, contains_str, eq_ascii_lower, starts_with, str_contains, str_eq,
    str_starts_with,
};
use crate::xml::xml_events_of;

verus! {

/// Package path of the theme of a `.pptx`.
pub const PPTX_THEME_PATH: &'static str = "ppt/theme/theme1.xml";
/// Package path of the theme of a `.docx`.
pub const DOCX_THEME_PATH: &'static str = "word/theme/theme1.xml";
/// Reason of the error for a package without a theme part.
pub const NO_THEME_REASON: &'static str = "neither ppt/theme/theme1.xml nor word/theme/theme1.xml found in archive";

// ─── Slide layout parts ──────────────────────────────────────────────────────

/// Whether a package entry is a slide layout part: under
/// `ppt/slideLayouts/slideLayout`, with extension `xml` (any ASCII case),
/// and not a relationships part.
pub open spec fn is_layout_part(name: Seq<char>) -> bool {
    &&& starts_with(name, "ppt/slideLayouts/slideLayout"@)
    &&& match path_extension_of(name) {
        Some(e) => ascii_lower_is(e, "xml"@),
        None => false,
    }
    &&& !contains_str(name, "_rels"@)
}

/// The slide layout parts among `names`, in their order.
pub open spec fn layout_parts(names: Seq<Seq<char>>) -> Seq<Seq<char>>
    decreases names.len(),
{
    if names.len() == 0 {
        Seq::empty()
    } else {
        let sub = layout_parts(names.drop_last());
        if is_layout_part(names.last()) {
            sub.push(names.last())
        } else {
            sub
        }
    }
}

fn is_layout_part_str(name: &str) -> (r: bool)
    ensures
        r == is_layout_part(name@),
{
    if !str_starts_with(name, "ppt/slideLayouts/slideLayout") {
        return false;
    }
    let xml_ext = match path_extension(name) {
        Some(e) => eq_ascii_lower(e.as_str(), "xml"),
        None => false,
    };
    xml_ext && !str_contains(name, "_rels")
}

/// The package paths of the slide layout parts of `archive`, in archive order.
pub fn layout_part_names(archive: &[u8]) -> (r: Vec<String>)
    ensures
        r.deep_view() == layout_parts(zip_names_of(archive@)),
{
    let names = zip_file_names(archive);
    let ghost nv = names.deep_view();
    let mut out: Vec<String> = Vec::new();
    let mut i: usize = 0;
    assert(nv.take(0) =~= Seq::<Seq<char>>::empty());
    while i < names.len()
        invariant
            nv == names.deep_view(),
            nv == zip_names_of(archive@),
            i <= names.len(),
            out.deep_view() == layout_parts(nv.take(i as int)),
        decreases names.len() - i,
    {
        assert(nv.take(i + 1).drop_last() =~= nv.take(i as int));
        assert(nv.take(i + 1).last() == names[i as int]@);
        if is_layout_part_str(names[i].as_str()) {
            let ghost before = out.deep_view();
            out.push(names[i].clone());
            assert(out.deep_view() =~= before.push(names[i as int]@));
        }
        i = i + 1;
    }
    assert(nv.take(names.len() as int) =~= nv);
    out
}

// ─── Loading ─────────────────────────────────────────────────────────────────

/// Whether the package has the part (it may still fail to read).
pub open spec fn has_part(e: ZipEntryV) -> bool {
    e is Bytes || e is Unreadable
}

/// What a template loaded from `archive` holds, given its kind and theme bytes.
pub open spec fn loaded_template(t: BrandTemplate, archive: Seq<u8>, is_pptx: bool, theme: Seq<u8>) -> bool {
    let evs = xml_events_of(theme, true);
    let footer = detect_footer_of(archive, is_pptx);
    &&& colors_view(t.colors) == theme_colors_of(evs).0
    &&& t.fonts.heading@ == font_or_calibri(font_run(evs, evs.len()).heading)
    &&& t.fonts.body@ == font_or_calibri(font_run(evs, evs.len()).body)
    &&& match t.logo {
        Some(l) => is_pptx && logo_of(archive) == Some(l.deep_view()),
        None => !is_pptx || logo_of(archive) is None,
    }
    &&& t.footer_text.deep_view() == footer.text
    &&& t.footer_flags == footer.flags
    &&& t.layout_names.deep_view() == (if is_pptx {
        layout_parts(zip_names_of(archive))
    } else {
        Seq::empty()
    })
    &&& t.layouts.len() == 0
    &&& t.notes_master_stub@.len() == 0
    &&& t.handout_master_stub@.len() == 0
    &&& t.master_ids == (MasterIds { master_id: 0x8000_0000, layout_id_start: 0x8000_0001, slide_id_start: 256 })
    &&& t.content_types_layout_entries@.len() == 0
}

/// The outcome of loading the package `archive` found at `path`.
pub open spec fn load_outcome(path: Seq<char>, archive: Seq<u8>, span: SourceSpan, r: Result<BrandTemplate, BrandError>) -> bool {
    let pe = zip_entry_of(archive, PPTX_THEME_PATH@);
    match pe {
        ZipEntryV::NoArchive(msg) => r matches Err(e) && e.deep_view() == (BrandErrorV::ParseError {
            path,
            reason: msg,
            span,
        }),
        _ => {
            let is_pptx = has_part(pe);
            let te = if is_pptx {
                pe
            } else {
                zip_entry_of(archive, DOCX_THEME_PATH@)
            };
            match te {
                ZipEntryV::Bytes(theme) => r matches Ok(t) && loaded_template(t, archive, is_pptx, theme),
                ZipEntryV::Unreadable(msg) => r matches Err(e) && e.deep_view() == (BrandErrorV::ParseError {
                    path,
                    reason: msg,
                    span,
                }),
                _ => r matches Err(e) && e.deep_view() == (BrandErrorV::ParseError {
                    path,
                    reason: NO_THEME_REASON@,
                    span,
                }),
            }
        },
    }
}

/// The built-in brand loader for `.pptx` and `.docx` templates.
#[derive(Debug, Default)]
pub struct BrandLoader;

impl BrandLoader {
    /// A new loader.
    pub fn new() -> (r: Self) {
        BrandLoader
    }

    /// The provider id of the loader.
    pub fn id(&self) -> (r: &'static str)
        ensures
            r@ == "slideforge-brand/default"@,
    {
        "slideforge-brand/default"
    }

    /// Load a brand template from the package read from `path`.
    ///
    /// `file` is the content of the file, or `None` when it could not be
    /// opened, which gives [`BrandError::FileNotFound`] (`E-BRD-001`). Bytes
    /// that are not a ZIP archive, a package without a theme part and a theme
    /// part that cannot be read give [`BrandError::ParseError`] (`E-BRD-002`).
    pub fn load_template(&self, path: &str, file: Option<&[u8]>, ctx: &BrandLoadContext) -> (r: Result<
        BrandTemplate,
        BrandError,
    >)
        ensures
            file is None ==> (r matches Err(e) && e.deep_view() == (BrandErrorV::FileNotFound {
                path: path@,
                span: ctx.span,
            })),
            file matches Some(b) ==> load_outcome(path@, b@, ctx.span, r),
    {
        let archive = match file {
            None => {
                return Err(BrandError::FileNotFound { path: String::from_str(path), span: ctx.span });
            },
            Some(b) => b,
        };
        let pe = zip_entry(archive, PPTX_THEME_PATH);
        let is_pptx = match &pe {
            ZipEntry::NoArchive(msg) => {
                return Err(BrandError::ParseError { path: String::from_str(path), reason: msg.clone(), span: ctx.span });
            },
            ZipEntry::Bytes(_) => true,
            ZipEntry::Unreadable(_) => true,
            ZipEntry::Missing(_) => false,
        };
        let te = if is_pptx {
            pe
        } else {
            zip_entry(archive, DOCX_THEME_PATH)
        };
        let theme = match te {
            ZipEntry::Bytes(b) => b,
            ZipEntry::Unreadable(msg) => {
                return Err(BrandError::ParseError { path: String::from_str(path), reason: msg, span: ctx.span });
            },
            _ => {
                return Err(
                    BrandError::ParseError {
                        path: String::from_str(path),
                        reason: String::from_str(NO_THEME_REASON),
                        span: ctx.span,
                    },
                );
            },
        };
        let colors = match parse_theme_colors(theme.as_slice()) {
            Ok((c, _warnings)) => c,
            Err(e) => return Err(e),
        };
        let fonts = match parse_theme_fonts(theme.as_slice()) {
            Ok(f) => f,
            Err(e) => return Err(e),
        };
        let logo = if is_pptx {
            extract_logo(archive)
        } else {
            None
        };
        let footer = detect_footer(archive, is_pptx);
        let layout_names = if is_pptx {
            layout_part_names(archive)
        } else {
            Vec::new()
        };
        let t = BrandTemplate {
            colors,
            fonts,
            logo,
            footer_text: footer.text,
            footer_flags: footer.flags,
            layout_names,
            layouts: Vec::new(),
            notes_master_stub: Vec::new(),
            handout_master_stub: Vec::new(),
            master_ids: MasterIds::default(),
            content_types_layout_entries: String::new(),
        };
        assert(t.layout_names.deep_view() =~= (if is_pptx {
            layout_parts(zip_names_of(archive@))
        } else {
            Seq::empty()
        }));
        Ok(t)
    }
}

// ─── The brand handed to the rest of the pipeline ───────────────────────────

/// The four palette colors of a brand.
#[derive(Debug, Clone, PartialEq, Eq)]
pub struct BrandPalette {
    /// `dk2`.
    pub primary: String,
    /// `acc1`.
    pub secondary: String,
    /// `acc2`.
    pub accent: String,
    /// `lt2`.
    pub neutral: String,
}

/// The fonts of a brand.
#[derive(Debug, Clone, PartialEq, Eq)]
pub struct BrandFontSet {
    /// Heading font.
    pub heading: String,
    /// Body font.
    pub body: String,
    /// Monospace font.
    pub mono: String,
}

/// A brand as the layout and export stages see it.
#[derive(Debug, Clone, PartialEq, Eq)]
pub struct Brand {
    /// Brand name (the file stem of the template).
    pub name: String,
    /// Palette.
    pub palette: BrandPalette,
    /// Fonts.
    pub fonts: BrandFontSet,
    /// Source location.
    pub span: SourceSpan,
}

/// The hex of the first slot named `name` at or after `i`; `fallback` when
/// there is none or it is a scheme reference.
pub open spec fn first_named_hex(colors: Seq<ColorSlotV>, name: Seq<char>, i: int, fallback: Seq<char>) -> Seq<char>
    decreases colors.len() - i,
{
    if i < 0 || i >= colors.len() {
        fallback
    } else if colors[i].name == name {
        match colors[i].value {
            ColorValueV::Hex(h) => h,
            ColorValueV::SchemeRef(_) => fallback,
        }
    } else {
        first_named_hex(colors, name, i + 1, fallback)
    }
}

/// The hex of the first slot of `template` named `name`, or `fallback`.
pub fn slot_hex_or(template: &BrandTemplate, name: &str, fallback: &str) -> (r: String)
    ensures
        r@ == first_named_hex(colors_view(template.colors), name@, 0, fallback@),
{
    let ghost cv = colors_view(template.colors);
    let mut r = String::from_str(fallback);
    let mut i: usize = 12;
    while i > 0
        invariant
            i <= 12,
            cv == colors_view(template.colors),
            r@ == first_named_hex(cv, name@, i as int, fallback@),
        decreases i,
    {
        i = i - 1;
        assert(cv[i as int] == template.colors[i as int].deep_view());
        if str_eq(template.colors[i].name.as_str(), name) {
            r = match template.colors[i].hex() {
                Some(h) => String::from_str(h),
                None => String::from_str(fallback),
            };
        }
    }
    r
}

/// What `Path::file_stem` returns for `path` (with the path separators of
/// the platform the library is built for).
pub uninterp spec fn path_file_stem_of(path: Seq<char>) -> Option<Seq<char>>;

/// `Path::new(path).file_stem()`, as a string.
///
/// Trusted: the result is what the standard library's `Path::file_stem`
/// returns (the last path component without its extension), claimed to
/// depend on `path` alone.
#[verifier::external_body]
fn path_file_stem(path: &str) -> (r: Option<String>)
    ensures
        r.deep_view() == path_file_stem_of(path@),
{
    std::path::Path::new(path).file_stem().and_then(|s| s.to_str()).map(str::to_owned)
}

/// The brand of a loaded template: named after the file stem of
/// `source_path` (`brand` without one), with palette `dk2`, `acc1`, `acc2`,
/// `lt2` (`#808080` for a slot without a hex) and mono font `Courier New`.
pub fn brand_from_template(template: &BrandTemplate, source_path: &str) -> (b: Brand)
    ensures
        b.name@ == match path_file_stem_of(source_path@) {
            Some(s) => s,
            None => "brand"@,
        },
        b.palette.primary@ == first_named_hex(colors_view(template.colors), "dk2"@, 0, "#808080"@),
        b.palette.secondary@ == first_named_hex(colors_view(template.colors), "acc1"@, 0, "#808080"@),
        b.palette.accent@ == first_named_hex(colors_view(template.colors), "acc2"@, 0, "#808080"@),
        b.palette.neutral@ == first_named_hex(colors_view(template.colors), "lt2"@, 0, "#808080"@),
        b.fonts.heading@ == template.fonts.heading@,
        b.fonts.body@ == template.fonts.body@,
        b.fonts.mono@ == "Courier New"@,
        b.span == (SourceSpan { start: 0, end: 0 }),
{
    let name = match path_file_stem(source_path) {
        Some(s) => s,
        None => String::from_str("brand"),
    };
    let palette = BrandPalette {
        primary: slot_hex_or(template, "dk2", "#808080"),
        secondary: slot_hex_or(template, "acc1", "#808080"),
        accent: slot_hex_or(template, "acc2", "#808080"),
        neutral: slot_hex_or(template, "lt2", "#808080"),
    };
    let fonts = BrandFontSet {
        heading: template.fonts.heading.clone(),
        body: template.fonts.body.clone(),
        mono: String::from_str("Courier New"),
    };
    Brand { name, palette, fonts, span: SourceSpan { start: 0, end: 0 } }
}

// ─── Provider errors ─────────────────────────────────────────────────────────

/// The errors of the brand provider interface.
#[derive(Debug, Clone, PartialEq, Eq)]
pub enum ProviderError {
    /// The brand source does not exist.
    SourceNotFound { uri: String },
    /// The brand source cannot be parsed.
    ParseError { uri: String, message: String },
    /// The brand source cannot be read.
    IoError { uri: String, message: String },
    /// The brand is not valid, or the source is not supported.
    ValidationError { message: String },
}

/// The mathematical value of a [`ProviderError`].
pub enum ProviderErrorV {
    SourceNotFound { uri: Seq<char> },
    ParseError { uri: Seq<char>, message: Seq<char> },
    IoError { uri: Seq<char>, message: Seq<char> },
    ValidationError { message: Seq<char> },
}

impl DeepView for ProviderError {
    type V = ProviderErrorV;

    open spec fn deep_view(&self) -> ProviderErrorV {
        match self {
            ProviderError::SourceNotFound { uri } => ProviderErrorV::SourceNotFound { uri: uri@ },
            ProviderError::ParseError { uri, message } => ProviderErrorV::ParseError { uri: uri@, message: message@ },
            ProviderError::IoError { uri, message } => ProviderErrorV::IoError { uri: uri@, message: message@ },
            ProviderError::ValidationError { message } => ProviderErrorV::ValidationError { message: message@ },
        }
    }
}

/// How the loader reports an error through the provider interface.
pub open spec fn loader_provider_error(e: BrandErrorV) -> ProviderErrorV {
    match e {
        BrandErrorV::FileNotFound { path, .. } => ProviderErrorV::SourceNotFound { uri: path },
        BrandErrorV::ParseError { path, reason, .. } => ProviderErrorV::ParseError { uri: path, message: reason },
        _ => ProviderErrorV::ValidationError { message: error_message(e) },
    }
}

/// The provider error of a loading error: a missing file is a missing
/// source, a parse error stays one, anything else is a validation error
/// with the error's message.
pub fn to_provider_error(e: &BrandError) -> (r: ProviderError)
    ensures
        r.deep_view() == loader_provider_error(e.deep_view()),
{
    match e {
        BrandError::FileNotFound { path, .. } => ProviderError::SourceNotFound { uri: path.clone() },
        BrandError::ParseError { path, reason, .. } => ProviderError::ParseError { uri: path.clone(), message: reason.clone() },
        _ => ProviderError::ValidationError { message: e.message() },
    }
}

/// The provider error for a `brand.toml` source handed to the template
/// loader, which reads only `.pptx` and `.docx` packages.
pub fn toml_source_error(path: &str) -> (r: ProviderError)
    ensures
        r.deep_view() == (ProviderErrorV::ValidationError {
            message: "TOML brand files are not yet supported by the built-in brand loader (path: '"@ + path@
                + "'). Use a .pptx or .docx template source. TOML synthesis is implemented in STORY-023."@,
        }),
{
    let mut m = String::from_str("TOML brand files are not yet supported by the built-in brand loader (path: '");
    m.append(path);
    m.append("'). Use a .pptx or .docx template source. TOML synthesis is implemented in STORY-023.");
    ProviderError::ValidationError { message: m }
}

} // verus!
