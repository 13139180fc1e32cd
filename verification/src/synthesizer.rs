//! Synthesizing a complete brand template from a `brand.toml` configuration.
//!
//! Synthesis is pure: the logo is required (`E-BRD-001` without one), the 12
//! color slots are the declared colors completed by inference, the fonts and
//! footer text come from the configuration, and the template carries the 31
//! generated layouts, the `[Content_Types].xml` layout overrides, the notes
//! and handout master stubs and the standard master identifiers. The logo is
//! not read: it is carried as a deferred asset.
use vstd::prelude::*;

use crate::error::{error_message, BrandError, BrandErrorV, SourceSpan};
use crate::loader::{first_named_hex, slot_hex_or, Brand, BrandFontSet, BrandPalette, ProviderError, ProviderErrorV};
use crate::footer::{no_flags, FooterFlags};
use crate::inference::{
    absent_count, config_value, declared_hex, declared_slots, declared_view, final_color, final_hex, inference_rules,
    inferred_warnings, inferred_warnings_of, invalid_hex_warnings, is_valid_hex_decl,
    lemma_darkest_choice, lemma_final_hex_canonical, lemma_one_warning_per_absent_slot, opt_strings_view,
    is_declared_color, lemma_canonical_declaration, rule_of, strings_view,
};
use crate::layout_xml::{
    content_type_entries, generate_content_types_layout_entries, HANDOUT_MASTER_STUB,
    NOTES_MASTER_STUB,
};
use crate::layouts::{generate_all_layouts, layout_table, layouts_view, LayoutView, SlideLayoutDef};
use crate::template::{
    colors_view, slot_name, slot_name_str, BrandFonts, BrandTemplate, ColorSlot, ColorSlotV,
    ColorValue, ColorValueV, LogoAsset, LogoAssetV, MasterIds,
};
use crate::text::str_starts_with;
use crate::color::{is_hex_color, lemma_default_color_is_hex_color, lemma_theme_colors_well_formed, theme_colors_of};
use crate::extractor::written_hex;
use crate::xml::EventV;
use crate::toml_schema::BrandConfig;

verus! {

/// The 12 color slots built from their hex colors, named in ECMA-376 order.
pub fn build_color_slots(hex_slots: &Vec<String>) -> (r: [ColorSlot; 12])
    requires
        hex_slots.len() == 12,
    ensures
        forall|i: int| 0 <= i < 12 ==> (#[trigger] colors_view(r)[i]) == (ColorSlotV {
            name: slot_name(i),
            value: ColorValueV::Hex(hex_slots@[i]@),
            is_derived: false,
        }),
{
    let r = [
        ColorSlot { name: String::from_str(slot_name_str(0)), value: ColorValue::Hex(hex_slots[0].clone()), is_derived: false },
        ColorSlot { name: String::from_str(slot_name_str(1)), value: ColorValue::Hex(hex_slots[1].clone()), is_derived: false },
        ColorSlot { name: String::from_str(slot_name_str(2)), value: ColorValue::Hex(hex_slots[2].clone()), is_derived: false },
        ColorSlot { name: String::from_str(slot_name_str(3)), value: ColorValue::Hex(hex_slots[3].clone()), is_derived: false },
        ColorSlot { name: String::from_str(slot_name_str(4)), value: ColorValue::Hex(hex_slots[4].clone()), is_derived: false },
        ColorSlot { name: String::from_str(slot_name_str(5)), value: ColorValue::Hex(hex_slots[5].clone()), is_derived: false },
        ColorSlot { name: String::from_str(slot_name_str(6)), value: ColorValue::Hex(hex_slots[6].clone()), is_derived: false },
        ColorSlot { name: String::from_str(slot_name_str(7)), value: ColorValue::Hex(hex_slots[7].clone()), is_derived: false },
        ColorSlot { name: String::from_str(slot_name_str(8)), value: ColorValue::Hex(hex_slots[8].clone()), is_derived: false },
        ColorSlot { name: String::from_str(slot_name_str(9)), value: ColorValue::Hex(hex_slots[9].clone()), is_derived: false },
        ColorSlot { name: String::from_str(slot_name_str(10)), value: ColorValue::Hex(hex_slots[10].clone()), is_derived: false },
        ColorSlot { name: String::from_str(slot_name_str(11)), value: ColorValue::Hex(hex_slots[11].clone()), is_derived: false },
    ];
    assert forall|i: int| 0 <= i < 12 implies (#[trigger] colors_view(r)[i]) == (ColorSlotV {
        name: slot_name(i),
        value: ColorValueV::Hex(hex_slots@[i]@),
        is_derived: false,
    }) by {
        assert(colors_view(r)[i] == r@[i].deep_view());
    }
    r
}

/// Whether the configuration lacks a usable logo path.
pub open spec fn logo_missing(config: BrandConfig) -> bool {
    match config.logo {
        Some(l) => l.path@.len() == 0,
        None => true,
    }
}

/// The names of a sequence of layouts.
pub open spec fn layout_names_of(ls: Seq<LayoutView>) -> Seq<Seq<char>> {
    ls.map_values(|l: LayoutView| l.name)
}

/// What a template synthesized from `config`, with `inferred` holding the
/// colors inferred for the absent slots, holds, and the warnings that come with it.
pub open spec fn synthesized(config: BrandConfig, inferred: Seq<Seq<char>>, t: BrandTemplate, w: Seq<BrandErrorV>) -> bool {
    let dv = declared_view(config.colors);
    &&& forall|i: int| 0 <= i < 12 ==> (#[trigger] colors_view(t.colors)[i]) == (ColorSlotV {
        name: slot_name(i),
        value: ColorValueV::Hex(final_hex(dv, inferred, i)),
        is_derived: false,
    })
    &&& w == invalid_hex_warnings(config.colors, 12) + inferred_warnings_of(dv, inferred, 12)
    &&& t.fonts.heading@ == config.fonts.heading@
    &&& t.fonts.body@ == config.fonts.body@
    &&& t.footer_text.deep_view() == (if config.footer.text@.len() == 0 {
        None
    } else {
        Some(config.footer.text@)
    })
    &&& t.footer_flags == no_flags()
    &&& layouts_view(t.layouts@) == layout_table()
    &&& t.layout_names.deep_view() == layout_names_of(layout_table())
    &&& t.content_types_layout_entries@ == content_type_entries(layout_table().len())
    &&& t.notes_master_stub@ == NOTES_MASTER_STUB@
    &&& t.handout_master_stub@ == HANDOUT_MASTER_STUB@
    &&& t.master_ids == (MasterIds { master_id: 0x8000_0000, layout_id_start: 0x8000_0001, slide_id_start: 256 })
    &&& match config.logo {
        Some(l) => t.logo matches Some(a) && a.deep_view() == (LogoAssetV::Deferred { path: l.path@, original: l.path@ }),
        None => false,
    }
}

fn layout_names(layouts: &Vec<SlideLayoutDef>) -> (r: Vec<String>)
    ensures
        r.deep_view() == layout_names_of(layouts_view(layouts@)),
{
    let ghost lv = layouts_view(layouts@);
    let mut names: Vec<String> = Vec::new();
    let mut i: usize = 0;
    while i < layouts.len()
        invariant
            lv == layouts_view(layouts@),
            i <= layouts.len(),
            names.deep_view() == layout_names_of(lv.take(i as int)),
        decreases layouts.len() - i,
    {
        let ghost before = names.deep_view();
        names.push(layouts[i].name.clone());
        assert(lv[i as int] == layouts@[i as int]@);
        assert(names.deep_view() =~= before.push(layouts@[i as int].name@));
        assert(layout_names_of(lv.take(i + 1)) =~= layout_names_of(lv.take(i as int)).push(lv[i as int].name));
        assert(names.deep_view() =~= layout_names_of(lv.take(i + 1)));
        i = i + 1;
    }
    assert(lv.take(layouts.len() as int) =~= lv);
    names
}

/// Synthesizes brand templates from `brand.toml` configurations.
#[derive(Debug, Default)]
pub struct BrandSynthesizer;

impl BrandSynthesizer {
    /// The provider id of the synthesizer.
    pub fn id(&self) -> (r: &'static str)
        ensures
            r@ == "slideforge-brand-synthesizer"@,
    {
        "slideforge-brand-synthesizer"
    }

    /// Synthesize a brand template from `config`.
    ///
    /// `inferred` holds, for each of the 12 slots in ECMA-376 order, a
    /// canonical `#RRGGBB` color computed in floating point for the slot's
    /// inference rule: the darkest declared color by luminance (taken only
    /// when it is a declared color; else the first declared color, or
    /// `#1F2937` without any), or a lightened, darkened or hue-rotated color.
    /// It is read only for absent slots with such a rule; the fixed and
    /// copied colors are applied here. A missing or empty logo path is refused with
    /// [`BrandError::LogoRequired`]. The warnings are the `E-BRD-005` warnings
    /// of invalid declared colors, then one `E-BRD-003` warning per inferred slot.
    pub fn synthesize(config: &BrandConfig, inferred: &Vec<String>) -> (r: Result<(BrandTemplate, Vec<BrandError>), BrandError>)
        requires
            inferred.len() == 12,
            forall|i: int| 0 <= i < 12 ==> is_hex_color(#[trigger] inferred@[i]@),
        ensures
            logo_missing(*config) ==> (r matches Err(e) && e.deep_view() == (BrandErrorV::LogoRequired {
                span: SourceSpan { start: 0, end: 0 },
            })),
            !logo_missing(*config) ==> (r matches Ok((t, w)) && synthesized(
                *config,
                strings_view(inferred@),
                t,
                w.deep_view(),
            )),
    {
        let logo_path = match &config.logo {
            Some(l) => {
                if l.path.as_str().unicode_len() == 0 {
                    return Err(BrandError::LogoRequired { span: SourceSpan { start: 0, end: 0 } });
                }
                l.path.clone()
            },
            None => {
                return Err(BrandError::LogoRequired { span: SourceSpan { start: 0, end: 0 } });
            },
        };

        let (declared, mut warnings) = declared_slots(&config.colors);
        let ghost dv = opt_strings_view(declared@);
        let ghost iv = strings_view(inferred@);
        let inferred_w = inferred_warnings(&declared, inferred);
        let ghost w1 = warnings.deep_view();
        let mut iw = inferred_w;
        warnings.append(&mut iw);
        assert(warnings.deep_view() =~= w1 + inferred_w.deep_view());

        let rules = inference_rules(&declared);
        let mut hex_slots: Vec<String> = Vec::new();
        let mut i: usize = 0;
        while i < 12
            invariant
                declared.len() == 12,
                inferred.len() == 12,
                dv == opt_strings_view(declared@),
                iv == strings_view(inferred@),
                rules.len() == 12,
                forall|j: int| 0 <= j < 12 ==> (#[trigger] rules@[j]).deep_view() == rule_of(dv, j),
                i <= 12,
                hex_slots.len() == i,
                forall|j: int| 0 <= j < i ==> (#[trigger] hex_slots@[j])@ == final_hex(dv, iv, j),
            decreases 12 - i,
        {
            let h = final_color(&declared, &rules, inferred, i);
            hex_slots.push(h);
            i = i + 1;
        }
        let colors = build_color_slots(&hex_slots);

        let fonts = BrandFonts { heading: config.fonts.heading.clone(), body: config.fonts.body.clone() };
        let footer_text = if config.footer.text.as_str().unicode_len() == 0 {
            None
        } else {
            Some(config.footer.text.clone())
        };
        let layouts = generate_all_layouts(config);
        let layout_names = layout_names(&layouts);
        let content_types_layout_entries = generate_content_types_layout_entries(layouts.len());
        let notes: &[u8] = &NOTES_MASTER_STUB;
        let handout: &[u8] = &HANDOUT_MASTER_STUB;
        let notes_master_stub = vstd::slice::slice_to_vec(notes);
        let handout_master_stub = vstd::slice::slice_to_vec(handout);
        let logo = Some(LogoAsset::Deferred { path: logo_path.clone(), original: logo_path });
        let t = BrandTemplate {
            colors,
            fonts,
            logo,
            footer_text,
            footer_flags: FooterFlags { show_footer: false, show_date: false, show_slide_number: false },
            layout_names,
            layouts,
            notes_master_stub,
            handout_master_stub,
            master_ids: MasterIds::default(),
            content_types_layout_entries,
        };
        assert(layouts_view(t.layouts@).len() == t.layouts@.len());
        Ok((t, warnings))
    }
}

/// The Windows extended-length prefix `\\?\`.
pub const UNC_PREFIX: &'static str = "\\\\?\\";

/// `path` without a leading `\\?\` prefix when `windows`.
pub open spec fn unc_stripped(path: Seq<char>, windows: bool) -> Seq<char> {
    if windows && path.len() >= 4 && path.subrange(0, 4) == UNC_PREFIX@ {
        path.subrange(4, path.len() as int)
    } else {
        path
    }
}

/// `path` without a leading `\\?\` extended-length prefix, which Windows'
/// `canonicalize` adds, so that two canonical paths compare as prefixes.
/// `windows` tells whether the library runs on Windows; elsewhere the path is
/// returned unchanged.
pub fn strip_unc_prefix(path: &str, windows: bool) -> (r: String)
    ensures
        r@ == unc_stripped(path@, windows),
{
    proof {
        reveal_strlit("\\\\?\\");
    }
    if windows && str_starts_with(path, UNC_PREFIX) {
        let n = path.unicode_len();
        String::from_str(path.substring_char(4, n))
    } else {
        String::from_str(path)
    }
}

/// What `Path::starts_with` returns for `path` and `base`: whether the
/// components of `base` are the first components of `path` (with the path
/// separators of the platform the library is built for).
pub uninterp spec fn path_starts_with_of(path: Seq<char>, base: Seq<char>) -> bool;

/// `Path::new(path).starts_with(base)`.
///
/// Trusted: the result is what the standard library's `Path::starts_with`
/// returns, claimed to depend on the two paths alone.
#[verifier::external_body]
fn path_starts_with(path: &str, base: &str) -> (r: bool)
    ensures
        r == path_starts_with_of(path@, base@),
{
    std::path::Path::new(path).starts_with(base)
}

/// Check that a logo lies inside the directory of its `brand.toml`, given
/// both canonical paths: with any `\\?\` prefix stripped (on Windows), the
/// logo path must start with the directory, component by component; else
/// [`BrandError::LogoOutsideBrandDir`] (`E-BRD-007`) with the two stripped paths.
pub fn check_logo_in_brand_dir(canonical_logo: &str, canonical_dir: &str, windows: bool) -> (r: Result<(), BrandError>)
    ensures
        path_starts_with_of(unc_stripped(canonical_logo@, windows), unc_stripped(canonical_dir@, windows))
            ==> r is Ok,
        !path_starts_with_of(unc_stripped(canonical_logo@, windows), unc_stripped(canonical_dir@, windows))
            ==> (r matches Err(e) && e.deep_view() == (BrandErrorV::LogoOutsideBrandDir {
            logo_path: unc_stripped(canonical_logo@, windows),
            brand_dir: unc_stripped(canonical_dir@, windows),
        })),
{
    let logo = strip_unc_prefix(canonical_logo, windows);
    let dir = strip_unc_prefix(canonical_dir, windows);
    if path_starts_with(logo.as_str(), dir.as_str()) {
        Ok(())
    } else {
        Err(BrandError::LogoOutsideBrandDir { logo_path: logo, brand_dir: dir })
    }
}

/// What `Path::new(base).join(path)` gives, as text (with the path separators
/// of the platform the library is built for).
pub uninterp spec fn path_join_of(base: Seq<char>, path: Seq<char>) -> Seq<char>;

/// `Path::new(base).join(path)`, as a string.
///
/// Trusted: the result is what the standard library's `Path::join` returns,
/// claimed to depend on the two paths alone; joining two UTF-8 paths gives a
/// UTF-8 path, so the conversion to text loses nothing.
#[verifier::external_body]
fn path_join(base: &str, path: &str) -> (r: String)
    ensures
        r@ == path_join_of(base@, path@),
{
    std::path::Path::new(base).join(path).to_string_lossy().into_owned()
}

/// A synthesized logo with its path resolved against the directory of
/// `brand.toml`: a deferred logo's `path` becomes `brand_dir` joined with the
/// path as written (kept in `original`); any other logo is returned unchanged.
pub fn resolve_deferred_logo(logo: Option<LogoAsset>, brand_dir: &str) -> (r: Option<LogoAsset>)
    ensures
        match logo {
            Some(LogoAsset::Deferred { path, original }) => r matches Some(l) && l.deep_view()
                == (LogoAssetV::Deferred { path: path_join_of(brand_dir@, path@), original: original@ }),
            _ => r == logo,
        },
{
    match logo {
        Some(LogoAsset::Deferred { path, original }) => {
            let joined = path_join(brand_dir, path.as_str());
            Some(LogoAsset::Deferred { path: joined, original })
        },
        other => other,
    }
}

/// The brand of a synthesized template: named `synthesized`, with palette
/// `dk2` (`#000000` without a hex), `acc1` and `acc2` (`#808080`), `lt2`
/// (`#F5F5F5`) and mono font `Courier New`.
pub fn synthesized_brand(template: &BrandTemplate) -> (b: Brand)
    ensures
        b.name@ == "synthesized"@,
        b.palette.primary@ == first_named_hex(colors_view(template.colors), "dk2"@, 0, "#000000"@),
        b.palette.secondary@ == first_named_hex(colors_view(template.colors), "acc1"@, 0, "#808080"@),
        b.palette.accent@ == first_named_hex(colors_view(template.colors), "acc2"@, 0, "#808080"@),
        b.palette.neutral@ == first_named_hex(colors_view(template.colors), "lt2"@, 0, "#F5F5F5"@),
        b.fonts.heading@ == template.fonts.heading@,
        b.fonts.body@ == template.fonts.body@,
        b.fonts.mono@ == "Courier New"@,
        b.span == (SourceSpan { start: 0, end: 0 }),
{
    Brand {
        name: String::from_str("synthesized"),
        palette: BrandPalette {
            primary: slot_hex_or(template, "dk2", "#000000"),
            secondary: slot_hex_or(template, "acc1", "#808080"),
            accent: slot_hex_or(template, "acc2", "#808080"),
            neutral: slot_hex_or(template, "lt2", "#F5F5F5"),
        },
        fonts: BrandFontSet {
            heading: template.fonts.heading.clone(),
            body: template.fonts.body.clone(),
            mono: String::from_str("Courier New"),
        },
        span: SourceSpan { start: 0, end: 0 },
    }
}

/// How the synthesizer reports an error through the provider interface.
pub open spec fn synthesizer_provider_error(e: BrandErrorV) -> ProviderErrorV {
    match e {
        BrandErrorV::TomlReadError { path, reason } => ProviderErrorV::IoError { uri: path, message: reason },
        BrandErrorV::TomlParseError { path, reason } => ProviderErrorV::ParseError { uri: path, message: reason },
        _ => ProviderErrorV::ValidationError { message: error_message(e) },
    }
}

/// The provider error of a synthesis error: an unreadable `brand.toml` is an
/// I/O error, invalid TOML a parse error, anything else (a missing logo, a
/// logo outside the brand directory, ...) a validation error with the
/// error's message.
pub fn synthesizer_provider_error_of(e: &BrandError) -> (r: ProviderError)
    ensures
        r.deep_view() == synthesizer_provider_error(e.deep_view()),
{
    match e {
        BrandError::TomlReadError { path, reason } => ProviderError::IoError { uri: path.clone(), message: reason.clone() },
        BrandError::TomlParseError { path, reason } => ProviderError::ParseError { uri: path.clone(), message: reason.clone() },
        _ => ProviderError::ValidationError { message: e.message() },
    }
}

/// The provider error for a template package handed to the synthesizer,
/// which reads only `brand.toml` files (`docx` tells a `.docx` from a `.pptx`).
pub fn template_source_error(docx: bool, path: &str) -> (r: ProviderError)
    ensures
        r.deep_view() == (ProviderErrorV::ValidationError {
            message: (if docx { "DOCX"@ } else { "PPTX"@ }) + " template extraction is not yet supported for '"@
                + path@ + "'. Use a brand.toml file (BrandSource::TomlFile) or wait for STORY-024."@,
        }),
{
    let mut m = if docx { String::from_str("DOCX") } else { String::from_str("PPTX") };
    m.append(" template extraction is not yet supported for '");
    m.append(path);
    m.append("'. Use a brand.toml file (BrandSource::TomlFile) or wait for STORY-024.");
    ProviderError::ValidationError { message: m }
}

// ─── Laws ────────────────────────────────────────────────────────────────────

/// The inference rules that need no arithmetic hold of every synthesized
/// template: a declared color is kept (uppercased), an absent `lt1` is
/// `#FFFFFF`, an absent `lt2` `#F9FAFB`, an absent `acc1` `#3B82F6`, and an
/// absent `dk2` takes the declared `acc1` when there is one.
pub proof fn lemma_fixed_inference_rules(config: BrandConfig, inferred: Seq<Seq<char>>, t: BrandTemplate, w: Seq<BrandErrorV>)
    requires
        synthesized(config, inferred, t, w),
    ensures
        forall|i: int| 0 <= i < 12 ==> (declared_hex(config.colors, i) matches Some(h) ==> (
        #[trigger] colors_view(t.colors)[i]).value == ColorValueV::Hex(h)),
        declared_hex(config.colors, 1) is None ==> colors_view(t.colors)[1].value == ColorValueV::Hex("#FFFFFF"@),
        declared_hex(config.colors, 3) is None ==> colors_view(t.colors)[3].value == ColorValueV::Hex("#F9FAFB"@),
        declared_hex(config.colors, 4) is None ==> colors_view(t.colors)[4].value == ColorValueV::Hex("#3B82F6"@),
        declared_hex(config.colors, 2) is None ==> (declared_hex(config.colors, 4) matches Some(a) ==> colors_view(
            t.colors,
        )[2].value == ColorValueV::Hex(a)),
{
    let dv = declared_view(config.colors);
    assert forall|i: int| 0 <= i < 12 implies (declared_hex(config.colors, i) matches Some(h) ==> (
    #[trigger] colors_view(t.colors)[i]).value == ColorValueV::Hex(h)) by {
        assert(dv[i] == declared_hex(config.colors, i));
    }
    assert(dv[1] == declared_hex(config.colors, 1));
    assert(dv[2] == declared_hex(config.colors, 2));
    assert(dv[3] == declared_hex(config.colors, 3));
    assert(dv[4] == declared_hex(config.colors, 4));
    assert(colors_view(t.colors)[1] == colors_view(t.colors)[1]);
    assert(colors_view(t.colors)[2] == colors_view(t.colors)[2]);
    assert(colors_view(t.colors)[3] == colors_view(t.colors)[3]);
    assert(colors_view(t.colors)[4] == colors_view(t.colors)[4]);
}

/// Every color of a synthesized template is a canonical `#RRGGBB` color
/// (given that the colors computed in floating point are), and an absent
/// `dk1` takes one of the declared colors, or `#1F2937` when none is declared.
pub proof fn lemma_synthesized_colors(config: BrandConfig, inferred: Seq<Seq<char>>, t: BrandTemplate, w: Seq<BrandErrorV>)
    requires
        synthesized(config, inferred, t, w),
        inferred.len() == 12,
        forall|k: int| 0 <= k < 12 ==> is_hex_color(#[trigger] inferred[k]),
    ensures
        forall|i: int| 0 <= i < 12 ==> match (#[trigger] colors_view(t.colors)[i]).value {
            ColorValueV::Hex(h) => is_hex_color(h),
            ColorValueV::SchemeRef(_) => false,
        },
        declared_hex(config.colors, 0) is None && (forall|k: int| 0 <= k < 12 ==> (#[trigger] declared_hex(
            config.colors,
            k,
        )) is None) ==> colors_view(t.colors)[0].value == ColorValueV::Hex("#1F2937"@),
        declared_hex(config.colors, 0) is None && (exists|k: int| 0 <= k < 12 && (#[trigger] declared_hex(
            config.colors,
            k,
        )) is Some) ==> (colors_view(t.colors)[0].value matches ColorValueV::Hex(h) && is_declared_color(
            declared_view(config.colors),
            h,
        )),
{
    let dv = declared_view(config.colors);
    assert forall|i: int| 0 <= i < 12 implies match (#[trigger] colors_view(t.colors)[i]).value {
        ColorValueV::Hex(h) => is_hex_color(h),
        ColorValueV::SchemeRef(_) => false,
    } by {
        lemma_final_hex_canonical(config.colors, inferred, i);
    }
    assert forall|k: int| 0 <= k < 12 implies (#[trigger] dv[k]) == declared_hex(config.colors, k) by {}
    lemma_darkest_choice(dv, inferred[0]);
    assert(colors_view(t.colors)[0] == colors_view(t.colors)[0]);
    if exists|k: int| 0 <= k < 12 && (#[trigger] declared_hex(config.colors, k)) is Some {
        let k = choose|k: int| 0 <= k < 12 && (#[trigger] declared_hex(config.colors, k)) is Some;
        assert(dv[k] is Some);
    }
}

/// Extraction then synthesis keeps the colors: a configuration whose
/// `[colors]` hold what the `brand.toml` of a template read from `theme1.xml`
/// writes for each slot (the values a TOML reader gives back for those
/// lines) synthesizes to exactly those colors, with no warning.
pub proof fn lemma_extract_synthesize_round_trip(
    evs: Seq<EventV>,
    config: BrandConfig,
    inferred: Seq<Seq<char>>,
    t: BrandTemplate,
    w: Seq<BrandErrorV>,
)
    requires
        synthesized(config, inferred, t, w),
        forall|i: int| 0 <= i < 12 ==> #[trigger] config_value(config.colors, i) == Some(
            written_hex(i, theme_colors_of(evs).0),
        ),
    ensures
        forall|i: int| 0 <= i < 12 ==> (#[trigger] colors_view(t.colors)[i]).value == ColorValueV::Hex(
            written_hex(i, theme_colors_of(evs).0),
        ),
        w.len() == 0,
{
    let colors = theme_colors_of(evs).0;
    lemma_theme_colors_well_formed(evs);
    assert forall|i: int| 0 <= i < 12 implies is_hex_color(#[trigger] written_hex(i, colors)) by {
        lemma_default_color_is_hex_color(colors[i].name);
        match colors[i].value {
            ColorValueV::Hex(h) => {},
            ColorValueV::SchemeRef(n) => {
                match crate::extractor::scheme_slot_index(n) {
                    Some(k) => {
                        assert(0 <= k < 12);
                        assert(colors[k] == colors[k]);
                    },
                    None => {},
                }
            },
        }
    }
    assert forall|i: int| 0 <= i < 12 implies (#[trigger] declared_hex(config.colors, i)) == Some(
        written_hex(i, colors),
    ) by {
        lemma_canonical_declaration(written_hex(i, colors));
    }
    assert forall|i: int| 0 <= i < 12 implies (#[trigger] colors_view(t.colors)[i]).value == ColorValueV::Hex(
        written_hex(i, colors),
    ) by {
        assert(declared_view(config.colors)[i] == declared_hex(config.colors, i));
    }
    assert forall|i: int| 0 <= i < 12 implies match #[trigger] config_value(config.colors, i) {
        Some(v) => is_valid_hex_decl(v),
        None => false,
    } by {
        lemma_canonical_declaration(written_hex(i, colors));
    }
    lemma_synthesis_warning_extremes(config, inferred, t, w);
}

/// Synthesis is deterministic: two templates synthesized from the same
/// configuration and inferred colors agree in every part, and so do their
/// warnings.
pub proof fn lemma_synthesis_deterministic(
    config: BrandConfig,
    inferred: Seq<Seq<char>>,
    t1: BrandTemplate,
    w1: Seq<BrandErrorV>,
    t2: BrandTemplate,
    w2: Seq<BrandErrorV>,
)
    requires
        synthesized(config, inferred, t1, w1),
        synthesized(config, inferred, t2, w2),
    ensures
        colors_view(t1.colors) == colors_view(t2.colors),
        w1 == w2,
        t1.fonts.heading@ == t2.fonts.heading@ && t1.fonts.body@ == t2.fonts.body@,
        t1.footer_text.deep_view() == t2.footer_text.deep_view(),
        t1.footer_flags == t2.footer_flags,
        layouts_view(t1.layouts@) == layouts_view(t2.layouts@),
        t1.layout_names.deep_view() == t2.layout_names.deep_view(),
        t1.content_types_layout_entries@ == t2.content_types_layout_entries@,
        t1.notes_master_stub@ == t2.notes_master_stub@,
        t1.handout_master_stub@ == t2.handout_master_stub@,
        t1.master_ids == t2.master_ids,
        t1.logo.deep_view() == t2.logo.deep_view(),
{
    assert(colors_view(t1.colors) =~= colors_view(t2.colors)) by {
        assert forall|i: int| 0 <= i < 12 implies colors_view(t1.colors)[i] == colors_view(t2.colors)[i] by {
            assert(colors_view(t1.colors)[i] == colors_view(t1.colors)[i]);
        }
    }
}

proof fn lemma_invalid_count(c: BrandConfig, k: nat)
    requires
        k <= 12,
    ensures
        (forall|i: int| 0 <= i < k ==> (#[trigger] config_value(c.colors, i)) is None) ==> invalid_hex_warnings(
            c.colors,
            k,
        ).len() == 0,
        (forall|i: int| 0 <= i < k ==> match #[trigger] config_value(c.colors, i) {
            Some(v) => is_valid_hex_decl(v),
            None => false,
        }) ==> invalid_hex_warnings(c.colors, k).len() == 0,
    decreases k,
{
    if k > 0 {
        lemma_invalid_count(c, (k - 1) as nat);
    }
}

proof fn lemma_absent_count_bounds(d: Seq<Option<Seq<char>>>, k: nat)
    requires
        k <= d.len(),
    ensures
        (forall|i: int| 0 <= i < k ==> (#[trigger] d[i]) is None) ==> absent_count(d, k) == k,
        (forall|i: int| 0 <= i < k ==> (#[trigger] d[i]) is Some) ==> absent_count(d, k) == 0,
    decreases k,
{
    if k > 0 {
        lemma_absent_count_bounds(d, (k - 1) as nat);
    }
}

/// A configuration without colors gives exactly 12 warnings, one
/// `E-BRD-003` per slot; one that declares all 12 slots with valid colors
/// gives none.
pub proof fn lemma_synthesis_warning_extremes(config: BrandConfig, inferred: Seq<Seq<char>>, t: BrandTemplate, w: Seq<BrandErrorV>)
    requires
        synthesized(config, inferred, t, w),
    ensures
        (forall|i: int| 0 <= i < 12 ==> (#[trigger] config_value(config.colors, i)) is None) ==> (w.len() == 12
            && forall|j: int| 0 <= j < 12 ==> (#[trigger] w[j]) is MissingColorSlot),
        (forall|i: int| 0 <= i < 12 ==> match #[trigger] config_value(config.colors, i) {
            Some(v) => is_valid_hex_decl(v),
            None => false,
        }) ==> w.len() == 0,
{
    let dv = declared_view(config.colors);
    lemma_invalid_count(config, 12);
    lemma_one_warning_per_absent_slot(dv, inferred, 12);
    if forall|i: int| 0 <= i < 12 ==> (#[trigger] config_value(config.colors, i)) is None {
        assert forall|i: int| 0 <= i < 12 implies (#[trigger] dv[i]) is None by {
            assert(dv[i] == declared_hex(config.colors, i));
            assert(config_value(config.colors, i) is None);
        }
        lemma_absent_count_bounds(dv, 12);
        assert(invalid_hex_warnings(config.colors, 12) =~= Seq::<BrandErrorV>::empty());
        assert(w =~= inferred_warnings_of(dv, inferred, 12));
    }
    if forall|i: int| 0 <= i < 12 ==> match #[trigger] config_value(config.colors, i) {
        Some(v) => is_valid_hex_decl(v),
        None => false,
    } {
        assert forall|i: int| 0 <= i < 12 implies (#[trigger] dv[i]) is Some by {
            assert(dv[i] == declared_hex(config.colors, i));
            assert(match config_value(config.colors, i) {
                Some(v) => is_valid_hex_decl(v),
                None => false,
            });
        }
        lemma_absent_count_bounds(dv, 12);
    }
}

} // verus!
