//! The brand template: the colors, fonts, logo, footer and layouts of a brand.
use vstd::prelude::*;

use crate::footer::FooterFlags;
use crate::layouts::SlideLayoutDef;
use crate::text::str_eq;

verus! {

/// The 12 OOXML scheme color slot names, in ECMA-376 order.
pub const COLOR_SLOT_NAMES: [&'static str; 12] = [
    "dk1", "lt1", "dk2", "lt2", "acc1", "acc2", "acc3", "acc4", "acc5", "acc6", "hlink", "folHlink",
];

/// The name of color slot `i` (ECMA-376 order).
pub open spec fn slot_name(i: int) -> Seq<char> {
    if i == 0 { "dk1"@ }
    else if i == 1 { "lt1"@ }
    else if i == 2 { "dk2"@ }
    else if i == 3 { "lt2"@ }
    else if i == 4 { "acc1"@ }
    else if i == 5 { "acc2"@ }
    else if i == 6 { "acc3"@ }
    else if i == 7 { "acc4"@ }
    else if i == 8 { "acc5"@ }
    else if i == 9 { "acc6"@ }
    else if i == 10 { "hlink"@ }
    else { "folHlink"@ }
}

/// The position of the slot named `name`, if it is a slot name.
pub open spec fn slot_index_of(name: Seq<char>) -> Option<int> {
    if name == "dk1"@ { Some(0) }
    else if name == "lt1"@ { Some(1) }
    else if name == "dk2"@ { Some(2) }
    else if name == "lt2"@ { Some(3) }
    else if name == "acc1"@ { Some(4) }
    else if name == "acc2"@ { Some(5) }
    else if name == "acc3"@ { Some(6) }
    else if name == "acc4"@ { Some(7) }
    else if name == "acc5"@ { Some(8) }
    else if name == "acc6"@ { Some(9) }
    else if name == "hlink"@ { Some(10) }
    else if name == "folHlink"@ { Some(11) }
    else { None }
}

/// The name of slot `i` as a string.
pub fn slot_name_str(i: usize) -> (s: &'static str)
    requires
        i < 12,
    ensures
        s@ == slot_name(i as int),
{
    if i == 0 { "dk1" }
    else if i == 1 { "lt1" }
    else if i == 2 { "dk2" }
    else if i == 3 { "lt2" }
    else if i == 4 { "acc1" }
    else if i == 5 { "acc2" }
    else if i == 6 { "acc3" }
    else if i == 7 { "acc4" }
    else if i == 8 { "acc5" }
    else if i == 9 { "acc6" }
    else if i == 10 { "hlink" }
    else { "folHlink" }
}

/// The position of the slot named `name`, if any.
pub fn slot_index(name: &str) -> (r: Option<usize>)
    ensures
        r matches Some(i) ==> slot_index_of(name@) == Some(i as int),
        r is None ==> slot_index_of(name@) is None,
{
    if str_eq(name, "dk1") { Some(0) }
    else if str_eq(name, "lt1") { Some(1) }
    else if str_eq(name, "dk2") { Some(2) }
    else if str_eq(name, "lt2") { Some(3) }
    else if str_eq(name, "acc1") { Some(4) }
    else if str_eq(name, "acc2") { Some(5) }
    else if str_eq(name, "acc3") { Some(6) }
    else if str_eq(name, "acc4") { Some(7) }
    else if str_eq(name, "acc5") { Some(8) }
    else if str_eq(name, "acc6") { Some(9) }
    else if str_eq(name, "hlink") { Some(10) }
    else if str_eq(name, "folHlink") { Some(11) }
    else { None }
}

/// A color slot value: an absolute hex color or an unresolved scheme reference.
#[derive(Debug, Clone, PartialEq, Eq, Hash)]
pub enum ColorValue {
    /// `"#RRGGBB"` with uppercase hex digits.
    Hex(String),
    /// A `schemeClr` reference (lowercased `val`), e.g. `"accent1"`.
    SchemeRef(String),
}

/// The mathematical value of a [`ColorValue`].
pub enum ColorValueV {
    Hex(Seq<char>),
    SchemeRef(Seq<char>),
}

impl DeepView for ColorValue {
    type V = ColorValueV;

    open spec fn deep_view(&self) -> ColorValueV {
        match self {
            ColorValue::Hex(h) => ColorValueV::Hex(h@),
            ColorValue::SchemeRef(r) => ColorValueV::SchemeRef(r@),
        }
    }
}

impl ColorValue {
    /// The hex string, for a [`ColorValue::Hex`].
    pub fn as_hex(&self) -> (r: Option<&str>)
        ensures
            match self.deep_view() {
                ColorValueV::Hex(h) => r matches Some(s) && s@ == h,
                ColorValueV::SchemeRef(_) => r is None,
            },
    {
        match self {
            ColorValue::Hex(h) => Some(h.as_str()),
            ColorValue::SchemeRef(_) => None,
        }
    }

    /// The scheme reference, for a [`ColorValue::SchemeRef`].
    pub fn as_scheme_ref(&self) -> (r: Option<&str>)
        ensures
            match self.deep_view() {
                ColorValueV::SchemeRef(n) => r matches Some(s) && s@ == n,
                ColorValueV::Hex(_) => r is None,
            },
    {
        match self {
            ColorValue::SchemeRef(n) => Some(n.as_str()),
            ColorValue::Hex(_) => None,
        }
    }
}

/// One named color slot of a theme.
#[derive(Debug, Clone, PartialEq, Eq, Hash)]
pub struct ColorSlot {
    /// The OOXML slot name (`"dk1"`, ..., `"folHlink"`).
    pub name: String,
    /// The slot's value.
    pub value: ColorValue,
    /// Whether the source `srgbClr` carried transform children
    /// (`lumMod`, `lumOff`, `tint`, `shade`); the stored hex is the untransformed base.
    pub is_derived: bool,
}

/// The mathematical value of a [`ColorSlot`].
pub struct ColorSlotV {
    pub name: Seq<char>,
    pub value: ColorValueV,
    pub is_derived: bool,
}

impl DeepView for ColorSlot {
    type V = ColorSlotV;

    open spec fn deep_view(&self) -> ColorSlotV {
        ColorSlotV { name: self.name@, value: self.value.deep_view(), is_derived: self.is_derived }
    }
}

impl ColorSlot {
    /// The hex value of the slot, if it is resolved.
    pub fn hex(&self) -> (r: Option<&str>)
        ensures
            match self.value.deep_view() {
                ColorValueV::Hex(h) => r matches Some(s) && s@ == h,
                ColorValueV::SchemeRef(_) => r is None,
            },
    {
        self.value.as_hex()
    }

    /// Whether the slot holds an absolute hex color.
    pub fn is_resolved(&self) -> (r: bool)
        ensures
            r == (self.value.deep_view() is Hex),
    {
        matches!(self.value, ColorValue::Hex(_))
    }
}

/// Heading and body font names.
#[derive(Debug, Clone, PartialEq, Eq, Hash)]
pub struct BrandFonts {
    /// Heading (major) font.
    pub heading: String,
    /// Body (minor) font.
    pub body: String,
}

/// A brand logo.
#[derive(Debug, Clone, PartialEq, Eq, Hash)]
pub enum LogoAsset {
    /// Logo bytes read from a template package.
    Loaded {
        /// The image bytes.
        bytes: Vec<u8>,
        /// MIME type inferred from the extension.
        media_type: String,
        /// Path of the image inside the package.
        original_path: String,
    },
    /// A logo path whose bytes are read when the presentation is written.
    Deferred {
        /// The path to read the logo from.
        path: String,
        /// The path as written in `brand.toml`.
        original: String,
    },
}

/// The mathematical value of a [`LogoAsset`].
pub enum LogoAssetV {
    Loaded { bytes: Seq<u8>, media_type: Seq<char>, original_path: Seq<char> },
    Deferred { path: Seq<char>, original: Seq<char> },
}

impl DeepView for LogoAsset {
    type V = LogoAssetV;

    open spec fn deep_view(&self) -> LogoAssetV {
        match self {
            LogoAsset::Loaded { bytes, media_type, original_path } => LogoAssetV::Loaded {
                bytes: bytes@,
                media_type: media_type@,
                original_path: original_path@,
            },
            LogoAsset::Deferred { path, original } => LogoAssetV::Deferred { path: path@, original: original@ },
        }
    }
}

impl LogoAsset {
    /// The path of a deferred logo as written in `brand.toml`; `None` for a
    /// logo read from a package.
    pub fn deferred_path(&self) -> (r: Option<&str>)
        ensures
            match self.deep_view() {
                LogoAssetV::Deferred { original, .. } => r matches Some(s) && s@ == original,
                LogoAssetV::Loaded { .. } => r is None,
            },
    {
        match self {
            LogoAsset::Deferred { original, .. } => Some(original.as_str()),
            LogoAsset::Loaded { .. } => None,
        }
    }
}

/// OOXML identifiers of the slide master, its layouts and the slides.
#[derive(Debug, Clone, Copy, PartialEq, Eq, Structural, Hash)]
pub struct MasterIds {
    /// `sldMasterId` of the single master (2^31).
    pub master_id: u32,
    /// ID of the first layout (2^31 + 1); layout `n` has `layout_id_start + n - 1`.
    pub layout_id_start: u32,
    /// ID of the first slide (256).
    pub slide_id_start: u32,
}

impl Default for MasterIds {
    fn default() -> (ids: Self)
        ensures
            ids.master_id == 0x8000_0000u32,
            ids.layout_id_start == 0x8000_0001u32,
            ids.slide_id_start == 256,
    {
        MasterIds { master_id: 0x8000_0000, layout_id_start: 0x8000_0001, slide_id_start: 256 }
    }
}

/// A complete brand: what the layout and export stages consume.
#[derive(Debug, Clone, PartialEq, Eq)]
pub struct BrandTemplate {
    /// The 12 color slots in ECMA-376 order.
    pub colors: [ColorSlot; 12],
    /// Heading and body fonts.
    pub fonts: BrandFonts,
    /// The logo, if any.
    pub logo: Option<LogoAsset>,
    /// The footer text, if any.
    pub footer_text: Option<String>,
    /// Footer visibility flags.
    pub footer_flags: FooterFlags,
    /// Layout names: package paths for a loaded template, display names for a synthesized one.
    pub layout_names: Vec<String>,
    /// Layout definitions (empty for a loaded template).
    pub layouts: Vec<SlideLayoutDef>,
    /// `notesMaster1.xml` bytes.
    pub notes_master_stub: Vec<u8>,
    /// `handoutMaster1.xml` bytes.
    pub handout_master_stub: Vec<u8>,
    /// Master, layout and slide identifiers.
    pub master_ids: MasterIds,
    /// `[Content_Types].xml` overrides of the layouts.
    pub content_types_layout_entries: String,
}

/// The views of the 12 color slots.
pub open spec fn colors_view(colors: [ColorSlot; 12]) -> Seq<ColorSlotV> {
    colors@.map_values(|c: ColorSlot| c.deep_view())
}

impl BrandTemplate {
    /// The first color slot named `name`.
    pub fn color_by_name(&self, name: &str) -> (r: Option<&ColorSlot>)
        ensures
            r matches Some(c) ==> exists|i: int| 0 <= i < 12 && self.colors@[i] == *c && c.name@ == name@
                && forall|k: int| 0 <= k < i ==> self.colors@[k].name@ != name@,
            r is None ==> forall|k: int| 0 <= k < 12 ==> self.colors@[k].name@ != name@,
    {
        let mut i: usize = 0;
        while i < 12
            invariant
                i <= 12,
                forall|k: int| 0 <= k < i ==> self.colors@[k].name@ != name@,
            decreases 12 - i,
        {
            if str_eq(self.colors[i].name.as_str(), name) {
                return Some(&self.colors[i]);
            }
            i = i + 1;
        }
        None
    }
}

} // verus!
