//! The 31 slide layouts of a synthesized brand template.
//!
//! [`generate_all_layouts`] produces 11 standard OOXML layouts (indices 1–11)
//! followed by 20 custom `SF *` layouts (indices 12–31). Two of the custom
//! layouts ("SF Section Divider" and "SF End Slide") are dark: they carry a
//! color-map override with background `dk2` and text `lt1`.
use vstd::prelude::*;

use crate::toml_schema::BrandConfig;

verus! {

/// A placeholder shape within a slide layout; positions and sizes are in EMU.
#[derive(Debug, Clone, PartialEq, Eq, Hash)]
pub struct LayoutPlaceholder {
    /// OOXML placeholder type (`"title"`, `"ctrTitle"`, `"body"`, `"pic"`, ...).
    pub ph_type: String,
    /// OOXML placeholder index (`idx` attribute); titles use 0.
    pub idx: u32,
    /// Semantic accessibility name for `<p:cNvPr name="...">`.
    pub accessibility_name: String,
    /// X position in EMU.
    pub x: i64,
    /// Y position in EMU.
    pub y: i64,
    /// Width in EMU.
    pub cx: i64,
    /// Height in EMU.
    pub cy: i64,
}

/// The mathematical value of a [`LayoutPlaceholder`].
pub struct PlaceholderView {
    pub ph_type: Seq<char>,
    pub idx: u32,
    pub accessibility_name: Seq<char>,
    pub x: i64,
    pub y: i64,
    pub cx: i64,
    pub cy: i64,
}

impl View for LayoutPlaceholder {
    type V = PlaceholderView;

    open spec fn view(&self) -> PlaceholderView {
        PlaceholderView {
            ph_type: self.ph_type@,
            idx: self.idx,
            accessibility_name: self.accessibility_name@,
            x: self.x,
            y: self.y,
            cx: self.cx,
            cy: self.cy,
        }
    }
}

/// A single slide layout definition.
#[derive(Debug, Clone, PartialEq, Eq, Hash)]
pub struct SlideLayoutDef {
    /// 1-based layout index (1–31); names the part `slideLayout{index}.xml`.
    pub index: usize,
    /// Human-readable layout name; custom layouts start with `"SF "`.
    pub name: String,
    /// OOXML `type` attribute for standard layouts; `None` for custom layouts.
    pub ooxml_type: Option<String>,
    /// Placeholder definitions (empty for the Blank layout).
    pub placeholders: Vec<LayoutPlaceholder>,
    /// DSL slide-type keyword for custom layouts; `None` for standard layouts.
    pub slide_type_keyword: Option<String>,
    /// Whether the layout carries a dark color-map override.
    pub has_color_override: bool,
    /// Background token of the override (`"dk2"` for dark layouts).
    pub color_override_bg: Option<String>,
    /// Text token of the override (`"lt1"` for dark layouts).
    pub color_override_tx: Option<String>,
}

/// The mathematical value of a [`SlideLayoutDef`].
pub struct LayoutView {
    pub index: usize,
    pub name: Seq<char>,
    pub ooxml_type: Option<Seq<char>>,
    pub placeholders: Seq<PlaceholderView>,
    pub slide_type_keyword: Option<Seq<char>>,
    pub has_color_override: bool,
    pub color_override_bg: Option<Seq<char>>,
    pub color_override_tx: Option<Seq<char>>,
}

/// The views of a sequence of placeholders.
pub open spec fn placeholders_view(ps: Seq<LayoutPlaceholder>) -> Seq<PlaceholderView> {
    ps.map_values(|p: LayoutPlaceholder| p@)
}

impl View for SlideLayoutDef {
    type V = LayoutView;

    open spec fn view(&self) -> LayoutView {
        LayoutView {
            index: self.index,
            name: self.name@,
            ooxml_type: self.ooxml_type.deep_view(),
            placeholders: placeholders_view(self.placeholders@),
            slide_type_keyword: self.slide_type_keyword.deep_view(),
            has_color_override: self.has_color_override,
            color_override_bg: self.color_override_bg.deep_view(),
            color_override_tx: self.color_override_tx.deep_view(),
        }
    }
}

/// The views of a sequence of layouts.
pub open spec fn layouts_view(ls: Seq<SlideLayoutDef>) -> Seq<LayoutView> {
    ls.map_values(|l: SlideLayoutDef| l@)
}

// ─── EMU geometry (PowerPoint defaults, 16:9) ────────────────────────────────

/// Title placeholder X origin.
pub const TITLE_X: i64 = 457_200;
/// Title placeholder Y origin.
pub const TITLE_Y: i64 = 274_638;
/// Title placeholder width.
pub const TITLE_CX: i64 = 8_229_600;
/// Title placeholder height.
pub const TITLE_CY: i64 = 1_143_000;
/// Body placeholder X origin.
pub const BODY_X: i64 = 457_200;
/// Body placeholder Y origin.
pub const BODY_Y: i64 = 1_600_200;
/// Body placeholder width.
pub const BODY_CX: i64 = 8_229_600;
/// Body placeholder height.
pub const BODY_CY: i64 = 3_543_300;
/// Left column X origin.
pub const LEFT_X: i64 = 457_200;
/// Left column width.
pub const LEFT_CX: i64 = 3_962_400;
/// Right column X origin.
pub const RIGHT_X: i64 = 4_724_400;
/// Right column width.
pub const RIGHT_CX: i64 = 3_962_400;
/// Two-column body Y origin.
pub const TWO_COL_Y: i64 = 1_600_200;
/// Two-column body height.
pub const TWO_COL_CY: i64 = 3_543_300;

// ─── Specification of the layout table ───────────────────────────────────────

/// A placeholder with explicit geometry.
pub open spec fn placeholder_spec(
    ph_type: Seq<char>,
    idx: u32,
    name: Seq<char>,
    x: i64,
    y: i64,
    cx: i64,
    cy: i64,
) -> PlaceholderView {
    PlaceholderView { ph_type, idx, accessibility_name: name, x, y, cx, cy }
}

/// A title placeholder at the standard title position (index 0).
pub open spec fn title_ph_spec(ph_type: Seq<char>, name: Seq<char>) -> PlaceholderView {
    placeholder_spec(ph_type, 0, name, TITLE_X, TITLE_Y, TITLE_CX, TITLE_CY)
}

/// A `body` placeholder at the standard body position.
pub open spec fn body_ph_spec(idx: u32, name: Seq<char>) -> PlaceholderView {
    placeholder_spec("body"@, idx, name, BODY_X, BODY_Y, BODY_CX, BODY_CY)
}

/// A standard layout: OOXML type set, no keyword, no color override.
pub open spec fn light_layout_spec(
    index: usize,
    name: Seq<char>,
    ooxml_type: Seq<char>,
    placeholders: Seq<PlaceholderView>,
) -> LayoutView {
    LayoutView {
        index,
        name,
        ooxml_type: Some(ooxml_type),
        placeholders,
        slide_type_keyword: None,
        has_color_override: false,
        color_override_bg: None,
        color_override_tx: None,
    }
}

/// A custom layout: DSL keyword set, no OOXML type, no color override.
pub open spec fn custom_layout_spec(
    index: usize,
    name: Seq<char>,
    keyword: Seq<char>,
    placeholders: Seq<PlaceholderView>,
) -> LayoutView {
    LayoutView {
        index,
        name,
        ooxml_type: None,
        placeholders,
        slide_type_keyword: Some(keyword),
        has_color_override: false,
        color_override_bg: None,
        color_override_tx: None,
    }
}

/// A dark custom layout: as a custom layout, with the override `bg1=dk2`, `tx1=lt1`.
pub open spec fn dark_layout_spec(
    index: usize,
    name: Seq<char>,
    keyword: Seq<char>,
    placeholders: Seq<PlaceholderView>,
) -> LayoutView {
    LayoutView {
        index,
        name,
        ooxml_type: None,
        placeholders,
        slide_type_keyword: Some(keyword),
        has_color_override: true,
        color_override_bg: Some("dk2"@),
        color_override_tx: Some("lt1"@),
    }
}

/// The 31 layouts of a synthesized brand, in index order.
pub open spec fn layout_table() -> Seq<LayoutView> {
    seq![
        light_layout_spec(1, "Title Slide"@, "title"@, seq![title_ph_spec("ctrTitle"@, "Title Placeholder"@), placeholder_spec("subTitle"@, 1, "Subtitle Placeholder"@, TITLE_X, 1_600_200, TITLE_CX, 914_400)]),
        light_layout_spec(2, "Title and Content"@, "obj"@, seq![title_ph_spec("title"@, "Title"@), body_ph_spec(1, "Content Placeholder"@)]),
        light_layout_spec(3, "Section Header"@, "secHead"@, seq![title_ph_spec("title"@, "Section Title"@), placeholder_spec("body"@, 1, "Section Description"@, TITLE_X, 1_600_200, TITLE_CX, 914_400)]),
        light_layout_spec(4, "Two Content"@, "twoObj"@, seq![title_ph_spec("title"@, "Title"@), placeholder_spec("body"@, 1, "Left Content"@, LEFT_X, TWO_COL_Y, LEFT_CX, TWO_COL_CY), placeholder_spec("body"@, 2, "Right Content"@, RIGHT_X, TWO_COL_Y, RIGHT_CX, TWO_COL_CY)]),
        light_layout_spec(5, "Comparison"@, "twoColTx"@, seq![title_ph_spec("title"@, "Title"@), placeholder_spec("body"@, 1, "Left Header"@, LEFT_X, TWO_COL_Y, LEFT_CX, 571_500), placeholder_spec("body"@, 2, "Left Content"@, LEFT_X, 2_286_000, LEFT_CX, 2_743_200), placeholder_spec("body"@, 3, "Right Header"@, RIGHT_X, TWO_COL_Y, RIGHT_CX, 571_500), placeholder_spec("body"@, 4, "Right Content"@, RIGHT_X, 2_286_000, RIGHT_CX, 2_743_200)]),
        light_layout_spec(6, "Title Only"@, "titleOnly"@, seq![title_ph_spec("title"@, "Title"@)]),
        light_layout_spec(7, "Blank"@, "blank"@, seq![]),
        light_layout_spec(8, "Content with Caption"@, "objTx"@, seq![title_ph_spec("title"@, "Title"@), placeholder_spec("body"@, 1, "Content Area"@, LEFT_X, BODY_Y, 5_486_400, BODY_CY), placeholder_spec("body"@, 2, "Caption"@, 6_096_000, BODY_Y, 2_590_800, BODY_CY)]),
        light_layout_spec(9, "Picture with Caption"@, "picTx"@, seq![title_ph_spec("title"@, "Picture Title"@), placeholder_spec("pic"@, 1, "Picture Placeholder"@, TITLE_X, 1_371_600, TITLE_CX, 2_743_200), placeholder_spec("body"@, 2, "Caption Text"@, TITLE_X, 4_343_400, TITLE_CX, 571_500)]),
        light_layout_spec(10, "Vertical Title and Text"@, "vertTitleAndTx"@, seq![placeholder_spec("title"@, 0, "Vertical Title"@, 7_315_200, TITLE_Y, 1_371_600, BODY_CY), placeholder_spec("body"@, 1, "Vertical Content"@, TITLE_X, TITLE_Y, 6_553_200, BODY_CY)]),
        light_layout_spec(11, "Vertical Text"@, "vertTx"@, seq![placeholder_spec("title"@, 0, "Vertical Text Heading"@, 7_315_200, TITLE_Y, 1_371_600, BODY_CY), placeholder_spec("body"@, 1, "Vertical Text Area"@, TITLE_X, TITLE_Y, 6_553_200, BODY_CY)]),
        dark_layout_spec(12, "SF Section Divider"@, "section_divider"@, seq![title_ph_spec("title"@, "Section Title"@), placeholder_spec("body"@, 1, "Section Subtitle"@, TITLE_X, 1_600_200, TITLE_CX, 914_400)]),
        custom_layout_spec(13, "SF Stat Grid"@, "stat_callout"@, seq![title_ph_spec("title"@, "Stats Title"@), placeholder_spec("body"@, 1, "Statistics Grid"@, BODY_X, BODY_Y, BODY_CX, BODY_CY)]),
        custom_layout_spec(14, "SF Quote"@, "quote"@, seq![title_ph_spec("title"@, "Quote Title"@), placeholder_spec("body"@, 1, "Quote Text"@, TITLE_X, 1_371_600, TITLE_CX, 2_286_000), placeholder_spec("body"@, 2, "Quote Attribution"@, TITLE_X, 3_886_200, TITLE_CX, 571_500)]),
        custom_layout_spec(15, "SF Timeline"@, "vertical_timeline"@, seq![title_ph_spec("title"@, "Timeline Title"@), placeholder_spec("body"@, 1, "Timeline Content"@, BODY_X, BODY_Y, BODY_CX, BODY_CY)]),
        custom_layout_spec(16, "SF Agenda"@, "agenda"@, seq![title_ph_spec("title"@, "Agenda Title"@), body_ph_spec(1, "Agenda Items"@)]),
        custom_layout_spec(17, "SF TOC"@, "toc"@, seq![title_ph_spec("title"@, "Table of Contents Title"@), body_ph_spec(1, "TOC Items"@)]),
        custom_layout_spec(18, "SF Bio"@, "bio"@, seq![title_ph_spec("title"@, "Name"@), placeholder_spec("pic"@, 1, "Profile Photo"@, LEFT_X, BODY_Y, LEFT_CX, LEFT_CX), placeholder_spec("body"@, 2, "Biography Text"@, RIGHT_X, BODY_Y, RIGHT_CX, TWO_COL_CY)]),
        custom_layout_spec(19, "SF Team Grid"@, "team"@, seq![title_ph_spec("title"@, "Team Title"@), body_ph_spec(1, "Team Members"@)]),
        custom_layout_spec(20, "SF Comparison Table"@, "enhanced_table"@, seq![title_ph_spec("title"@, "Comparison Title"@), body_ph_spec(1, "Comparison Table"@)]),
        custom_layout_spec(21, "SF Full-Bleed Image"@, "image"@, seq![placeholder_spec("pic"@, 1, "Full-Bleed Image"@, 0, 0, 9_144_000, 5_143_500), title_ph_spec("title"@, "Image Caption"@)]),
        dark_layout_spec(22, "SF End Slide"@, "end"@, seq![title_ph_spec("ctrTitle"@, "Closing Title"@), placeholder_spec("body"@, 1, "Closing Message"@, TITLE_X, 1_828_800, TITLE_CX, 1_143_000)]),
        custom_layout_spec(23, "SF Data"@, "content_stat"@, seq![title_ph_spec("title"@, "Data Title"@), body_ph_spec(1, "Data Content"@)]),
        custom_layout_spec(24, "SF Diagram"@, "diagram"@, seq![title_ph_spec("title"@, "Diagram Title"@), placeholder_spec("body"@, 1, "Diagram Area"@, BODY_X, BODY_Y, BODY_CX, BODY_CY)]),
        custom_layout_spec(25, "SF Chart"@, "chart"@, seq![title_ph_spec("title"@, "Chart Title"@), placeholder_spec("body"@, 1, "Chart Area"@, BODY_X, BODY_Y, BODY_CX, BODY_CY)]),
        custom_layout_spec(26, "SF Map"@, "highlight"@, seq![title_ph_spec("title"@, "Map Title"@), placeholder_spec("body"@, 1, "Map Area"@, BODY_X, BODY_Y, BODY_CX, BODY_CY)]),
        custom_layout_spec(27, "SF Risk Register"@, "severity_cards"@, seq![title_ph_spec("title"@, "Risk Register Title"@), body_ph_spec(1, "Risk Items"@)]),
        custom_layout_spec(28, "SF Executive Summary"@, "highlight_boxes"@, seq![title_ph_spec("title"@, "Executive Summary Title"@), body_ph_spec(1, "Summary Content"@)]),
        custom_layout_spec(29, "SF Two Column"@, "stats_summary"@, seq![title_ph_spec("title"@, "Title"@), placeholder_spec("body"@, 1, "Left Column"@, LEFT_X, TWO_COL_Y, LEFT_CX, TWO_COL_CY), placeholder_spec("body"@, 2, "Right Column"@, RIGHT_X, TWO_COL_Y, RIGHT_CX, TWO_COL_CY)]),
        custom_layout_spec(30, "SF Methodology"@, "numbered_actions"@, seq![title_ph_spec("title"@, "Methodology Title"@), body_ph_spec(1, "Methodology Steps"@)]),
        custom_layout_spec(31, "SF Appendix"@, "appendix"@, seq![title_ph_spec("title"@, "Appendix Title"@), body_ph_spec(1, "Appendix Content"@)]),
    ]
}

// ─── Builders ────────────────────────────────────────────────────────────────

fn placeholder(
    ph_type: &str,
    idx: u32,
    name: &str,
    x: i64,
    y: i64,
    cx: i64,
    cy: i64,
) -> (p: LayoutPlaceholder)
    ensures
        p@ == placeholder_spec(ph_type@, idx, name@, x, y, cx, cy),
{
    LayoutPlaceholder {
        ph_type: String::from_str(ph_type),
        idx,
        accessibility_name: String::from_str(name),
        x,
        y,
        cx,
        cy,
    }
}

/// Build a title placeholder.
fn title_ph(ph_type: &str, name: &str) -> (p: LayoutPlaceholder)
    ensures
        p@ == title_ph_spec(ph_type@, name@),
{
    placeholder(ph_type, 0, name, TITLE_X, TITLE_Y, TITLE_CX, TITLE_CY)
}

/// Build a body placeholder.
fn body_ph(idx: u32, name: &str) -> (p: LayoutPlaceholder)
    ensures
        p@ == body_ph_spec(idx, name@),
{
    placeholder("body", idx, name, BODY_X, BODY_Y, BODY_CX, BODY_CY)
}

/// Build a standard (light) layout.
fn light_layout(
    index: usize,
    name: &str,
    ooxml_type: &str,
    placeholders: Vec<LayoutPlaceholder>,
) -> (l: SlideLayoutDef)
    ensures
        l@ == light_layout_spec(index, name@, ooxml_type@, placeholders_view(placeholders@)),
{
    SlideLayoutDef {
        index,
        name: String::from_str(name),
        ooxml_type: Some(String::from_str(ooxml_type)),
        slide_type_keyword: None,
        placeholders,
        has_color_override: false,
        color_override_bg: None,
        color_override_tx: None,
    }
}

/// Build a custom (light) layout with a DSL keyword.
fn custom_layout(
    index: usize,
    name: &str,
    keyword: &str,
    placeholders: Vec<LayoutPlaceholder>,
) -> (l: SlideLayoutDef)
    ensures
        l@ == custom_layout_spec(index, name@, keyword@, placeholders_view(placeholders@)),
{
    SlideLayoutDef {
        index,
        name: String::from_str(name),
        ooxml_type: None,
        slide_type_keyword: Some(String::from_str(keyword)),
        placeholders,
        has_color_override: false,
        color_override_bg: None,
        color_override_tx: None,
    }
}

/// Build a dark custom layout with a DSL keyword.
fn dark_layout(
    index: usize,
    name: &str,
    keyword: &str,
    placeholders: Vec<LayoutPlaceholder>,
) -> (l: SlideLayoutDef)
    ensures
        l@ == dark_layout_spec(index, name@, keyword@, placeholders_view(placeholders@)),
{
    SlideLayoutDef {
        index,
        name: String::from_str(name),
        ooxml_type: None,
        slide_type_keyword: Some(String::from_str(keyword)),
        placeholders,
        has_color_override: true,
        color_override_bg: Some(String::from_str("dk2")),
        color_override_tx: Some(String::from_str("lt1")),
    }
}

/// Generate all 31 slide layout definitions, in index order.
///
/// `_config` is reserved for future geometry or color choices; the current
/// layouts use standard PowerPoint positions and do not depend on it.
pub fn generate_all_layouts(_config: &BrandConfig) -> (layouts: Vec<SlideLayoutDef>)
    ensures
        layouts_view(layouts@) == layout_table(),
{
    let p1: Vec<LayoutPlaceholder> = vec![title_ph("ctrTitle", "Title Placeholder"), placeholder("subTitle", 1, "Subtitle Placeholder", TITLE_X, 1_600_200, TITLE_CX, 914_400)];
    assert(placeholders_view(p1@) =~= layout_table()[0].placeholders);
    let l1 = light_layout(1, "Title Slide", "title", p1);
    let p2: Vec<LayoutPlaceholder> = vec![title_ph("title", "Title"), body_ph(1, "Content Placeholder")];
    assert(placeholders_view(p2@) =~= layout_table()[1].placeholders);
    let l2 = light_layout(2, "Title and Content", "obj", p2);
    let p3: Vec<LayoutPlaceholder> = vec![title_ph("title", "Section Title"), placeholder("body", 1, "Section Description", TITLE_X, 1_600_200, TITLE_CX, 914_400)];
    assert(placeholders_view(p3@) =~= layout_table()[2].placeholders);
    let l3 = light_layout(3, "Section Header", "secHead", p3);
    let p4: Vec<LayoutPlaceholder> = vec![title_ph("title", "Title"), placeholder("body", 1, "Left Content", LEFT_X, TWO_COL_Y, LEFT_CX, TWO_COL_CY), placeholder("body", 2, "Right Content", RIGHT_X, TWO_COL_Y, RIGHT_CX, TWO_COL_CY)];
    assert(placeholders_view(p4@) =~= layout_table()[3].placeholders);
    let l4 = light_layout(4, "Two Content", "twoObj", p4);
    let p5: Vec<LayoutPlaceholder> = vec![title_ph("title", "Title"), placeholder("body", 1, "Left Header", LEFT_X, TWO_COL_Y, LEFT_CX, 571_500), placeholder("body", 2, "Left Content", LEFT_X, 2_286_000, LEFT_CX, 2_743_200), placeholder("body", 3, "Right Header", RIGHT_X, TWO_COL_Y, RIGHT_CX, 571_500), placeholder("body", 4, "Right Content", RIGHT_X, 2_286_000, RIGHT_CX, 2_743_200)];
    assert(placeholders_view(p5@) =~= layout_table()[4].placeholders);
    let l5 = light_layout(5, "Comparison", "twoColTx", p5);
    let p6: Vec<LayoutPlaceholder> = vec![title_ph("title", "Title")];
    assert(placeholders_view(p6@) =~= layout_table()[5].placeholders);
    let l6 = light_layout(6, "Title Only", "titleOnly", p6);
    let p7: Vec<LayoutPlaceholder> = vec![];
    assert(placeholders_view(p7@) =~= layout_table()[6].placeholders);
    let l7 = light_layout(7, "Blank", "blank", p7);
    let p8: Vec<LayoutPlaceholder> = vec![title_ph("title", "Title"), placeholder("body", 1, "Content Area", LEFT_X, BODY_Y, 5_486_400, BODY_CY), placeholder("body", 2, "Caption", 6_096_000, BODY_Y, 2_590_800, BODY_CY)];
    assert(placeholders_view(p8@) =~= layout_table()[7].placeholders);
    let l8 = light_layout(8, "Content with Caption", "objTx", p8);
    let p9: Vec<LayoutPlaceholder> = vec![title_ph("title", "Picture Title"), placeholder("pic", 1, "Picture Placeholder", TITLE_X, 1_371_600, TITLE_CX, 2_743_200), placeholder("body", 2, "Caption Text", TITLE_X, 4_343_400, TITLE_CX, 571_500)];
    assert(placeholders_view(p9@) =~= layout_table()[8].placeholders);
    let l9 = light_layout(9, "Picture with Caption", "picTx", p9);
    let p10: Vec<LayoutPlaceholder> = vec![placeholder("title", 0, "Vertical Title", 7_315_200, TITLE_Y, 1_371_600, BODY_CY), placeholder("body", 1, "Vertical Content", TITLE_X, TITLE_Y, 6_553_200, BODY_CY)];
    assert(placeholders_view(p10@) =~= layout_table()[9].placeholders);
    let l10 = light_layout(10, "Vertical Title and Text", "vertTitleAndTx", p10);
    let p11: Vec<LayoutPlaceholder> = vec![placeholder("title", 0, "Vertical Text Heading", 7_315_200, TITLE_Y, 1_371_600, BODY_CY), placeholder("body", 1, "Vertical Text Area", TITLE_X, TITLE_Y, 6_553_200, BODY_CY)];
    assert(placeholders_view(p11@) =~= layout_table()[10].placeholders);
    let l11 = light_layout(11, "Vertical Text", "vertTx", p11);
    let p12: Vec<LayoutPlaceholder> = vec![title_ph("title", "Section Title"), placeholder("body", 1, "Section Subtitle", TITLE_X, 1_600_200, TITLE_CX, 914_400)];
    assert(placeholders_view(p12@) =~= layout_table()[11].placeholders);
    let l12 = dark_layout(12, "SF Section Divider", "section_divider", p12);
    let p13: Vec<LayoutPlaceholder> = vec![title_ph("title", "Stats Title"), placeholder("body", 1, "Statistics Grid", BODY_X, BODY_Y, BODY_CX, BODY_CY)];
    assert(placeholders_view(p13@) =~= layout_table()[12].placeholders);
    let l13 = custom_layout(13, "SF Stat Grid", "stat_callout", p13);
    let p14: Vec<LayoutPlaceholder> = vec![title_ph("title", "Quote Title"), placeholder("body", 1, "Quote Text", TITLE_X, 1_371_600, TITLE_CX, 2_286_000), placeholder("body", 2, "Quote Attribution", TITLE_X, 3_886_200, TITLE_CX, 571_500)];
    assert(placeholders_view(p14@) =~= layout_table()[13].placeholders);
    let l14 = custom_layout(14, "SF Quote", "quote", p14);
    let p15: Vec<LayoutPlaceholder> = vec![title_ph("title", "Timeline Title"), placeholder("body", 1, "Timeline Content", BODY_X, BODY_Y, BODY_CX, BODY_CY)];
    assert(placeholders_view(p15@) =~= layout_table()[14].placeholders);
    let l15 = custom_layout(15, "SF Timeline", "vertical_timeline", p15);
    let p16: Vec<LayoutPlaceholder> = vec![title_ph("title", "Agenda Title"), body_ph(1, "Agenda Items")];
    assert(placeholders_view(p16@) =~= layout_table()[15].placeholders);
    let l16 = custom_layout(16, "SF Agenda", "agenda", p16);
    let p17: Vec<LayoutPlaceholder> = vec![title_ph("title", "Table of Contents Title"), body_ph(1, "TOC Items")];
    assert(placeholders_view(p17@) =~= layout_table()[16].placeholders);
    let l17 = custom_layout(17, "SF TOC", "toc", p17);
    let p18: Vec<LayoutPlaceholder> = vec![title_ph("title", "Name"), placeholder("pic", 1, "Profile Photo", LEFT_X, BODY_Y, LEFT_CX, LEFT_CX), placeholder("body", 2, "Biography Text", RIGHT_X, BODY_Y, RIGHT_CX, TWO_COL_CY)];
    assert(placeholders_view(p18@) =~= layout_table()[17].placeholders);
    let l18 = custom_layout(18, "SF Bio", "bio", p18);
    let p19: Vec<LayoutPlaceholder> = vec![title_ph("title", "Team Title"), body_ph(1, "Team Members")];
    assert(placeholders_view(p19@) =~= layout_table()[18].placeholders);
    let l19 = custom_layout(19, "SF Team Grid", "team", p19);
    let p20: Vec<LayoutPlaceholder> = vec![title_ph("title", "Comparison Title"), body_ph(1, "Comparison Table")];
    assert(placeholders_view(p20@) =~= layout_table()[19].placeholders);
    let l20 = custom_layout(20, "SF Comparison Table", "enhanced_table", p20);
    let p21: Vec<LayoutPlaceholder> = vec![placeholder("pic", 1, "Full-Bleed Image", 0, 0, 9_144_000, 5_143_500), title_ph("title", "Image Caption")];
    assert(placeholders_view(p21@) =~= layout_table()[20].placeholders);
    let l21 = custom_layout(21, "SF Full-Bleed Image", "image", p21);
    let p22: Vec<LayoutPlaceholder> = vec![title_ph("ctrTitle", "Closing Title"), placeholder("body", 1, "Closing Message", TITLE_X, 1_828_800, TITLE_CX, 1_143_000)];
    assert(placeholders_view(p22@) =~= layout_table()[21].placeholders);
    let l22 = dark_layout(22, "SF End Slide", "end", p22);
    let p23: Vec<LayoutPlaceholder> = vec![title_ph("title", "Data Title"), body_ph(1, "Data Content")];
    assert(placeholders_view(p23@) =~= layout_table()[22].placeholders);
    let l23 = custom_layout(23, "SF Data", "content_stat", p23);
    let p24: Vec<LayoutPlaceholder> = vec![title_ph("title", "Diagram Title"), placeholder("body", 1, "Diagram Area", BODY_X, BODY_Y, BODY_CX, BODY_CY)];
    assert(placeholders_view(p24@) =~= layout_table()[23].placeholders);
    let l24 = custom_layout(24, "SF Diagram", "diagram", p24);
    let p25: Vec<LayoutPlaceholder> = vec![title_ph("title", "Chart Title"), placeholder("body", 1, "Chart Area", BODY_X, BODY_Y, BODY_CX, BODY_CY)];
    assert(placeholders_view(p25@) =~= layout_table()[24].placeholders);
    let l25 = custom_layout(25, "SF Chart", "chart", p25);
    let p26: Vec<LayoutPlaceholder> = vec![title_ph("title", "Map Title"), placeholder("body", 1, "Map Area", BODY_X, BODY_Y, BODY_CX, BODY_CY)];
    assert(placeholders_view(p26@) =~= layout_table()[25].placeholders);
    let l26 = custom_layout(26, "SF Map", "highlight", p26);
    let p27: Vec<LayoutPlaceholder> = vec![title_ph("title", "Risk Register Title"), body_ph(1, "Risk Items")];
    assert(placeholders_view(p27@) =~= layout_table()[26].placeholders);
    let l27 = custom_layout(27, "SF Risk Register", "severity_cards", p27);
    let p28: Vec<LayoutPlaceholder> = vec![title_ph("title", "Executive Summary Title"), body_ph(1, "Summary Content")];
    assert(placeholders_view(p28@) =~= layout_table()[27].placeholders);
    let l28 = custom_layout(28, "SF Executive Summary", "highlight_boxes", p28);
    let p29: Vec<LayoutPlaceholder> = vec![title_ph("title", "Title"), placeholder("body", 1, "Left Column", LEFT_X, TWO_COL_Y, LEFT_CX, TWO_COL_CY), placeholder("body", 2, "Right Column", RIGHT_X, TWO_COL_Y, RIGHT_CX, TWO_COL_CY)];
    assert(placeholders_view(p29@) =~= layout_table()[28].placeholders);
    let l29 = custom_layout(29, "SF Two Column", "stats_summary", p29);
    let p30: Vec<LayoutPlaceholder> = vec![title_ph("title", "Methodology Title"), body_ph(1, "Methodology Steps")];
    assert(placeholders_view(p30@) =~= layout_table()[29].placeholders);
    let l30 = custom_layout(30, "SF Methodology", "numbered_actions", p30);
    let p31: Vec<LayoutPlaceholder> = vec![title_ph("title", "Appendix Title"), body_ph(1, "Appendix Content")];
    assert(placeholders_view(p31@) =~= layout_table()[30].placeholders);
    let l31 = custom_layout(31, "SF Appendix", "appendix", p31);
    let layouts = vec![l1, l2, l3, l4, l5, l6, l7, l8, l9, l10, l11, l12, l13, l14, l15, l16, l17, l18, l19, l20, l21, l22, l23, l24, l25, l26, l27, l28, l29, l30, l31];
    assert(layouts_view(layouts@) =~= layout_table());
    layouts
}

// ─── Laws of the layout table ────────────────────────────────────────────────

/// Whether a placeholder type is a title type (`"title"` or `"ctrTitle"`).
pub open spec fn is_title_type(t: Seq<char>) -> bool {
    t == "title"@ || t == "ctrTitle"@
}

/// Whether a layout has at least one title-type placeholder.
pub open spec fn has_title_placeholder(l: LayoutView) -> bool {
    exists|j: int| 0 <= j < l.placeholders.len() && is_title_type(#[trigger] l.placeholders[j].ph_type)
}

/// Whether `s` begins with `"SF "`.
pub open spec fn starts_with_sf(s: Seq<char>) -> bool {
    s.len() >= 3 && s[0] == 'S' && s[1] == 'F' && s[2] == ' '
}

/// The layout table is well formed:
/// - it holds 31 layouts, and the layout at position `i` has index `i + 1`;
/// - the first 11 are standard layouts (OOXML type set, no DSL keyword);
/// - the last 20 are custom layouts (no OOXML type, a DSL keyword, a name that
///   starts with `"SF "`);
/// - the Blank layout (position 6) has no placeholders, every other layout has
///   a title or centered-title placeholder;
/// - exactly the layouts at positions 11 and 21 are dark, with the override
///   background `dk2` and text `lt1`; the others carry no override tokens.
pub proof fn lemma_layout_table_well_formed()
    ensures
        layout_table().len() == 31,
        forall|i: int| 0 <= i < 31 ==> (#[trigger] layout_table()[i]).index == i + 1,
        forall|i: int| 0 <= i < 11 ==> (#[trigger] layout_table()[i]).ooxml_type is Some
            && layout_table()[i].slide_type_keyword is None,
        forall|i: int| 11 <= i < 31 ==> (#[trigger] layout_table()[i]).ooxml_type is None
            && layout_table()[i].slide_type_keyword is Some
            && starts_with_sf(layout_table()[i].name),
        layout_table()[6].placeholders.len() == 0,
        forall|i: int| 0 <= i < 31 && i != 6 ==> has_title_placeholder(#[trigger] layout_table()[i]),
        forall|i: int| 0 <= i < 31 ==> ((#[trigger] layout_table()[i]).has_color_override <==> (i == 11 || i == 21)),
        forall|i: int| 0 <= i < 31 && (i == 11 || i == 21) ==> (#[trigger] layout_table()[i]).color_override_bg == Some("dk2"@)
            && layout_table()[i].color_override_tx == Some("lt1"@),
        forall|i: int| 0 <= i < 31 && i != 11 && i != 21 ==> (#[trigger] layout_table()[i]).color_override_bg is None
            && layout_table()[i].color_override_tx is None,
{
    let t = layout_table();
    assert(is_title_type(t[0].placeholders[0].ph_type));
    assert(is_title_type(t[1].placeholders[0].ph_type));
    assert(is_title_type(t[2].placeholders[0].ph_type));
    assert(is_title_type(t[3].placeholders[0].ph_type));
    assert(is_title_type(t[4].placeholders[0].ph_type));
    assert(is_title_type(t[5].placeholders[0].ph_type));
    assert(is_title_type(t[7].placeholders[0].ph_type));
    assert(is_title_type(t[8].placeholders[0].ph_type));
    assert(is_title_type(t[9].placeholders[0].ph_type));
    assert(is_title_type(t[10].placeholders[0].ph_type));
    assert(is_title_type(t[11].placeholders[0].ph_type));
    assert(is_title_type(t[12].placeholders[0].ph_type));
    assert(is_title_type(t[13].placeholders[0].ph_type));
    assert(is_title_type(t[14].placeholders[0].ph_type));
    assert(is_title_type(t[15].placeholders[0].ph_type));
    assert(is_title_type(t[16].placeholders[0].ph_type));
    assert(is_title_type(t[17].placeholders[0].ph_type));
    assert(is_title_type(t[18].placeholders[0].ph_type));
    assert(is_title_type(t[19].placeholders[0].ph_type));
    assert(is_title_type(t[20].placeholders[1].ph_type));
    assert(is_title_type(t[21].placeholders[0].ph_type));
    assert(is_title_type(t[22].placeholders[0].ph_type));
    assert(is_title_type(t[23].placeholders[0].ph_type));
    assert(is_title_type(t[24].placeholders[0].ph_type));
    assert(is_title_type(t[25].placeholders[0].ph_type));
    assert(is_title_type(t[26].placeholders[0].ph_type));
    assert(is_title_type(t[27].placeholders[0].ph_type));
    assert(is_title_type(t[28].placeholders[0].ph_type));
    assert(is_title_type(t[29].placeholders[0].ph_type));
    assert(is_title_type(t[30].placeholders[0].ph_type));
    reveal_strlit("SF Section Divider");
    reveal_strlit("SF Stat Grid");
    reveal_strlit("SF Quote");
    reveal_strlit("SF Timeline");
    reveal_strlit("SF Agenda");
    reveal_strlit("SF TOC");
    reveal_strlit("SF Bio");
    reveal_strlit("SF Team Grid");
    reveal_strlit("SF Comparison Table");
    reveal_strlit("SF Full-Bleed Image");
    reveal_strlit("SF End Slide");
    reveal_strlit("SF Data");
    reveal_strlit("SF Diagram");
    reveal_strlit("SF Chart");
    reveal_strlit("SF Map");
    reveal_strlit("SF Risk Register");
    reveal_strlit("SF Executive Summary");
    reveal_strlit("SF Two Column");
    reveal_strlit("SF Methodology");
    reveal_strlit("SF Appendix");
    assert forall|i: int| 11 <= i < 31 implies starts_with_sf((#[trigger] layout_table()[i]).name) by {
        assert(starts_with_sf(t[i].name));
    }
}

/// Every placeholder of every layout has a non-empty accessibility name.
pub proof fn lemma_layout_names_non_empty()
    ensures
        forall|i: int, j: int| 0 <= i < 31 && 0 <= j < layout_table()[i].placeholders.len()
            ==> (#[trigger] layout_table()[i].placeholders[j]).accessibility_name.len() > 0,
{
    reveal_strlit("Agenda Items");
    reveal_strlit("Agenda Title");
    reveal_strlit("Appendix Content");
    reveal_strlit("Appendix Title");
    reveal_strlit("Biography Text");
    reveal_strlit("Caption");
    reveal_strlit("Caption Text");
    reveal_strlit("Chart Area");
    reveal_strlit("Chart Title");
    reveal_strlit("Closing Message");
    reveal_strlit("Closing Title");
    reveal_strlit("Comparison Table");
    reveal_strlit("Comparison Title");
    reveal_strlit("Content Area");
    reveal_strlit("Content Placeholder");
    reveal_strlit("Data Content");
    reveal_strlit("Data Title");
    reveal_strlit("Diagram Area");
    reveal_strlit("Diagram Title");
    reveal_strlit("Executive Summary Title");
    reveal_strlit("Full-Bleed Image");
    reveal_strlit("Image Caption");
    reveal_strlit("Left Column");
    reveal_strlit("Left Content");
    reveal_strlit("Left Header");
    reveal_strlit("Map Area");
    reveal_strlit("Map Title");
    reveal_strlit("Methodology Steps");
    reveal_strlit("Methodology Title");
    reveal_strlit("Name");
    reveal_strlit("Picture Placeholder");
    reveal_strlit("Picture Title");
    reveal_strlit("Profile Photo");
    reveal_strlit("Quote Attribution");
    reveal_strlit("Quote Text");
    reveal_strlit("Quote Title");
    reveal_strlit("Right Column");
    reveal_strlit("Right Content");
    reveal_strlit("Right Header");
    reveal_strlit("Risk Items");
    reveal_strlit("Risk Register Title");
    reveal_strlit("Section Description");
    reveal_strlit("Section Subtitle");
    reveal_strlit("Section Title");
    reveal_strlit("Statistics Grid");
    reveal_strlit("Stats Title");
    reveal_strlit("Subtitle Placeholder");
    reveal_strlit("Summary Content");
    reveal_strlit("TOC Items");
    reveal_strlit("Table of Contents Title");
    reveal_strlit("Team Members");
    reveal_strlit("Team Title");
    reveal_strlit("Timeline Content");
    reveal_strlit("Timeline Title");
    reveal_strlit("Title");
    reveal_strlit("Title Placeholder");
    reveal_strlit("Vertical Content");
    reveal_strlit("Vertical Text Area");
    reveal_strlit("Vertical Text Heading");
    reveal_strlit("Vertical Title");
}

/// Whether a layout has a placeholder of type `t`.
pub open spec fn has_placeholder_type(l: LayoutView, t: Seq<char>) -> bool {
    exists|j: int| 0 <= j < l.placeholders.len() && (#[trigger] l.placeholders[j]).ph_type == t
}

/// Whether a layout is meant to hold a picture: the OOXML "picture with
/// caption" layout (`picTx`) and the custom `bio` and `image` layouts.
pub open spec fn is_picture_layout(l: LayoutView) -> bool {
    l.ooxml_type == Some("picTx"@) || l.slide_type_keyword == Some("bio"@) || l.slide_type_keyword == Some("image"@)
}

/// Picture placeholders are where pictures belong: a layout has a `pic`
/// placeholder exactly when it is a picture layout ("Picture with Caption"
/// of OOXML type `picTx`, "SF Bio", "SF Full-Bleed Image"); every `pic`
/// placeholder has index 1, and the `picTx` layout holds its picture at
/// placeholder position 1, between the title and the caption text.
pub proof fn lemma_picture_placeholders()
    ensures
        forall|i: int| 0 <= i < 31 ==> (has_placeholder_type(#[trigger] layout_table()[i], "pic"@)
            <==> is_picture_layout(layout_table()[i])),
        forall|i: int, j: int| 0 <= i < 31 && 0 <= j < layout_table()[i].placeholders.len()
            && (#[trigger] layout_table()[i].placeholders[j]).ph_type == "pic"@
            ==> layout_table()[i].placeholders[j].idx == 1,
        layout_table()[8].ooxml_type == Some("picTx"@),
        layout_table()[8].placeholders[1].ph_type == "pic"@,
        layout_table()[8].placeholders[1].idx == 1,
        layout_table()[8].placeholders[2].ph_type == "body"@,
{
    let t = layout_table();
    reveal_strlit("pic");
    reveal_strlit("body");
    reveal_strlit("title");
    reveal_strlit("ctrTitle");
    reveal_strlit("subTitle");
    reveal_strlit("picTx");
    reveal_strlit("obj");
    reveal_strlit("secHead");
    reveal_strlit("twoObj");
    reveal_strlit("twoColTx");
    reveal_strlit("titleOnly");
    reveal_strlit("blank");
    reveal_strlit("objTx");
    reveal_strlit("vertTitleAndTx");
    reveal_strlit("vertTx");
    reveal_strlit("bio");
    reveal_strlit("image");
    reveal_strlit("section_divider");
    reveal_strlit("stat_callout");
    reveal_strlit("quote");
    reveal_strlit("vertical_timeline");
    reveal_strlit("agenda");
    reveal_strlit("toc");
    reveal_strlit("team");
    reveal_strlit("enhanced_table");
    reveal_strlit("end");
    reveal_strlit("content_stat");
    reveal_strlit("diagram");
    reveal_strlit("chart");
    reveal_strlit("highlight");
    reveal_strlit("severity_cards");
    reveal_strlit("highlight_boxes");
    reveal_strlit("stats_summary");
    reveal_strlit("numbered_actions");
    reveal_strlit("appendix");
    assert(t[8].placeholders[1].ph_type == "pic"@);
    assert(t[17].placeholders[1].ph_type == "pic"@);
    assert(t[20].placeholders[0].ph_type == "pic"@);
    assert forall|i: int| 0 <= i < 31 implies (has_placeholder_type(#[trigger] layout_table()[i], "pic"@)
        <==> is_picture_layout(layout_table()[i])) by {
        if i == 8 || i == 17 || i == 20 {
            assert(is_picture_layout(t[i]));
        } else {
            let ot = t[i].ooxml_type;
            let kw = t[i].slide_type_keyword;
            assert(ot is Some ==> ot.unwrap().len() != 5 || ot.unwrap()[0] != 'p');
            assert(kw is Some ==> kw.unwrap().len() != 3 || kw.unwrap()[0] != 'b');
            assert(kw is Some ==> kw.unwrap().len() != 5 || kw.unwrap()[0] != 'i');
            assert(!is_picture_layout(t[i]));
            assert forall|j: int| 0 <= j < t[i].placeholders.len() implies (#[trigger] t[i].placeholders[j]).ph_type != "pic"@ by {
                let p = t[i].placeholders[j].ph_type;
                assert(p == "title"@ || p == "ctrTitle"@ || p == "subTitle"@ || p == "body"@);
            }
        }
    }
}

/// Placeholder indices identify the placeholders of a layout: a title or
/// centered title has index 0, every other placeholder a positive index, and
/// no two placeholders of one layout share an index.
pub proof fn lemma_placeholder_indices()
    ensures
        forall|i: int, j: int| 0 <= i < 31 && 0 <= j < layout_table()[i].placeholders.len()
            ==> (is_title_type((#[trigger] layout_table()[i].placeholders[j]).ph_type)
                <==> layout_table()[i].placeholders[j].idx == 0),
        forall|i: int, j: int, k: int| 0 <= i < 31 && 0 <= j < k < layout_table()[i].placeholders.len()
            ==> (#[trigger] layout_table()[i].placeholders[j]).idx != (#[trigger] layout_table()[i].placeholders[k]).idx,
{
    let t = layout_table();
    reveal_strlit("pic");
    reveal_strlit("body");
    reveal_strlit("title");
    reveal_strlit("ctrTitle");
    reveal_strlit("subTitle");
    assert forall|i: int, j: int| 0 <= i < 31 && 0 <= j < layout_table()[i].placeholders.len()
        implies (is_title_type((#[trigger] layout_table()[i].placeholders[j]).ph_type)
            <==> layout_table()[i].placeholders[j].idx == 0) by {
        let p = t[i].placeholders[j].ph_type;
        assert(p.len() > 0);
        assert(p[0] == 'p' || p[0] == 'b' || p[0] == 's' || is_title_type(p));
    }
}

/// Layout generation is deterministic: two calls give the same layouts.
pub proof fn lemma_generation_deterministic(a: Seq<SlideLayoutDef>, b: Seq<SlideLayoutDef>)
    requires
        layouts_view(a) == layout_table(),
        layouts_view(b) == layout_table(),
    ensures
        layouts_view(a) == layouts_view(b),
{
}

} // verus!
