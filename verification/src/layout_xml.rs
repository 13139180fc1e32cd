//! OOXML parts of a synthesized brand: slide layouts, the slide master, the
//! theme, the notes and handout master stubs, and the `[Content_Types].xml`
//! overrides of the layouts.
//!
//! Documents are built as a sequence of XML events in ECMA-376 element
//! order, and each event is written with `quick_xml::Writer`.
use vstd::prelude::*;

use crate::footer::{hf_flags_of, no_flags, ooxml_bool, FooterFlags};
use crate::layouts::{LayoutPlaceholder, LayoutView, PlaceholderView, SlideLayoutDef};
use crate::template::{colors_view, BrandTemplate, ColorSlotV, ColorValue, ColorValueV};
use crate::extractor::scheme_slot_index;
use crate::text::{dec_str, i64_to_string, int_str, push_decimal, str_starts_with, u64_to_string};
use crate::font::{font_run, lemma_latin_in_font_group, lemma_no_latin_keeps_fonts, opens_latin, is_latin_with_typeface};
use crate::xml::{document_text, write_document, AttrV, EventV, OutAttr, OutAttrV, OutTag, OutV, TagV, XmlOut};
use vstd::utf8::encode_utf8;

verus! {

// ─── Master stubs ────────────────────────────────────────────────────────────

/// Minimal `notesMaster1.xml`, required by OOXML even when notes are unused:
/// `<?xml version="1.0" encoding="UTF-8" standalone="yes"?><p:notesMaster xmlns:p="..." xmlns:a="..."><p:cSld><p:spTree/></p:cSld><p:hf/><p:notesStyle/></p:notesMaster>`
/// (UTF-8 bytes; the namespaces are [`NS_P`] and [`NS_A`]).
pub const NOTES_MASTER_STUB: [u8; 269] = [
    60, 63, 120, 109, 108, 32, 118, 101, 114, 115, 105, 111, 110, 61, 34, 49, 46, 48, 34, 32, 101, 110, 99, 111,
    100, 105, 110, 103, 61, 34, 85, 84, 70, 45, 56, 34, 32, 115, 116, 97, 110, 100, 97, 108, 111, 110, 101, 61,
    34, 121, 101, 115, 34, 63, 62, 60, 112, 58, 110, 111, 116, 101, 115, 77, 97, 115, 116, 101, 114, 32, 120, 109,
    108, 110, 115, 58, 112, 61, 34, 104, 116, 116, 112, 58, 47, 47, 115, 99, 104, 101, 109, 97, 115, 46, 111, 112,
    101, 110, 120, 109, 108, 102, 111, 114, 109, 97, 116, 115, 46, 111, 114, 103, 47, 112, 114, 101, 115, 101, 110, 116,
    97, 116, 105, 111, 110, 109, 108, 47, 50, 48, 48, 54, 47, 109, 97, 105, 110, 34, 32, 120, 109, 108, 110, 115,
    58, 97, 61, 34, 104, 116, 116, 112, 58, 47, 47, 115, 99, 104, 101, 109, 97, 115, 46, 111, 112, 101, 110, 120,
    109, 108, 102, 111, 114, 109, 97, 116, 115, 46, 111, 114, 103, 47, 100, 114, 97, 119, 105, 110, 103, 109, 108, 47,
    50, 48, 48, 54, 47, 109, 97, 105, 110, 34, 62, 60, 112, 58, 99, 83, 108, 100, 62, 60, 112, 58, 115, 112,
    84, 114, 101, 101, 47, 62, 60, 47, 112, 58, 99, 83, 108, 100, 62, 60, 112, 58, 104, 102, 47, 62, 60, 112,
    58, 110, 111, 116, 101, 115, 83, 116, 121, 108, 101, 47, 62, 60, 47, 112, 58, 110, 111, 116, 101, 115, 77, 97,
    115, 116, 101, 114, 62,
];

/// Minimal `handoutMaster1.xml`, required by OOXML even when handouts are unused:
/// `<?xml version="1.0" encoding="UTF-8" standalone="yes"?><p:handoutMaster xmlns:p="..." xmlns:a="..."><p:cSld><p:spTree/></p:cSld><p:hf/></p:handoutMaster>`
/// (UTF-8 bytes; the namespaces are [`NS_P`] and [`NS_A`]).
pub const HANDOUT_MASTER_STUB: [u8; 258] = [
    60, 63, 120, 109, 108, 32, 118, 101, 114, 115, 105, 111, 110, 61, 34, 49, 46, 48, 34, 32, 101, 110, 99, 111,
    100, 105, 110, 103, 61, 34, 85, 84, 70, 45, 56, 34, 32, 115, 116, 97, 110, 100, 97, 108, 111, 110, 101, 61,
    34, 121, 101, 115, 34, 63, 62, 60, 112, 58, 104, 97, 110, 100, 111, 117, 116, 77, 97, 115, 116, 101, 114, 32,
    120, 109, 108, 110, 115, 58, 112, 61, 34, 104, 116, 116, 112, 58, 47, 47, 115, 99, 104, 101, 109, 97, 115, 46,
    111, 112, 101, 110, 120, 109, 108, 102, 111, 114, 109, 97, 116, 115, 46, 111, 114, 103, 47, 112, 114, 101, 115, 101,
    110, 116, 97, 116, 105, 111, 110, 109, 108, 47, 50, 48, 48, 54, 47, 109, 97, 105, 110, 34, 32, 120, 109, 108,
    110, 115, 58, 97, 61, 34, 104, 116, 116, 112, 58, 47, 47, 115, 99, 104, 101, 109, 97, 115, 46, 111, 112, 101,
    110, 120, 109, 108, 102, 111, 114, 109, 97, 116, 115, 46, 111, 114, 103, 47, 100, 114, 97, 119, 105, 110, 103, 109,
    108, 47, 50, 48, 48, 54, 47, 109, 97, 105, 110, 34, 62, 60, 112, 58, 99, 83, 108, 100, 62, 60, 112, 58,
    115, 112, 84, 114, 101, 101, 47, 62, 60, 47, 112, 58, 99, 83, 108, 100, 62, 60, 112, 58, 104, 102, 47, 62,
    60, 47, 112, 58, 104, 97, 110, 100, 111, 117, 116, 77, 97, 115, 116, 101, 114, 62,
];

// ─── Namespaces ──────────────────────────────────────────────────────────────

/// PresentationML namespace (`p:`).
pub const NS_P: &'static str = "http://schemas.openxmlformats.org/presentationml/2006/main";
/// DrawingML namespace (`a:`).
pub const NS_A: &'static str = "http://schemas.openxmlformats.org/drawingml/2006/main";
/// Relationships namespace (`r:`).
pub const NS_R: &'static str = "http://schemas.openxmlformats.org/officeDocument/2006/relationships";

// ─── [Content_Types].xml ─────────────────────────────────────────────────────

/// The content type of a slide layout part.
pub const LAYOUT_CONTENT_TYPE: &'static str = "application/vnd.openxmlformats-officedocument.presentationml.slideLayout+xml";

/// The `<Override>` line of layout `n`.
pub open spec fn content_type_entry(n: nat) -> Seq<char> {
    "<Override PartName=\"/ppt/slideLayouts/slideLayout"@ + dec_str(n) + ".xml\" ContentType=\""@
        + LAYOUT_CONTENT_TYPE@ + "\"/>\n"@
}

/// The `<Override>` lines of layouts `1..=k`.
pub open spec fn content_type_entries(k: nat) -> Seq<char>
    decreases k,
{
    if k == 0 {
        Seq::empty()
    } else {
        content_type_entries((k - 1) as nat) + content_type_entry(k)
    }
}

/// The `[Content_Types].xml` overrides of layouts `1..=layout_count`, one
/// line each.
pub fn generate_content_types_layout_entries(layout_count: usize) -> (r: String)
    ensures
        r@ == content_type_entries(layout_count as nat),
{
    let mut out = String::new();
    let mut n: usize = 0;
    while n < layout_count
        invariant
            n <= layout_count,
            out@ == content_type_entries(n as nat),
        decreases layout_count - n,
    {
        n = n + 1;
        out.append("<Override PartName=\"/ppt/slideLayouts/slideLayout");
        push_decimal(&mut out, n as u64);
        out.append(".xml\" ContentType=\"");
        out.append(LAYOUT_CONTENT_TYPE);
        out.append("\"/>\n");
        assert(out@ =~= content_type_entries(n as nat));
    }
    out
}

// ─── Event helpers ───────────────────────────────────────────────────────────

/// An attribute.
pub open spec fn attr_v(key: Seq<char>, value: Seq<char>) -> OutAttrV {
    OutAttrV { key, value }
}

/// A start tag without attributes.
pub open spec fn start_ev(name: Seq<char>) -> OutV {
    OutV::Start(name, Seq::empty())
}

/// An empty element without attributes.
pub open spec fn empty_ev(name: Seq<char>) -> OutV {
    OutV::Empty(name, Seq::empty())
}

/// An end tag.
pub open spec fn end_ev(name: Seq<char>) -> OutV {
    OutV::End(name)
}

/// The XML declaration of every part: version 1.0, UTF-8, standalone.
pub open spec fn decl_ev() -> OutV {
    OutV::Decl("1.0"@, "UTF-8"@, "yes"@)
}

fn attr(key: &str, value: &str) -> (a: OutAttr)
    ensures
        a.deep_view() == attr_v(key@, value@),
{
    OutAttr { key: String::from_str(key), value: String::from_str(value) }
}

fn attr_owned(key: &str, value: String) -> (a: OutAttr)
    ensures
        a.deep_view() == attr_v(key@, value@),
{
    OutAttr { key: String::from_str(key), value }
}

fn attrs1(a: OutAttr) -> (r: Vec<OutAttr>)
    ensures
        r.deep_view() == seq![a.deep_view()],
{
    let mut r = Vec::new();
    r.push(a);
    assert(r.deep_view() =~= seq![a.deep_view()]);
    r
}

fn attrs2(a: OutAttr, b: OutAttr) -> (r: Vec<OutAttr>)
    ensures
        r.deep_view() == seq![a.deep_view(), b.deep_view()],
{
    let mut r = Vec::new();
    r.push(a);
    r.push(b);
    assert(r.deep_view() =~= seq![a.deep_view(), b.deep_view()]);
    r
}

fn attrs3(a: OutAttr, b: OutAttr, c: OutAttr) -> (r: Vec<OutAttr>)
    ensures
        r.deep_view() == seq![a.deep_view(), b.deep_view(), c.deep_view()],
{
    let mut r = Vec::new();
    r.push(a);
    r.push(b);
    r.push(c);
    assert(r.deep_view() =~= seq![a.deep_view(), b.deep_view(), c.deep_view()]);
    r
}

fn attrs4(a: OutAttr, b: OutAttr, c: OutAttr, d: OutAttr) -> (r: Vec<OutAttr>)
    ensures
        r.deep_view() == seq![a.deep_view(), b.deep_view(), c.deep_view(), d.deep_view()],
{
    let mut r = Vec::new();
    r.push(a);
    r.push(b);
    r.push(c);
    r.push(d);
    assert(r.deep_view() =~= seq![a.deep_view(), b.deep_view(), c.deep_view(), d.deep_view()]);
    r
}

fn push_ev(evs: &mut Vec<XmlOut>, e: XmlOut)
    ensures
        final(evs).deep_view() == old(evs).deep_view().push(e.deep_view()),
{
    evs.push(e);
    assert(evs.deep_view() =~= old(evs).deep_view().push(e.deep_view()));
}

fn push_start(evs: &mut Vec<XmlOut>, name: &str, attrs: Vec<OutAttr>)
    ensures
        final(evs).deep_view() == old(evs).deep_view().push(OutV::Start(name@, attrs.deep_view())),
{
    push_ev(evs, XmlOut::Start(OutTag { name: String::from_str(name), attrs }));
}

fn push_empty(evs: &mut Vec<XmlOut>, name: &str, attrs: Vec<OutAttr>)
    ensures
        final(evs).deep_view() == old(evs).deep_view().push(OutV::Empty(name@, attrs.deep_view())),
{
    push_ev(evs, XmlOut::Empty(OutTag { name: String::from_str(name), attrs }));
}

fn push_start0(evs: &mut Vec<XmlOut>, name: &str)
    ensures
        final(evs).deep_view() == old(evs).deep_view().push(start_ev(name@)),
{
    let attrs: Vec<OutAttr> = Vec::new();
    assert(attrs.deep_view() =~= Seq::<OutAttrV>::empty());
    push_start(evs, name, attrs);
}

fn push_empty0(evs: &mut Vec<XmlOut>, name: &str)
    ensures
        final(evs).deep_view() == old(evs).deep_view().push(empty_ev(name@)),
{
    let attrs: Vec<OutAttr> = Vec::new();
    assert(attrs.deep_view() =~= Seq::<OutAttrV>::empty());
    push_empty(evs, name, attrs);
}

fn push_end(evs: &mut Vec<XmlOut>, name: &str)
    ensures
        final(evs).deep_view() == old(evs).deep_view().push(end_ev(name@)),
{
    push_ev(evs, XmlOut::End(String::from_str(name)));
}

fn push_decl(evs: &mut Vec<XmlOut>)
    ensures
        final(evs).deep_view() == old(evs).deep_view().push(decl_ev()),
{
    push_ev(
        evs,
        XmlOut::Decl {
            version: String::from_str("1.0"),
            encoding: String::from_str("UTF-8"),
            standalone: String::from_str("yes"),
        },
    );
}

// ─── Shared shapes ───────────────────────────────────────────────────────────

/// `<p:nvGrpSpPr>`: the non-visual properties of the shape tree.
pub open spec fn nvgrpsppr_events() -> Seq<OutV> {
    seq![
        start_ev("p:nvGrpSpPr"@),
        OutV::Empty("p:cNvPr"@, seq![attr_v("id"@, "1"@), attr_v("name"@, ""@)]),
        empty_ev("p:cNvGrpSpPr"@),
        empty_ev("p:nvPr"@),
        end_ev("p:nvGrpSpPr"@),
    ]
}

fn push_nvgrpsppr(evs: &mut Vec<XmlOut>)
    ensures
        final(evs).deep_view() == old(evs).deep_view() + nvgrpsppr_events(),
{
    push_start0(evs, "p:nvGrpSpPr");
    push_empty(evs, "p:cNvPr", attrs2(attr("id", "1"), attr("name", "")));
    push_empty0(evs, "p:cNvGrpSpPr");
    push_empty0(evs, "p:nvPr");
    push_end(evs, "p:nvGrpSpPr");
    assert(evs.deep_view() =~= old(evs).deep_view() + nvgrpsppr_events());
}

/// `<p:grpSpPr>`: the identity transform of the shape tree.
pub open spec fn grpsppr_events() -> Seq<OutV> {
    seq![
        start_ev("p:grpSpPr"@),
        start_ev("a:xfrm"@),
        OutV::Empty("a:off"@, seq![attr_v("x"@, "0"@), attr_v("y"@, "0"@)]),
        OutV::Empty("a:ext"@, seq![attr_v("cx"@, "0"@), attr_v("cy"@, "0"@)]),
        OutV::Empty("a:chOff"@, seq![attr_v("x"@, "0"@), attr_v("y"@, "0"@)]),
        OutV::Empty("a:chExt"@, seq![attr_v("cx"@, "0"@), attr_v("cy"@, "0"@)]),
        end_ev("a:xfrm"@),
        end_ev("p:grpSpPr"@),
    ]
}

fn push_grpsppr(evs: &mut Vec<XmlOut>)
    ensures
        final(evs).deep_view() == old(evs).deep_view() + grpsppr_events(),
{
    push_start0(evs, "p:grpSpPr");
    push_start0(evs, "a:xfrm");
    push_empty(evs, "a:off", attrs2(attr("x", "0"), attr("y", "0")));
    push_empty(evs, "a:ext", attrs2(attr("cx", "0"), attr("cy", "0")));
    push_empty(evs, "a:chOff", attrs2(attr("x", "0"), attr("y", "0")));
    push_empty(evs, "a:chExt", attrs2(attr("cx", "0"), attr("cy", "0")));
    push_end(evs, "a:xfrm");
    push_end(evs, "p:grpSpPr");
    assert(evs.deep_view() =~= old(evs).deep_view() + grpsppr_events());
}

/// The `p:ph` attributes: the type, and the index when it is not 0.
pub open spec fn ph_attrs(ph_type: Seq<char>, idx: u32) -> Seq<OutAttrV> {
    if idx > 0 {
        seq![attr_v("type"@, ph_type), attr_v("idx"@, dec_str(idx as nat))]
    } else {
        seq![attr_v("type"@, ph_type)]
    }
}

/// The start of a `<p:sp>` placeholder shape, up to its shape properties.
pub open spec fn placeholder_head(ph: PlaceholderView, sp_id: nat) -> Seq<OutV> {
    seq![
        start_ev("p:sp"@),
        start_ev("p:nvSpPr"@),
        OutV::Empty("p:cNvPr"@, seq![attr_v("id"@, dec_str(sp_id)), attr_v("name"@, ph.accessibility_name)]),
        start_ev("p:cNvSpPr"@),
        OutV::Empty("a:spLocks"@, seq![attr_v("noGrp"@, "1"@)]),
        end_ev("p:cNvSpPr"@),
        start_ev("p:nvPr"@),
        OutV::Empty("p:ph"@, ph_attrs(ph.ph_type, ph.idx)),
        end_ev("p:nvPr"@),
        end_ev("p:nvSpPr"@),
    ]
}

/// The shape properties of a placeholder: position, size, rectangle geometry.
pub open spec fn placeholder_sppr(ph: PlaceholderView) -> Seq<OutV> {
    seq![
        start_ev("p:spPr"@),
        start_ev("a:xfrm"@),
        OutV::Empty("a:off"@, seq![attr_v("x"@, int_str(ph.x as int)), attr_v("y"@, int_str(ph.y as int))]),
        OutV::Empty("a:ext"@, seq![attr_v("cx"@, int_str(ph.cx as int)), attr_v("cy"@, int_str(ph.cy as int))]),
        end_ev("a:xfrm"@),
        OutV::Start("a:prstGeom"@, seq![attr_v("prst"@, "rect"@)]),
        empty_ev("a:avLst"@),
        end_ev("a:prstGeom"@),
        end_ev("p:spPr"@),
    ]
}

/// A `<p:sp>` placeholder shape with shape id `sp_id`; on a dark layout it
/// carries a text body with explicit white text.
pub open spec fn placeholder_events(ph: PlaceholderView, sp_id: nat, dark: bool) -> Seq<OutV> {
    placeholder_head(ph, sp_id) + placeholder_sppr(ph) + (if dark {
        dark_txbody_events()
    } else {
        Seq::empty()
    }) + seq![end_ev("p:sp"@)]
}

fn push_placeholder_head(evs: &mut Vec<XmlOut>, ph: &LayoutPlaceholder, sp_id: u64)
    ensures
        final(evs).deep_view() == old(evs).deep_view() + placeholder_head(ph@, sp_id as nat),
{
    push_start0(evs, "p:sp");
    push_start0(evs, "p:nvSpPr");
    push_empty(evs, "p:cNvPr", attrs2(attr_owned("id", u64_to_string(sp_id)), attr("name", ph.accessibility_name.as_str())));
    push_start0(evs, "p:cNvSpPr");
    push_empty(evs, "a:spLocks", attrs1(attr("noGrp", "1")));
    push_end(evs, "p:cNvSpPr");
    push_start0(evs, "p:nvPr");
    let ph_attrs = if ph.idx > 0 {
        attrs2(attr("type", ph.ph_type.as_str()), attr_owned("idx", u64_to_string(ph.idx as u64)))
    } else {
        attrs1(attr("type", ph.ph_type.as_str()))
    };
    push_empty(evs, "p:ph", ph_attrs);
    push_end(evs, "p:nvPr");
    push_end(evs, "p:nvSpPr");
    assert(evs.deep_view() =~= old(evs).deep_view() + placeholder_head(ph@, sp_id as nat));
}

fn push_placeholder_sppr(evs: &mut Vec<XmlOut>, ph: &LayoutPlaceholder)
    ensures
        final(evs).deep_view() == old(evs).deep_view() + placeholder_sppr(ph@),
{
    push_start0(evs, "p:spPr");
    push_start0(evs, "a:xfrm");
    push_empty(evs, "a:off", attrs2(attr_owned("x", i64_to_string(ph.x)), attr_owned("y", i64_to_string(ph.y))));
    push_empty(evs, "a:ext", attrs2(attr_owned("cx", i64_to_string(ph.cx)), attr_owned("cy", i64_to_string(ph.cy))));
    push_end(evs, "a:xfrm");
    push_start(evs, "a:prstGeom", attrs1(attr("prst", "rect")));
    push_empty0(evs, "a:avLst");
    push_end(evs, "a:prstGeom");
    push_end(evs, "p:spPr");
    assert(evs.deep_view() =~= old(evs).deep_view() + placeholder_sppr(ph@));
}

fn push_placeholder(evs: &mut Vec<XmlOut>, ph: &LayoutPlaceholder, sp_id: u64, dark: bool)
    ensures
        final(evs).deep_view() == old(evs).deep_view() + placeholder_events(ph@, sp_id as nat, dark),
{
    push_placeholder_head(evs, ph, sp_id);
    push_placeholder_sppr(evs, ph);
    if dark {
        push_dark_txbody(evs);
    }
    push_end(evs, "p:sp");
    assert(evs.deep_view() =~= old(evs).deep_view() + placeholder_events(ph@, sp_id as nat, dark));
}

// ─── Dark layouts ────────────────────────────────────────────────────────────

/// The tag of paragraph level `lvl` (1-5) in a list style.
pub open spec fn lvl_tag(lvl: int) -> Seq<char> {
    if lvl == 1 { "a:lvl1pPr"@ }
    else if lvl == 2 { "a:lvl2pPr"@ }
    else if lvl == 3 { "a:lvl3pPr"@ }
    else if lvl == 4 { "a:lvl4pPr"@ }
    else { "a:lvl5pPr"@ }
}

fn lvl_tag_str(lvl: u32) -> (s: &'static str)
    requires
        1 <= lvl <= 5,
    ensures
        s@ == lvl_tag(lvl as int),
{
    if lvl == 1 { "a:lvl1pPr" }
    else if lvl == 2 { "a:lvl2pPr" }
    else if lvl == 3 { "a:lvl3pPr" }
    else if lvl == 4 { "a:lvl4pPr" }
    else { "a:lvl5pPr" }
}

/// `<a:solidFill><a:srgbClr val="FFFFFF"/></a:solidFill>`
pub open spec fn white_fill() -> Seq<OutV> {
    seq![
        start_ev("a:solidFill"@),
        OutV::Empty("a:srgbClr"@, seq![attr_v("val"@, "FFFFFF"@)]),
        end_ev("a:solidFill"@),
    ]
}

fn push_white_fill(evs: &mut Vec<XmlOut>)
    ensures
        final(evs).deep_view() == old(evs).deep_view() + white_fill(),
{
    push_start0(evs, "a:solidFill");
    push_empty(evs, "a:srgbClr", attrs1(attr("val", "FFFFFF")));
    push_end(evs, "a:solidFill");
    assert(evs.deep_view() =~= old(evs).deep_view() + white_fill());
}

/// A list-style level whose default run properties are white.
pub open spec fn white_level(lvl: int) -> Seq<OutV> {
    seq![start_ev(lvl_tag(lvl)), start_ev("a:defRPr"@)] + white_fill() + seq![end_ev("a:defRPr"@), end_ev(lvl_tag(lvl))]
}

/// White levels `1..=k`.
pub open spec fn white_levels(k: nat) -> Seq<OutV>
    decreases k,
{
    if k == 0 {
        Seq::empty()
    } else {
        white_levels((k - 1) as nat) + white_level(k as int)
    }
}

/// The text body of a placeholder on a dark layout: a list style with white
/// defaults on levels 1-5 and one empty run with explicit white fill.
pub open spec fn dark_txbody_events() -> Seq<OutV> {
    seq![start_ev("p:txBody"@), empty_ev("a:bodyPr"@), start_ev("a:lstStyle"@)] + white_levels(5) + white_run_events()
}

fn push_white_levels(evs: &mut Vec<XmlOut>)
    ensures
        final(evs).deep_view() == old(evs).deep_view() + white_levels(5),
{
    let ghost before_levels = evs.deep_view();
    let mut lvl: u32 = 1;
    assert(evs.deep_view() =~= before_levels + white_levels(0));
    while lvl <= 5
        invariant
            1 <= lvl <= 6,
            evs.deep_view() == before_levels + white_levels((lvl - 1) as nat),
        decreases 6 - lvl,
    {
        let ghost b = evs.deep_view();
        let tag = lvl_tag_str(lvl);
        push_start0(evs, tag);
        push_start0(evs, "a:defRPr");
        push_white_fill(evs);
        push_end(evs, "a:defRPr");
        push_end(evs, tag);
        assert(evs.deep_view() =~= b + white_level(lvl as int));
        assert(evs.deep_view() =~= before_levels + white_levels(lvl as nat));
        lvl = lvl + 1;
    }
}

/// The run of a dark placeholder: an empty text run with explicit white fill.
pub open spec fn white_run_events() -> Seq<OutV> {
    seq![
        end_ev("a:lstStyle"@),
        start_ev("a:p"@),
        start_ev("a:r"@),
        OutV::Start("a:rPr"@, seq![attr_v("lang"@, "en-US"@), attr_v("dirty"@, "0"@)]),
    ] + white_fill() + seq![
        end_ev("a:rPr"@),
        start_ev("a:t"@),
        OutV::Text(""@),
        end_ev("a:t"@),
        end_ev("a:r"@),
        end_ev("a:p"@),
        end_ev("p:txBody"@),
    ]
}

fn push_white_run(evs: &mut Vec<XmlOut>)
    ensures
        final(evs).deep_view() == old(evs).deep_view() + white_run_events(),
{
    push_end(evs, "a:lstStyle");
    push_start0(evs, "a:p");
    push_start0(evs, "a:r");
    push_start(evs, "a:rPr", attrs2(attr("lang", "en-US"), attr("dirty", "0")));
    push_white_fill(evs);
    push_end(evs, "a:rPr");
    push_start0(evs, "a:t");
    push_ev(evs, XmlOut::Text(String::from_str("")));
    push_end(evs, "a:t");
    push_end(evs, "a:r");
    push_end(evs, "a:p");
    push_end(evs, "p:txBody");
    assert(evs.deep_view() =~= old(evs).deep_view() + white_run_events());
}

fn push_dark_txbody(evs: &mut Vec<XmlOut>)
    ensures
        final(evs).deep_view() == old(evs).deep_view() + dark_txbody_events(),
{
    push_start0(evs, "p:txBody");
    push_empty0(evs, "a:bodyPr");
    push_start0(evs, "a:lstStyle");
    push_white_levels(evs);
    push_white_run(evs);
    assert(evs.deep_view() =~= old(evs).deep_view() + dark_txbody_events());
}

/// `<p:clrMapOvr>` of a dark layout: background `dk2`, text `lt1`, the other
/// roles mapped to themselves or their usual slots.
pub open spec fn clr_map_ovr_events() -> Seq<OutV> {
    seq![
        start_ev("p:clrMapOvr"@),
        OutV::Empty("a:overrideClrMapping"@, color_map_v("dk2"@, "lt1"@, "lt2"@, "dk2"@)),
        end_ev("p:clrMapOvr"@),
    ]
}

/// The 12 attributes of a color map: `bg1`, `tx1`, `bg2`, `tx2` mapped to
/// the given slots, the accents and links to themselves.
pub open spec fn color_map_v(bg1: Seq<char>, tx1: Seq<char>, bg2: Seq<char>, tx2: Seq<char>) -> Seq<OutAttrV> {
    seq![
        attr_v("bg1"@, bg1),
        attr_v("tx1"@, tx1),
        attr_v("bg2"@, bg2),
        attr_v("tx2"@, tx2),
        attr_v("accent1"@, "accent1"@),
        attr_v("accent2"@, "accent2"@),
        attr_v("accent3"@, "accent3"@),
        attr_v("accent4"@, "accent4"@),
        attr_v("accent5"@, "accent5"@),
        attr_v("accent6"@, "accent6"@),
        attr_v("hlink"@, "hlink"@),
        attr_v("folHlink"@, "folHlink"@),
    ]
}

fn color_map_attrs(bg1: &str, tx1: &str, bg2: &str, tx2: &str) -> (r: Vec<OutAttr>)
    ensures
        r.deep_view() == color_map_v(bg1@, tx1@, bg2@, tx2@),
{
    let mut r = Vec::new();
    r.push(attr("bg1", bg1));
    r.push(attr("tx1", tx1));
    r.push(attr("bg2", bg2));
    r.push(attr("tx2", tx2));
    r.push(attr("accent1", "accent1"));
    r.push(attr("accent2", "accent2"));
    r.push(attr("accent3", "accent3"));
    r.push(attr("accent4", "accent4"));
    r.push(attr("accent5", "accent5"));
    r.push(attr("accent6", "accent6"));
    r.push(attr("hlink", "hlink"));
    r.push(attr("folHlink", "folHlink"));
    assert(r.deep_view() =~= color_map_v(bg1@, tx1@, bg2@, tx2@));
    r
}

fn push_clr_map_ovr(evs: &mut Vec<XmlOut>)
    ensures
        final(evs).deep_view() == old(evs).deep_view() + clr_map_ovr_events(),
{
    push_start0(evs, "p:clrMapOvr");
    push_empty(evs, "a:overrideClrMapping", color_map_attrs("dk2", "lt1", "lt2", "dk2"));
    push_end(evs, "p:clrMapOvr");
    assert(evs.deep_view() =~= old(evs).deep_view() + clr_map_ovr_events());
}

// ─── Slide layouts ───────────────────────────────────────────────────────────

/// The placeholder shapes of a shape tree, with shape ids from 2 (id 1 is the group).
pub open spec fn placeholders_events(phs: Seq<PlaceholderView>, dark: bool) -> Seq<OutV>
    decreases phs.len(),
{
    if phs.len() == 0 {
        Seq::empty()
    } else {
        placeholders_events(phs.drop_last(), dark) + placeholder_events(phs.last(), (phs.len() + 1) as nat, dark)
    }
}

fn push_placeholders(evs: &mut Vec<XmlOut>, phs: &Vec<LayoutPlaceholder>, dark: bool)
    requires
        phs.len() + 1 <= u32::MAX,
    ensures
        final(evs).deep_view() == old(evs).deep_view() + placeholders_events(
            phs@.map_values(|p: LayoutPlaceholder| p@),
            dark,
        ),
{
    let ghost pv = phs@.map_values(|p: LayoutPlaceholder| p@);
    let ghost base = evs.deep_view();
    let mut i: usize = 0;
    assert(pv.take(0) =~= Seq::<PlaceholderView>::empty());
    assert(evs.deep_view() =~= base + placeholders_events(pv.take(0), dark));
    while i < phs.len()
        invariant
            phs.len() + 1 <= u32::MAX,
            pv == phs@.map_values(|p: LayoutPlaceholder| p@),
            i <= phs.len(),
            evs.deep_view() == base + placeholders_events(pv.take(i as int), dark),
        decreases phs.len() - i,
    {
        let ghost b = evs.deep_view();
        push_placeholder(evs, &phs[i], (i + 2) as u64, dark);
        assert(pv.take(i + 1).drop_last() =~= pv.take(i as int));
        assert(pv.take(i + 1).last() == phs@[i as int]@);
        assert(evs.deep_view() =~= base + placeholders_events(pv.take(i + 1), dark));
        i = i + 1;
    }
    assert(pv.take(phs.len() as int) =~= pv);
}

/// The `type` of a layout: its OOXML type, `cust` for a custom layout.
pub open spec fn layout_type(t: Option<Seq<char>>) -> Seq<char> {
    match t {
        Some(x) => x,
        None => "cust"@,
    }
}

/// The events of `slideLayoutN.xml` for a layout: the shape tree with one
/// `<p:sp>` per placeholder, the color-map override of a dark layout, and `<p:hf>`.
pub open spec fn layout_events(def: LayoutView) -> Seq<OutV> {
    seq![
        decl_ev(),
        OutV::Start(
            "p:sldLayout"@,
            seq![
                attr_v("xmlns:p"@, NS_P@),
                attr_v("xmlns:a"@, NS_A@),
                attr_v("type"@, layout_type(def.ooxml_type)),
                attr_v("preserve"@, "1"@),
            ],
        ),
        OutV::Start("p:cSld"@, seq![attr_v("name"@, def.name)]),
        start_ev("p:spTree"@),
    ] + nvgrpsppr_events() + grpsppr_events() + placeholders_events(def.placeholders, def.has_color_override)
        + seq![end_ev("p:spTree"@), end_ev("p:cSld"@)] + (if def.has_color_override {
        clr_map_ovr_events()
    } else {
        Seq::empty()
    }) + seq![empty_ev("p:hf"@), end_ev("p:sldLayout"@)]
}

/// The events of `slideLayoutN.xml` for `def`.
pub fn layout_document(def: &SlideLayoutDef) -> (r: Vec<XmlOut>)
    requires
        def.placeholders.len() + 1 <= u32::MAX,
    ensures
        r.deep_view() == layout_events(def@),
{
    let mut evs: Vec<XmlOut> = Vec::new();
    assert(evs.deep_view() =~= Seq::<OutV>::empty());
    push_decl(&mut evs);
    let ty = match &def.ooxml_type {
        Some(t) => t.as_str(),
        None => "cust",
    };
    push_start(&mut evs, "p:sldLayout", attrs4(attr("xmlns:p", NS_P), attr("xmlns:a", NS_A), attr("type", ty), attr("preserve", "1")));
    push_start(&mut evs, "p:cSld", attrs1(attr("name", def.name.as_str())));
    push_start0(&mut evs, "p:spTree");
    let ghost head = evs.deep_view();
    push_nvgrpsppr(&mut evs);
    push_grpsppr(&mut evs);
    push_placeholders(&mut evs, &def.placeholders, def.has_color_override);
    let ghost body = evs.deep_view();
    push_end(&mut evs, "p:spTree");
    push_end(&mut evs, "p:cSld");
    if def.has_color_override {
        push_clr_map_ovr(&mut evs);
    }
    push_empty0(&mut evs, "p:hf");
    push_end(&mut evs, "p:sldLayout");
    assert(evs.deep_view() =~= layout_events(def@));
    evs
}

/// The complete `slideLayoutN.xml` of a layout, as UTF-8 bytes.
pub fn serialize_layout_to_xml(def: &SlideLayoutDef) -> (r: Vec<u8>)
    requires
        def.placeholders.len() + 1 <= u32::MAX,
    ensures
        r@ == encode_utf8(document_text(layout_events(def@))),
{
    let evs = layout_document(def);
    write_document(&evs)
}

// ─── Slide master ────────────────────────────────────────────────────────────

/// A placeholder of the master: type, index, name and geometry in EMU.
pub open spec fn master_ph(ph_type: Seq<char>, idx: u32, name: Seq<char>, x: i64, y: i64, cx: i64, cy: i64) -> PlaceholderView {
    PlaceholderView { ph_type, idx, accessibility_name: name, x, y, cx, cy }
}

/// The five placeholders of the master: title, body, date, footer, slide number.
pub open spec fn master_placeholders() -> Seq<PlaceholderView> {
    seq![
        master_ph("title"@, 0, "Title Placeholder"@, 457_200, 274_638, 8_229_600, 1_143_000),
        master_ph("body"@, 1, "Content Placeholder"@, 457_200, 1_600_200, 8_229_600, 4_525_963),
        master_ph("dt"@, 10, "Date Placeholder"@, 457_200, 6_356_350, 2_286_000, 365_125),
        master_ph("ftr"@, 11, "Footer Placeholder"@, 3_657_600, 6_356_350, 2_743_200, 365_125),
        master_ph("sldNum"@, 12, "Slide Number Placeholder"@, 7_086_000, 6_356_350, 1_600_200, 365_125),
    ]
}

fn master_ph_exec(ph_type: &str, idx: u32, name: &str, x: i64, y: i64, cx: i64, cy: i64) -> (p: LayoutPlaceholder)
    ensures
        p@ == master_ph(ph_type@, idx, name@, x, y, cx, cy),
{
    LayoutPlaceholder {
        ph_type: String::from_str(ph_type),
        idx,
        accessibility_name: String::from_str(name),
        x,
        y,
        cx,
        cy,
    }
}

fn master_placeholder_defs() -> (r: Vec<LayoutPlaceholder>)
    ensures
        r.len() == 5,
        r@.map_values(|p: LayoutPlaceholder| p@) == master_placeholders(),
{
    let mut r = Vec::new();
    r.push(master_ph_exec("title", 0, "Title Placeholder", 457_200, 274_638, 8_229_600, 1_143_000));
    r.push(master_ph_exec("body", 1, "Content Placeholder", 457_200, 1_600_200, 8_229_600, 4_525_963));
    r.push(master_ph_exec("dt", 10, "Date Placeholder", 457_200, 6_356_350, 2_286_000, 365_125));
    r.push(master_ph_exec("ftr", 11, "Footer Placeholder", 3_657_600, 6_356_350, 2_743_200, 365_125));
    r.push(master_ph_exec("sldNum", 12, "Slide Number Placeholder", 7_086_000, 6_356_350, 1_600_200, 365_125));
    assert(r@.map_values(|p: LayoutPlaceholder| p@) =~= master_placeholders());
    r
}

/// The `<p:sldLayoutId>` entries of the first `n` layouts: ids from
/// `start`, relationship ids from `rId2` (`rId1` is the theme).
pub open spec fn layout_id_events(n: nat, start: int) -> Seq<OutV>
    decreases n,
{
    if n == 0 {
        Seq::empty()
    } else {
        layout_id_events((n - 1) as nat, start) + seq![
            OutV::Empty(
                "p:sldLayoutId"@,
                seq![attr_v("id"@, dec_str((start + n - 1) as nat)), attr_v("r:id"@, "rId"@ + dec_str(n + 1))],
            ),
        ]
    }
}

/// `"1"` or `"0"`.
pub open spec fn flag_text(b: bool) -> Seq<char> {
    if b {
        "1"@
    } else {
        "0"@
    }
}

fn flag_str(b: bool) -> (s: &'static str)
    ensures
        s@ == flag_text(b),
{
    if b {
        "1"
    } else {
        "0"
    }
}

/// `<p:hf>` with the footer visibility flags.
pub open spec fn hf_event(f: FooterFlags) -> OutV {
    OutV::Empty(
        "p:hf"@,
        seq![
            attr_v("ftr"@, flag_text(f.show_footer)),
            attr_v("dt"@, flag_text(f.show_date)),
            attr_v("sldNum"@, flag_text(f.show_slide_number)),
        ],
    )
}

/// A text-style level whose default run uses `typeface`.
pub open spec fn font_level(typeface: Seq<char>, lvl: int) -> Seq<OutV> {
    seq![
        start_ev(lvl_tag(lvl)),
        start_ev("a:defRPr"@),
        OutV::Empty("a:latin"@, seq![attr_v("typeface"@, typeface)]),
        end_ev("a:defRPr"@),
        end_ev(lvl_tag(lvl)),
    ]
}

/// Font levels `1..=k`.
pub open spec fn font_levels(typeface: Seq<char>, k: nat) -> Seq<OutV>
    decreases k,
{
    if k == 0 {
        Seq::empty()
    } else {
        font_levels(typeface, (k - 1) as nat) + font_level(typeface, k as int)
    }
}

/// `<p:txStyles>`: the heading font for titles, the body font for body
/// levels 1-5 and other text.
pub open spec fn tx_styles_events(heading: Seq<char>, body: Seq<char>) -> Seq<OutV> {
    seq![start_ev("p:txStyles"@), start_ev("p:titleStyle"@)] + font_level(heading, 1) + seq![
        end_ev("p:titleStyle"@),
        start_ev("p:bodyStyle"@),
    ] + font_levels(body, 5) + seq![end_ev("p:bodyStyle"@), start_ev("p:otherStyle"@)] + font_level(body, 1)
        + seq![end_ev("p:otherStyle"@), end_ev("p:txStyles"@)]
}

fn push_font_level(evs: &mut Vec<XmlOut>, typeface: &str, lvl: u32)
    requires
        1 <= lvl <= 5,
    ensures
        final(evs).deep_view() == old(evs).deep_view() + font_level(typeface@, lvl as int),
{
    let tag = lvl_tag_str(lvl);
    push_start0(evs, tag);
    push_start0(evs, "a:defRPr");
    push_empty(evs, "a:latin", attrs1(attr("typeface", typeface)));
    push_end(evs, "a:defRPr");
    push_end(evs, tag);
    assert(evs.deep_view() =~= old(evs).deep_view() + font_level(typeface@, lvl as int));
}

fn push_tx_styles(evs: &mut Vec<XmlOut>, heading: &str, body: &str)
    ensures
        final(evs).deep_view() == old(evs).deep_view() + tx_styles_events(heading@, body@),
{
    push_start0(evs, "p:txStyles");
    push_start0(evs, "p:titleStyle");
    push_font_level(evs, heading, 1);
    push_end(evs, "p:titleStyle");
    push_start0(evs, "p:bodyStyle");
    let ghost before = evs.deep_view();
    let mut lvl: u32 = 1;
    while lvl <= 5
        invariant
            1 <= lvl <= 6,
            evs.deep_view() == before + font_levels(body@, (lvl - 1) as nat),
        decreases 6 - lvl,
    {
        push_font_level(evs, body, lvl);
        assert(evs.deep_view() =~= before + font_levels(body@, lvl as nat));
        lvl = lvl + 1;
    }
    push_end(evs, "p:bodyStyle");
    push_start0(evs, "p:otherStyle");
    push_font_level(evs, body, 1);
    push_end(evs, "p:otherStyle");
    push_end(evs, "p:txStyles");
    assert(evs.deep_view() =~= old(evs).deep_view() + tx_styles_events(heading@, body@));
}

/// The events of `slideMaster1.xml`: the five master placeholders, the
/// standard color map, one layout id per layout, `<p:hf>` with the footer
/// flags and `<p:txStyles>` with the fonts, in ECMA-376 order.
pub open spec fn master_events(n_layouts: nat, layout_id_start: int, flags: FooterFlags, heading: Seq<char>, body: Seq<char>) -> Seq<OutV> {
    seq![
        decl_ev(),
        OutV::Start(
            "p:sldMaster"@,
            seq![attr_v("xmlns:p"@, NS_P@), attr_v("xmlns:a"@, NS_A@), attr_v("xmlns:r"@, NS_R@)],
        ),
        start_ev("p:cSld"@),
        start_ev("p:spTree"@),
    ] + nvgrpsppr_events() + grpsppr_events() + placeholders_events(master_placeholders(), false) + seq![
        end_ev("p:spTree"@),
        end_ev("p:cSld"@),
        OutV::Empty("a:clrMap"@, color_map_v("lt1"@, "dk1"@, "lt2"@, "dk2"@)),
        start_ev("p:sldLayoutIdLst"@),
    ] + layout_id_events(n_layouts, layout_id_start) + seq![end_ev("p:sldLayoutIdLst"@), hf_event(flags)]
        + tx_styles_events(heading, body) + seq![end_ev("p:sldMaster"@)]
}

fn push_layout_ids(evs: &mut Vec<XmlOut>, n: usize, start: u32)
    requires
        start + n <= 0x1_0000_0000,
        n + 1 <= u32::MAX,
    ensures
        final(evs).deep_view() == old(evs).deep_view() + layout_id_events(n as nat, start as int),
{
    let ghost base = evs.deep_view();
    let mut i: usize = 0;
    while i < n
        invariant
            start + n <= 0x1_0000_0000,
            n + 1 <= u32::MAX,
            i <= n,
            evs.deep_view() == base + layout_id_events(i as nat, start as int),
        decreases n - i,
    {
        let id = u64_to_string(start as u64 + i as u64);
        let mut rid = String::from_str("rId");
        push_decimal(&mut rid, (i + 2) as u64);
        push_empty(evs, "p:sldLayoutId", attrs2(attr_owned("id", id), attr_owned("r:id", rid)));
        i = i + 1;
        assert(evs.deep_view() =~= base + layout_id_events(i as nat, start as int));
    }
}

/// The events of `slideMaster1.xml` for `template`.
pub fn master_document(template: &BrandTemplate) -> (r: Vec<XmlOut>)
    requires
        template.master_ids.layout_id_start + template.layouts.len() <= 0x1_0000_0000,
        template.layouts.len() + 1 <= u32::MAX,
    ensures
        r.deep_view() == master_events(
            template.layouts.len() as nat,
            template.master_ids.layout_id_start as int,
            template.footer_flags,
            template.fonts.heading@,
            template.fonts.body@,
        ),
{
    let mut evs: Vec<XmlOut> = Vec::new();
    assert(evs.deep_view() =~= Seq::<OutV>::empty());
    push_decl(&mut evs);
    push_start(&mut evs, "p:sldMaster", attrs3(attr("xmlns:p", NS_P), attr("xmlns:a", NS_A), attr("xmlns:r", NS_R)));
    push_start0(&mut evs, "p:cSld");
    push_start0(&mut evs, "p:spTree");
    push_nvgrpsppr(&mut evs);
    push_grpsppr(&mut evs);
    let phs = master_placeholder_defs();
    push_placeholders(&mut evs, &phs, false);
    push_end(&mut evs, "p:spTree");
    push_end(&mut evs, "p:cSld");
    push_empty(&mut evs, "a:clrMap", color_map_attrs("lt1", "dk1", "lt2", "dk2"));
    push_start0(&mut evs, "p:sldLayoutIdLst");
    push_layout_ids(&mut evs, template.layouts.len(), template.master_ids.layout_id_start);
    push_end(&mut evs, "p:sldLayoutIdLst");
    let f = template.footer_flags;
    push_empty(&mut evs, "p:hf", attrs3(attr("ftr", flag_str(f.show_footer)), attr("dt", flag_str(f.show_date)), attr("sldNum", flag_str(f.show_slide_number))));
    push_tx_styles(&mut evs, template.fonts.heading.as_str(), template.fonts.body.as_str());
    push_end(&mut evs, "p:sldMaster");
    assert(evs.deep_view() =~= master_events(
        template.layouts.len() as nat,
        template.master_ids.layout_id_start as int,
        template.footer_flags,
        template.fonts.heading@,
        template.fonts.body@,
    ));
    evs
}

/// The complete `slideMaster1.xml` of `template`, as UTF-8 bytes.
pub fn serialize_master_to_xml(template: &BrandTemplate) -> (r: Vec<u8>)
    requires
        template.master_ids.layout_id_start + template.layouts.len() <= 0x1_0000_0000,
        template.layouts.len() + 1 <= u32::MAX,
    ensures
        r@ == encode_utf8(document_text(master_events(
            template.layouts.len() as nat,
            template.master_ids.layout_id_start as int,
            template.footer_flags,
            template.fonts.heading@,
            template.fonts.body@,
        ))),
{
    let evs = master_document(template);
    write_document(&evs)
}

/// The attributes of a written element as a reader sees them: each key with
/// its value.
pub open spec fn read_back_attrs(attrs: Seq<OutAttrV>) -> Seq<AttrV> {
    attrs.map_values(|a: OutAttrV| AttrV { key: a.key, value: Some(a.value) })
}

/// Whether `e` is a `<p:hf>` element whose attributes, read back, give the
/// footer flags `f`.
pub open spec fn is_hf_with_flags(e: OutV, f: FooterFlags) -> bool {
    e matches OutV::Empty(name, attrs) && name == "p:hf"@ && hf_flags_of(read_back_attrs(attrs)) == f
}

/// The master's `<p:hf>` carries each footer flag under its own attribute:
/// reading its attributes back as the footer detection does gives exactly
/// the template's flags (`ftr` the footer, `dt` the date, `sldNum` the slide
/// number), and the master document holds that element.
pub proof fn lemma_master_hf_round_trip(n_layouts: nat, layout_id_start: int, flags: FooterFlags, heading: Seq<char>, body: Seq<char>)
    ensures
        is_hf_with_flags(hf_event(flags), flags),
        exists|i: int| 0 <= i < master_events(n_layouts, layout_id_start, flags, heading, body).len()
            && is_hf_with_flags(#[trigger] master_events(n_layouts, layout_id_start, flags, heading, body)[i], flags),
{
    reveal_strlit("ftr");
    reveal_strlit("dt");
    reveal_strlit("sldNum");
    reveal_strlit("1");
    reveal_strlit("0");
    reveal_strlit("true");
    let attrs = seq![
        attr_v("ftr"@, flag_text(flags.show_footer)),
        attr_v("dt"@, flag_text(flags.show_date)),
        attr_v("sldNum"@, flag_text(flags.show_slide_number)),
    ];
    let read = read_back_attrs(attrs);
    assert(read.drop_last().drop_last().drop_last() =~= Seq::<AttrV>::empty());
    assert(read.drop_last().drop_last().last() == AttrV { key: "ftr"@, value: Some(flag_text(flags.show_footer)) });
    assert(read.drop_last().last() == AttrV { key: "dt"@, value: Some(flag_text(flags.show_date)) });
    assert(read.last() == AttrV { key: "sldNum"@, value: Some(flag_text(flags.show_slide_number)) });
    assert forall|b: bool| #[trigger] ooxml_bool(Some(flag_text(b))) == b by {
        assert("0"@.len() == 1 && "0"@[0] != "1"@[0] && "0"@.len() != "true"@.len());
    }
    assert("ftr"@ != "dt"@ && "ftr"@ != "sldNum"@ && "dt"@ != "sldNum"@) by {
        assert("ftr"@.len() != "dt"@.len() && "ftr"@.len() != "sldNum"@.len() && "dt"@.len() != "sldNum"@.len());
    }
    let r2 = read.drop_last();
    let r1 = r2.drop_last();
    assert(hf_flags_of(r1.drop_last()) == no_flags());
    assert(hf_flags_of(r1) == FooterFlags { show_footer: flags.show_footer, ..no_flags() });
    assert(hf_flags_of(r2) == FooterFlags { show_footer: flags.show_footer, show_date: flags.show_date, show_slide_number: false });
    assert(hf_flags_of(read) == flags);
    let pre = seq![
        decl_ev(),
        OutV::Start(
            "p:sldMaster"@,
            seq![attr_v("xmlns:p"@, NS_P@), attr_v("xmlns:a"@, NS_A@), attr_v("xmlns:r"@, NS_R@)],
        ),
        start_ev("p:cSld"@),
        start_ev("p:spTree"@),
    ] + nvgrpsppr_events() + grpsppr_events() + placeholders_events(master_placeholders(), false) + seq![
        end_ev("p:spTree"@),
        end_ev("p:cSld"@),
        OutV::Empty("a:clrMap"@, color_map_v("lt1"@, "dk1"@, "lt2"@, "dk2"@)),
        start_ev("p:sldLayoutIdLst"@),
    ] + layout_id_events(n_layouts, layout_id_start);
    let tail = seq![end_ev("p:sldLayoutIdLst"@), hf_event(flags)];
    let rest = tx_styles_events(heading, body) + seq![end_ev("p:sldMaster"@)];
    let m = master_events(n_layouts, layout_id_start, flags, heading, body);
    assert(m == pre + tail + rest);
    assert(m[pre.len() + 1int] == hf_event(flags));
}

// ─── Theme ───────────────────────────────────────────────────────────────────

/// The `<a:clrScheme>` element of slot `i`.
pub open spec fn theme_color_element(i: int) -> Seq<char> {
    if i == 0 { "a:dk1"@ }
    else if i == 1 { "a:lt1"@ }
    else if i == 2 { "a:dk2"@ }
    else if i == 3 { "a:lt2"@ }
    else if i == 4 { "a:accent1"@ }
    else if i == 5 { "a:accent2"@ }
    else if i == 6 { "a:accent3"@ }
    else if i == 7 { "a:accent4"@ }
    else if i == 8 { "a:accent5"@ }
    else if i == 9 { "a:accent6"@ }
    else if i == 10 { "a:hlink"@ }
    else { "a:folHlink"@ }
}

fn theme_color_element_str(i: usize) -> (s: &'static str)
    requires
        i < 12,
    ensures
        s@ == theme_color_element(i as int),
{
    if i == 0 { "a:dk1" }
    else if i == 1 { "a:lt1" }
    else if i == 2 { "a:dk2" }
    else if i == 3 { "a:lt2" }
    else if i == 4 { "a:accent1" }
    else if i == 5 { "a:accent2" }
    else if i == 6 { "a:accent3" }
    else if i == 7 { "a:accent4" }
    else if i == 8 { "a:accent5" }
    else if i == 9 { "a:accent6" }
    else if i == 10 { "a:hlink" }
    else { "a:folHlink" }
}

/// The element of slot `i` in the theme's `<a:clrScheme>` is `a:` followed
/// by the scheme color name of slot `i`: the name that a `schemeClr`
/// reference uses for that slot resolves back to slot `i`. So the theme
/// stores each slot's color under its own ECMA-376 element (`dk1`, `lt1`,
/// `dk2`, `lt2`, `accent1`-`accent6`, `hlink`, `folHlink`), and the
/// `<a:clrScheme>` entry `k` of a written theme holds the color of slot `k`.
pub proof fn lemma_theme_elements_name_their_slots(colors: Seq<ColorSlotV>)
    ensures
        forall|i: int| 0 <= i < 12 ==> {
            &&& (#[trigger] theme_color_element(i)).len() > 2
            &&& theme_color_element(i).take(2) == "a:"@
            &&& scheme_slot_index(theme_color_element(i).skip(2)) == Some(i)
        },
        forall|k: int| 0 <= k < 12 ==> {
            &&& #[trigger] color_scheme_events(colors, 12)[3 * k] == start_ev(theme_color_element(k))
            &&& scheme_slot_index(theme_color_element(k).skip(2)) == Some(k)
            &&& color_scheme_events(colors, 12)[3 * k + 1] == OutV::Empty(
                "a:srgbClr"@,
                seq![attr_v("val"@, theme_hex_val(colors[k].value))],
            )
        },
{
    lemma_color_scheme_entries(colors, 12);
    reveal_strlit("a:");
    reveal_strlit("a:dk1");
    reveal_strlit("a:lt1");
    reveal_strlit("a:dk2");
    reveal_strlit("a:lt2");
    reveal_strlit("a:accent1");
    reveal_strlit("a:accent2");
    reveal_strlit("a:accent3");
    reveal_strlit("a:accent4");
    reveal_strlit("a:accent5");
    reveal_strlit("a:accent6");
    reveal_strlit("a:hlink");
    reveal_strlit("a:folHlink");
    reveal_strlit("dk1");
    reveal_strlit("lt1");
    reveal_strlit("dk2");
    reveal_strlit("lt2");
    reveal_strlit("accent1");
    reveal_strlit("accent2");
    reveal_strlit("accent3");
    reveal_strlit("accent4");
    reveal_strlit("accent5");
    reveal_strlit("accent6");
    reveal_strlit("acc1");
    reveal_strlit("acc2");
    reveal_strlit("acc3");
    reveal_strlit("acc4");
    reveal_strlit("acc5");
    reveal_strlit("acc6");
    reveal_strlit("hlink");
    reveal_strlit("hyperlink");
    reveal_strlit("folhlink");
    reveal_strlit("followedhyperlink");
    assert forall|i: int| 0 <= i < 12 implies {
        &&& (#[trigger] theme_color_element(i)).len() > 2
        &&& theme_color_element(i).take(2) == "a:"@
        &&& scheme_slot_index(theme_color_element(i).skip(2)) == Some(i)
    } by {
        let e = theme_color_element(i);
        assert(e.take(2) =~= "a:"@);
        let n = e.skip(2);
        assert(forall|j: int| 0 <= j < n.len() ==> #[trigger] n[j] == e[j + 2]);
        assert(n[0] == e[2]);
        assert(n[n.len() - 1] == e[e.len() - 1]);
        if i >= 4 && i <= 9 {
            assert(n[6] == e[8]);
        }
    }
}

/// The `val` of a slot's `<a:srgbClr>`: its hex without the leading `#`; a
/// scheme reference cannot be resolved here and gives neutral `808080`.
pub open spec fn theme_hex_val(v: ColorValueV) -> Seq<char> {
    match v {
        ColorValueV::Hex(h) => if h.len() > 0 && h[0] == '#' {
            h.drop_first()
        } else {
            h
        },
        ColorValueV::SchemeRef(_) => "808080"@,
    }
}

/// The `<a:clrScheme>` entries of the first `k` slots.
pub open spec fn color_scheme_events(colors: Seq<ColorSlotV>, k: nat) -> Seq<OutV>
    decreases k,
{
    if k == 0 {
        Seq::empty()
    } else {
        color_scheme_events(colors, (k - 1) as nat) + seq![
            start_ev(theme_color_element(k - 1)),
            OutV::Empty("a:srgbClr"@, seq![attr_v("val"@, theme_hex_val(colors[k - 1].value))]),
            end_ev(theme_color_element(k - 1)),
        ]
    }
}

fn theme_hex_string(v: &ColorValue) -> (r: String)
    ensures
        r@ == theme_hex_val(v.deep_view()),
{
    match v {
        ColorValue::Hex(h) => {
            let n = h.as_str().unicode_len();
            if n > 0 && h.as_str().get_char(0) == '#' {
                let rest = h.as_str().substring_char(1, n);
                assert(rest@ =~= h@.drop_first());
                String::from_str(rest)
            } else {
                h.clone()
            }
        },
        ColorValue::SchemeRef(_) => String::from_str("808080"),
    }
}

fn push_color_scheme(evs: &mut Vec<XmlOut>, colors: &[crate::template::ColorSlot; 12])
    ensures
        final(evs).deep_view() == old(evs).deep_view() + color_scheme_events(colors_view(*colors), 12),
{
    let ghost cv = colors_view(*colors);
    let ghost base = evs.deep_view();
    let mut i: usize = 0;
    while i < 12
        invariant
            i <= 12,
            cv == colors_view(*colors),
            evs.deep_view() == base + color_scheme_events(cv, i as nat),
        decreases 12 - i,
    {
        assert(cv[i as int] == colors[i as int].deep_view());
        let el = theme_color_element_str(i);
        push_start0(evs, el);
        push_empty(evs, "a:srgbClr", attrs1(attr_owned("val", theme_hex_string(&colors[i].value))));
        push_end(evs, el);
        i = i + 1;
        assert(evs.deep_view() =~= base + color_scheme_events(cv, i as nat));
    }
}

/// `<a:fontScheme>`: the heading font as major font, the body font as minor font.
pub open spec fn font_scheme_events(heading: Seq<char>, body: Seq<char>) -> Seq<OutV> {
    seq![
        OutV::Start("a:fontScheme"@, seq![attr_v("name"@, "slideforge"@)]),
        start_ev("a:majorFont"@),
        OutV::Empty("a:latin"@, seq![attr_v("typeface"@, heading)]),
        empty_ev("a:ea"@),
        empty_ev("a:cs"@),
        end_ev("a:majorFont"@),
        start_ev("a:minorFont"@),
        OutV::Empty("a:latin"@, seq![attr_v("typeface"@, body)]),
        empty_ev("a:ea"@),
        empty_ev("a:cs"@),
        end_ev("a:minorFont"@),
        end_ev("a:fontScheme"@),
    ]
}

/// An element name of the DrawingML namespace without its `a:` prefix, as
/// a reader reports its local name.
pub open spec fn drawingml_local(n: Seq<char>) -> Seq<char> {
    if n.len() >= 2 && n.take(2) == "a:"@ {
        n.skip(2)
    } else {
        n
    }
}

/// A written event as a reader sees it: local names, attributes with values.
pub open spec fn read_back_event(e: OutV) -> EventV {
    match e {
        OutV::Start(n, a) => EventV::Start(TagV { name: drawingml_local(n), attrs: read_back_attrs(a) }),
        OutV::Empty(n, a) => EventV::Empty(TagV { name: drawingml_local(n), attrs: read_back_attrs(a) }),
        OutV::End(n) => EventV::End(drawingml_local(n)),
        OutV::Text(t) => EventV::Text(Some(t)),
        OutV::Decl(..) => EventV::Other,
    }
}

/// The font scheme that the theme writes reads back as the fonts it was
/// written from: the theme-font pass over it finds `heading` as the heading
/// (major) font and `body` as the body (minor) font.
pub proof fn lemma_font_scheme_round_trip(heading: Seq<char>, body: Seq<char>)
    ensures
        font_run(font_scheme_events(heading, body).map_values(|e: OutV| read_back_event(e)), 12).heading == Some(heading),
        font_run(font_scheme_events(heading, body).map_values(|e: OutV| read_back_event(e)), 12).body == Some(body),
{
    let w = font_scheme_events(heading, body);
    let evs = w.map_values(|e: OutV| read_back_event(e));
    reveal_strlit("a:");
    reveal_strlit("a:fontScheme");
    reveal_strlit("a:majorFont");
    reveal_strlit("a:minorFont");
    reveal_strlit("a:latin");
    reveal_strlit("a:ea");
    reveal_strlit("a:cs");
    reveal_strlit("majorFont");
    reveal_strlit("minorFont");
    reveal_strlit("latin");
    reveal_strlit("typeface");
    assert("a:majorFont"@.take(2) =~= "a:"@);
    assert("a:minorFont"@.take(2) =~= "a:"@);
    assert("a:latin"@.take(2) =~= "a:"@);
    assert(drawingml_local("a:majorFont"@) =~= "majorFont"@);
    assert(drawingml_local("a:minorFont"@) =~= "minorFont"@);
    assert(drawingml_local("a:latin"@) =~= "latin"@);
    assert(drawingml_local("a:fontScheme"@).len() != 5);
    assert(drawingml_local("a:ea"@).len() != 5);
    assert(drawingml_local("a:cs"@).len() != 5);
    assert(read_back_attrs(seq![attr_v("typeface"@, heading)])[0] == AttrV { key: "typeface"@, value: Some(heading) });
    assert(read_back_attrs(seq![attr_v("typeface"@, body)])[0] == AttrV { key: "typeface"@, value: Some(body) });
    reveal_with_fuel(crate::color::last_attr, 2);
    assert(is_latin_with_typeface(evs[2], heading));
    assert(is_latin_with_typeface(evs[7], body));
    assert(forall|k: int| 0 <= k < 12 && k != 2 && k != 7 ==> !opens_latin(#[trigger] evs[k]));
    lemma_no_latin_keeps_fonts(evs, 0, 1);
    lemma_latin_in_font_group(evs, 1, heading);
    lemma_no_latin_keeps_fonts(evs, 3, 6);
    lemma_latin_in_font_group(evs, 6, body);
    lemma_no_latin_keeps_fonts(evs, 8, 12);
}

fn push_font_scheme(evs: &mut Vec<XmlOut>, heading: &str, body: &str)
    ensures
        final(evs).deep_view() == old(evs).deep_view() + font_scheme_events(heading@, body@),
{
    push_start(evs, "a:fontScheme", attrs1(attr("name", "slideforge")));
    push_start0(evs, "a:majorFont");
    push_empty(evs, "a:latin", attrs1(attr("typeface", heading)));
    push_empty0(evs, "a:ea");
    push_empty0(evs, "a:cs");
    push_end(evs, "a:majorFont");
    push_start0(evs, "a:minorFont");
    push_empty(evs, "a:latin", attrs1(attr("typeface", body)));
    push_empty0(evs, "a:ea");
    push_empty0(evs, "a:cs");
    push_end(evs, "a:minorFont");
    push_end(evs, "a:fontScheme");
    assert(evs.deep_view() =~= old(evs).deep_view() + font_scheme_events(heading@, body@));
}

/// A solid fill with the placeholder color.
pub open spec fn ph_fill() -> Seq<OutV> {
    seq![
        start_ev("a:solidFill"@),
        OutV::Empty("a:schemeClr"@, seq![attr_v("val"@, "phClr"@)]),
        end_ev("a:solidFill"@),
    ]
}

/// `k` placeholder-color solid fills.
pub open spec fn ph_fills(k: nat) -> Seq<OutV>
    decreases k,
{
    if k == 0 {
        Seq::empty()
    } else {
        ph_fills((k - 1) as nat) + ph_fill()
    }
}

/// A solid line of width `w` (EMU) in the placeholder color.
pub open spec fn line_style(w: Seq<char>) -> Seq<OutV> {
    seq![
        OutV::Start(
            "a:ln"@,
            seq![attr_v("w"@, w), attr_v("cap"@, "flat"@), attr_v("cmpd"@, "sng"@), attr_v("algn"@, "ctr"@)],
        ),
    ] + ph_fill() + seq![OutV::Empty("a:prstDash"@, seq![attr_v("val"@, "solid"@)]), end_ev("a:ln"@)]
}

/// An effect style without effects.
pub open spec fn effect_style() -> Seq<OutV> {
    seq![start_ev("a:effectStyle"@), empty_ev("a:effectLst"@), end_ev("a:effectStyle"@)]
}

/// `k` effect styles without effects.
pub open spec fn effect_styles(k: nat) -> Seq<OutV>
    decreases k,
{
    if k == 0 {
        Seq::empty()
    } else {
        effect_styles((k - 1) as nat) + effect_style()
    }
}

/// A style list: `<name>`, the entries, `</name>`.
pub open spec fn style_list(name: Seq<char>, entries: Seq<OutV>) -> Seq<OutV> {
    seq![start_ev(name)] + entries + seq![end_ev(name)]
}

/// The three lines of the line style list: 6350, 12700 and 19050 EMU wide.
pub open spec fn line_styles() -> Seq<OutV> {
    line_style("6350"@) + line_style("12700"@) + line_style("19050"@)
}

/// `<a:fmtScheme>`: three fills, three lines, three effect styles and three
/// background fills, the minimum ECMA-376 asks for.
pub open spec fn fmt_scheme_events() -> Seq<OutV> {
    seq![OutV::Start("a:fmtScheme"@, seq![attr_v("name"@, "slideforge"@)])]
        + style_list("a:fillStyleLst"@, ph_fills(3))
        + style_list("a:lnStyleLst"@, line_styles())
        + style_list("a:effectStyleLst"@, effect_styles(3))
        + style_list("a:bgFillStyleLst"@, ph_fills(3))
        + seq![end_ev("a:fmtScheme"@)]
}

fn push_ph_fill(evs: &mut Vec<XmlOut>)
    ensures
        final(evs).deep_view() == old(evs).deep_view() + ph_fill(),
{
    push_start0(evs, "a:solidFill");
    push_empty(evs, "a:schemeClr", attrs1(attr("val", "phClr")));
    push_end(evs, "a:solidFill");
    assert(evs.deep_view() =~= old(evs).deep_view() + ph_fill());
}

fn push_fill_list(evs: &mut Vec<XmlOut>, name: &str)
    ensures
        final(evs).deep_view() == old(evs).deep_view() + style_list(name@, ph_fills(3)),
{
    push_start0(evs, name);
    let ghost base = evs.deep_view();
    let mut k: usize = 0;
    assert(evs.deep_view() =~= base + ph_fills(0));
    while k < 3
        invariant
            k <= 3,
            evs.deep_view() == base + ph_fills(k as nat),
        decreases 3 - k,
    {
        push_ph_fill(evs);
        k = k + 1;
        assert(evs.deep_view() =~= base + ph_fills(k as nat));
    }
    push_end(evs, name);
    assert(evs.deep_view() =~= old(evs).deep_view() + style_list(name@, ph_fills(3)));
}

fn push_line_style(evs: &mut Vec<XmlOut>, w: &str)
    ensures
        final(evs).deep_view() == old(evs).deep_view() + line_style(w@),
{
    push_start(evs, "a:ln", attrs4(attr("w", w), attr("cap", "flat"), attr("cmpd", "sng"), attr("algn", "ctr")));
    push_ph_fill(evs);
    push_empty(evs, "a:prstDash", attrs1(attr("val", "solid")));
    push_end(evs, "a:ln");
    assert(evs.deep_view() =~= old(evs).deep_view() + line_style(w@));
}

fn push_line_list(evs: &mut Vec<XmlOut>)
    ensures
        final(evs).deep_view() == old(evs).deep_view() + style_list("a:lnStyleLst"@, line_styles()),
{
    push_start0(evs, "a:lnStyleLst");
    let ghost b0 = evs.deep_view();
    push_line_style(evs, "6350");
    push_line_style(evs, "12700");
    push_line_style(evs, "19050");
    assert(evs.deep_view() =~= b0 + line_styles());
    push_end(evs, "a:lnStyleLst");
    assert(evs.deep_view() =~= old(evs).deep_view() + style_list("a:lnStyleLst"@, line_styles()));
}

fn push_effect_list(evs: &mut Vec<XmlOut>)
    ensures
        final(evs).deep_view() == old(evs).deep_view() + style_list("a:effectStyleLst"@, effect_styles(3)),
{
    push_start0(evs, "a:effectStyleLst");
    let ghost base = evs.deep_view();
    let mut k: usize = 0;
    assert(evs.deep_view() =~= base + effect_styles(0));
    while k < 3
        invariant
            k <= 3,
            evs.deep_view() == base + effect_styles(k as nat),
        decreases 3 - k,
    {
        push_start0(evs, "a:effectStyle");
        push_empty0(evs, "a:effectLst");
        push_end(evs, "a:effectStyle");
        k = k + 1;
        assert(evs.deep_view() =~= base + effect_styles(k as nat));
    }
    push_end(evs, "a:effectStyleLst");
    assert(evs.deep_view() =~= old(evs).deep_view() + style_list("a:effectStyleLst"@, effect_styles(3)));
}

fn push_fmt_scheme(evs: &mut Vec<XmlOut>)
    ensures
        final(evs).deep_view() == old(evs).deep_view() + fmt_scheme_events(),
{
    push_start(evs, "a:fmtScheme", attrs1(attr("name", "slideforge")));
    let ghost b1 = evs.deep_view();
    push_fill_list(evs, "a:fillStyleLst");
    let ghost b2 = evs.deep_view();
    push_line_list(evs);
    let ghost b3 = evs.deep_view();
    push_effect_list(evs);
    let ghost b4 = evs.deep_view();
    push_fill_list(evs, "a:bgFillStyleLst");
    let ghost b5 = evs.deep_view();
    push_end(evs, "a:fmtScheme");
    assert(evs.deep_view() =~= old(evs).deep_view() + fmt_scheme_events());
}

/// The events of `theme1.xml`: the 12 slot colors in ECMA-376 order, the
/// fonts and a minimal format scheme.
pub open spec fn theme_events(colors: Seq<ColorSlotV>, heading: Seq<char>, body: Seq<char>) -> Seq<OutV> {
    seq![
        decl_ev(),
        OutV::Start("a:theme"@, seq![attr_v("xmlns:a"@, NS_A@), attr_v("name"@, "slideforge"@)]),
        start_ev("a:themeElements"@),
        OutV::Start("a:clrScheme"@, seq![attr_v("name"@, "slideforge"@)]),
    ] + color_scheme_events(colors, 12) + seq![end_ev("a:clrScheme"@)] + font_scheme_events(heading, body)
        + fmt_scheme_events() + seq![end_ev("a:themeElements"@), end_ev("a:theme"@)]
}

/// The events of `theme1.xml` for `template`.
pub fn theme_document(template: &BrandTemplate) -> (r: Vec<XmlOut>)
    ensures
        r.deep_view() == theme_events(colors_view(template.colors), template.fonts.heading@, template.fonts.body@),
{
    let mut evs: Vec<XmlOut> = Vec::new();
    assert(evs.deep_view() =~= Seq::<OutV>::empty());
    push_decl(&mut evs);
    push_start(&mut evs, "a:theme", attrs2(attr("xmlns:a", NS_A), attr("name", "slideforge")));
    push_start0(&mut evs, "a:themeElements");
    push_start(&mut evs, "a:clrScheme", attrs1(attr("name", "slideforge")));
    push_color_scheme(&mut evs, &template.colors);
    push_end(&mut evs, "a:clrScheme");
    push_font_scheme(&mut evs, template.fonts.heading.as_str(), template.fonts.body.as_str());
    push_fmt_scheme(&mut evs);
    push_end(&mut evs, "a:themeElements");
    push_end(&mut evs, "a:theme");
    assert(evs.deep_view() =~= theme_events(colors_view(template.colors), template.fonts.heading@, template.fonts.body@));
    evs
}

/// The complete `theme1.xml` of `template`, as UTF-8 bytes.
pub fn serialize_theme_to_xml(template: &BrandTemplate) -> (r: Vec<u8>)
    ensures
        r@ == encode_utf8(document_text(theme_events(colors_view(template.colors), template.fonts.heading@, template.fonts.body@))),
{
    let evs = theme_document(template);
    write_document(&evs)
}

// ─── Laws ────────────────────────────────────────────────────────────────────

/// The master lists every layout once, in order: entry `k` has id
/// `start + k` and relationship id `rId{k + 2}`.
pub proof fn lemma_layout_ids(n: nat, start: int)
    ensures
        layout_id_events(n, start).len() == n,
        forall|k: int| 0 <= k < n ==> #[trigger] layout_id_events(n, start)[k] == OutV::Empty(
            "p:sldLayoutId"@,
            seq![attr_v("id"@, dec_str((start + k) as nat)), attr_v("r:id"@, "rId"@ + dec_str((k + 2) as nat))],
        ),
    decreases n,
{
    if n > 0 {
        lemma_layout_ids((n - 1) as nat, start);
        let prev = layout_id_events((n - 1) as nat, start);
        assert forall|k: int| 0 <= k < n implies #[trigger] layout_id_events(n, start)[k] == OutV::Empty(
            "p:sldLayoutId"@,
            seq![attr_v("id"@, dec_str((start + k) as nat)), attr_v("r:id"@, "rId"@ + dec_str((k + 2) as nat))],
        ) by {
            if k < n - 1 {
                assert(layout_id_events(n, start)[k] == prev[k]);
            }
        }
    }
}

/// The theme's color scheme has one element per slot, in ECMA-376 order,
/// each with the slot's color (without `#`).
pub proof fn lemma_color_scheme_entries(colors: Seq<ColorSlotV>, n: nat)
    ensures
        color_scheme_events(colors, n).len() == 3 * n,
        forall|k: int| 0 <= k < n ==> {
            &&& #[trigger] color_scheme_events(colors, n)[3 * k] == start_ev(theme_color_element(k))
            &&& color_scheme_events(colors, n)[3 * k + 1] == OutV::Empty(
                "a:srgbClr"@,
                seq![attr_v("val"@, theme_hex_val(colors[k].value))],
            )
            &&& color_scheme_events(colors, n)[3 * k + 2] == end_ev(theme_color_element(k))
        },
    decreases n,
{
    if n > 0 {
        lemma_color_scheme_entries(colors, (n - 1) as nat);
        let prev = color_scheme_events(colors, (n - 1) as nat);
        let cur = color_scheme_events(colors, n);
        assert forall|k: int| 0 <= k < n implies {
            &&& #[trigger] cur[3 * k] == start_ev(theme_color_element(k))
            &&& cur[3 * k + 1] == OutV::Empty("a:srgbClr"@, seq![attr_v("val"@, theme_hex_val(colors[k].value))])
            &&& cur[3 * k + 2] == end_ev(theme_color_element(k))
        } by {
            if k < n - 1 {
                assert(cur[3 * k] == prev[3 * k]);
                assert(cur[3 * k + 1] == prev[3 * k + 1]);
                assert(cur[3 * k + 2] == prev[3 * k + 2]);
            }
        }
    }
}

/// Whether `e` opens an element `name` without attributes.
pub open spec fn is_start_of(e: OutV, name: Seq<char>) -> bool {
    e matches OutV::Start(n, a) && n == name && a.len() == 0
}

/// Whether `evs` opens an element `name` (without attributes).
pub open spec fn opens(evs: Seq<OutV>, name: Seq<char>) -> bool {
    exists|i: int| 0 <= i < evs.len() && is_start_of(#[trigger] evs[i], name)
}

proof fn lemma_lacks_concat(a: Seq<OutV>, b: Seq<OutV>, name: Seq<char>)
    requires
        !opens(a, name),
        !opens(b, name),
    ensures
        !opens(a + b, name),
{
    assert forall|i: int| 0 <= i < (a + b).len() implies !is_start_of(#[trigger] (a + b)[i], name) by {
        if i < a.len() {
            assert((a + b)[i] == a[i]);
        } else {
            assert((a + b)[i] == b[i - a.len()]);
        }
    }
}

proof fn lemma_clr_map_ovr_names()
    ensures
        "p:clrMapOvr"@ != "p:spTree"@,
        "p:clrMapOvr"@ != "p:nvGrpSpPr"@,
        "p:clrMapOvr"@ != "p:grpSpPr"@,
        "p:clrMapOvr"@ != "a:xfrm"@,
        "p:clrMapOvr"@ != "p:sp"@,
        "p:clrMapOvr"@ != "p:nvSpPr"@,
        "p:clrMapOvr"@ != "p:cNvSpPr"@,
        "p:clrMapOvr"@ != "p:nvPr"@,
        "p:clrMapOvr"@ != "p:spPr"@,
        "p:clrMapOvr"@ != "p:txBody"@,
        "p:clrMapOvr"@ != "a:lstStyle"@,
        "p:clrMapOvr"@ != "a:defRPr"@,
        "p:clrMapOvr"@ != "a:solidFill"@,
        "p:clrMapOvr"@ != "a:p"@,
        "p:clrMapOvr"@ != "a:r"@,
        "p:clrMapOvr"@ != "a:t"@,
        forall|l: int| "p:clrMapOvr"@ != #[trigger] lvl_tag(l),
{
    reveal_strlit("p:clrMapOvr");
    reveal_strlit("p:spTree");
    reveal_strlit("p:nvGrpSpPr");
    reveal_strlit("p:grpSpPr");
    reveal_strlit("a:xfrm");
    reveal_strlit("p:sp");
    reveal_strlit("p:nvSpPr");
    reveal_strlit("p:nvPr");
    reveal_strlit("p:spPr");
    reveal_strlit("p:txBody");
    reveal_strlit("a:lstStyle");
    reveal_strlit("a:defRPr");
    reveal_strlit("a:solidFill");
    reveal_strlit("a:p");
    reveal_strlit("a:r");
    reveal_strlit("a:t");
    reveal_strlit("a:lvl1pPr");
    reveal_strlit("a:lvl2pPr");
    reveal_strlit("a:lvl3pPr");
    reveal_strlit("a:lvl4pPr");
    reveal_strlit("a:lvl5pPr");
    reveal_strlit("p:cNvSpPr");
    assert("p:clrMapOvr"@[2] != "p:spTree"@[2]);
    assert("p:clrMapOvr"@[2] != "p:nvGrpSpPr"@[2]);
    assert("p:clrMapOvr"@[2] != "p:grpSpPr"@[2]);
    assert("p:clrMapOvr"@[2] != "a:xfrm"@[2]);
    assert("p:clrMapOvr"@[2] != "p:sp"@[2]);
    assert("p:clrMapOvr"@[2] != "p:nvSpPr"@[2]);
    assert("p:clrMapOvr"@[2] != "p:nvPr"@[2]);
    assert("p:clrMapOvr"@[2] != "p:spPr"@[2]);
    assert("p:clrMapOvr"@[2] != "p:txBody"@[2]);
    assert("p:clrMapOvr"@[2] != "a:lstStyle"@[2]);
    assert("p:clrMapOvr"@[2] != "a:defRPr"@[2]);
    assert("p:clrMapOvr"@[2] != "a:solidFill"@[2]);
    assert("p:clrMapOvr"@[2] != "a:p"@[2]);
    assert("p:clrMapOvr"@[2] != "a:r"@[2]);
    assert("p:clrMapOvr"@[2] != "a:t"@[2]);
    assert("p:clrMapOvr"@[2] != "a:lvl1pPr"@[2]);
    assert("p:clrMapOvr"@[2] != "a:lvl2pPr"@[2]);
    assert("p:clrMapOvr"@[2] != "a:lvl3pPr"@[2]);
    assert("p:clrMapOvr"@[2] != "a:lvl4pPr"@[2]);
    assert("p:clrMapOvr"@[2] != "a:lvl5pPr"@[2]);
    assert("p:clrMapOvr"@[3] != "p:cNvSpPr"@[3]);
}

proof fn lemma_white_levels_lack(k: nat)
    ensures
        !opens(white_levels(k), "p:clrMapOvr"@),
    decreases k,
{
    lemma_clr_map_ovr_names();
    if k > 0 {
        lemma_white_levels_lack((k - 1) as nat);
        let l = white_level(k as int);
        assert(!opens(l, "p:clrMapOvr"@)) by {
            assert forall|i: int| 0 <= i < l.len() implies !is_start_of(#[trigger] l[i], "p:clrMapOvr"@) by {
                assert("p:clrMapOvr"@ != lvl_tag(k as int));
            }
        }
        lemma_lacks_concat(white_levels((k - 1) as nat), l, "p:clrMapOvr"@);
    }
}

proof fn lemma_placeholders_lack(phs: Seq<PlaceholderView>, dark: bool)
    ensures
        !opens(placeholders_events(phs, dark), "p:clrMapOvr"@),
    decreases phs.len(),
{
    lemma_clr_map_ovr_names();
    if phs.len() > 0 {
        lemma_placeholders_lack(phs.drop_last(), dark);
        let ph = phs.last();
        let head = placeholder_head(ph, (phs.len() + 1) as nat);
        let sppr = placeholder_sppr(ph);
        let tail = seq![end_ev("p:sp"@)];
        assert(!opens(head, "p:clrMapOvr"@));
        assert(!opens(sppr, "p:clrMapOvr"@));
        assert(!opens(tail, "p:clrMapOvr"@));
        let body: Seq<OutV> = if dark {
            dark_txbody_events()
        } else {
            Seq::empty()
        };
        if dark {
            lemma_white_levels_lack(5);
            let a = seq![start_ev("p:txBody"@), empty_ev("a:bodyPr"@), start_ev("a:lstStyle"@)];
            let b = seq![
                end_ev("a:lstStyle"@),
                start_ev("a:p"@),
                start_ev("a:r"@),
                OutV::Start("a:rPr"@, seq![attr_v("lang"@, "en-US"@), attr_v("dirty"@, "0"@)]),
            ];
            let c = seq![
                end_ev("a:rPr"@),
                start_ev("a:t"@),
                OutV::Text(""@),
                end_ev("a:t"@),
                end_ev("a:r"@),
                end_ev("a:p"@),
                end_ev("p:txBody"@),
            ];
            assert(!opens(a, "p:clrMapOvr"@));
            assert(!opens(b, "p:clrMapOvr"@));
            assert(!opens(c, "p:clrMapOvr"@));
            assert(!opens(white_fill(), "p:clrMapOvr"@));
            lemma_lacks_concat(b, white_fill(), "p:clrMapOvr"@);
            lemma_lacks_concat(b + white_fill(), c, "p:clrMapOvr"@);
            lemma_lacks_concat(a, white_levels(5), "p:clrMapOvr"@);
            lemma_lacks_concat(a + white_levels(5), white_run_events(), "p:clrMapOvr"@);
        } else {
            assert(!opens(body, "p:clrMapOvr"@));
        }
        lemma_lacks_concat(head, sppr, "p:clrMapOvr"@);
        lemma_lacks_concat(head + sppr, body, "p:clrMapOvr"@);
        lemma_lacks_concat(head + sppr + body, tail, "p:clrMapOvr"@);
        lemma_lacks_concat(placeholders_events(phs.drop_last(), dark), head + sppr + body + tail, "p:clrMapOvr"@);
        assert(placeholder_events(ph, (phs.len() + 1) as nat, dark) == head + sppr + body + tail);
    }
}

/// A layout's XML carries a color-map override exactly when the layout is dark.
pub proof fn lemma_layout_clr_map_ovr(def: LayoutView)
    ensures
        opens(layout_events(def), "p:clrMapOvr"@) == def.has_color_override,
{
    lemma_clr_map_ovr_names();
    let a = seq![
        decl_ev(),
        OutV::Start(
            "p:sldLayout"@,
            seq![
                attr_v("xmlns:p"@, NS_P@),
                attr_v("xmlns:a"@, NS_A@),
                attr_v("type"@, layout_type(def.ooxml_type)),
                attr_v("preserve"@, "1"@),
            ],
        ),
        OutV::Start("p:cSld"@, seq![attr_v("name"@, def.name)]),
        start_ev("p:spTree"@),
    ];
    let phs = placeholders_events(def.placeholders, def.has_color_override);
    let b = seq![end_ev("p:spTree"@), end_ev("p:cSld"@)];
    let ovr: Seq<OutV> = if def.has_color_override {
        clr_map_ovr_events()
    } else {
        Seq::empty()
    };
    let c = seq![empty_ev("p:hf"@), end_ev("p:sldLayout"@)];
    let pre = a + nvgrpsppr_events() + grpsppr_events() + phs + b;
    assert(layout_events(def) == pre + ovr + c);
    if def.has_color_override {
        let i = pre.len() as int;
        assert((pre + ovr + c)[i] == start_ev("p:clrMapOvr"@));
        assert(is_start_of((pre + ovr + c)[i], "p:clrMapOvr"@));
    } else {
        assert(!opens(a, "p:clrMapOvr"@));
        assert(!opens(nvgrpsppr_events(), "p:clrMapOvr"@));
        assert(!opens(grpsppr_events(), "p:clrMapOvr"@));
        lemma_placeholders_lack(def.placeholders, def.has_color_override);
        assert(!opens(b, "p:clrMapOvr"@));
        assert(!opens(ovr, "p:clrMapOvr"@));
        assert(!opens(c, "p:clrMapOvr"@));
        lemma_lacks_concat(a, nvgrpsppr_events(), "p:clrMapOvr"@);
        lemma_lacks_concat(a + nvgrpsppr_events(), grpsppr_events(), "p:clrMapOvr"@);
        lemma_lacks_concat(a + nvgrpsppr_events() + grpsppr_events(), phs, "p:clrMapOvr"@);
        lemma_lacks_concat(a + nvgrpsppr_events() + grpsppr_events() + phs, b, "p:clrMapOvr"@);
        lemma_lacks_concat(pre, ovr, "p:clrMapOvr"@);
        lemma_lacks_concat(pre + ovr, c, "p:clrMapOvr"@);
    }
}

} // verus!
