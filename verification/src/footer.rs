//! Footer detection from the slide master and layout XML of a `.pptx`.
//!
//! `slideMaster1.xml` is read in a single pass that collects both the footer
//! placeholder text (all `<a:t>` runs inside the first `<p:ph type="ftr"/>`
//! shape, concatenated in document order and trimmed) and the footer
//! visibility flags (the `ftr`, `dt` and `sldNum` attributes of `<p:hf>`).
//! When the master's footer placeholder has no text, `slideLayout1.xml` is
//! tried for the text; the flags always come from the master.
use vstd::prelude::*;

use crate::archive::{zip_entry, zip_entry_of, ZipEntry, ZipEntryV};
use crate::text::{str_eq, trim, trim_str};
use crate::xml::{xml_events, xml_events_of, AttrV, EventV, TagV, XmlAttr, XmlEvent, XmlTag};

verus! {

/// Path of the first slide master inside a `.pptx`.
pub const SLIDE_MASTER1_PATH: &'static str = "ppt/slideMasters/slideMaster1.xml";
/// Path of the first slide layout inside a `.pptx`.
pub const SLIDE_LAYOUT1_PATH: &'static str = "ppt/slideLayouts/slideLayout1.xml";

/// Footer-visibility flags from the `<p:hf>` element of `slideMaster1.xml`.
///
/// Each flag is one `xsd:boolean` attribute (`"1"`/`"true"` is true); an
/// absent attribute, or an absent `<p:hf>`, leaves the flag `false`.
#[derive(Debug, Clone, Copy, PartialEq, Eq, Structural, Hash, Default)]
pub struct FooterFlags {
    /// Footer text visible (`ftr`).
    pub show_footer: bool,
    /// Date/time visible (`dt`).
    pub show_date: bool,
    /// Slide number visible (`sldNum`).
    pub show_slide_number: bool,
}

/// All flags off.
pub open spec fn no_flags() -> FooterFlags {
    FooterFlags { show_footer: false, show_date: false, show_slide_number: false }
}

/// The combined result of footer detection.
#[derive(Debug, Clone, PartialEq, Eq, Default)]
pub struct FooterDetection {
    /// The trimmed footer text, or `None` when no text was found.
    pub text: Option<String>,
    /// The visibility flags of the master's `<p:hf>`.
    pub flags: FooterFlags,
}

/// Outcome of looking for footer text in one XML part.
#[derive(Debug, Clone, PartialEq, Eq)]
pub enum FooterText {
    /// The part is not in the package.
    Absent,
    /// No `<p:ph type="ftr"/>` placeholder was found.
    NoPlaceholder,
    /// A footer placeholder was found but its text is empty or whitespace.
    EmptyText,
    /// A footer placeholder with this (trimmed, non-empty) text was found.
    FoundText(String),
}

/// The mathematical value of a [`FooterText`].
pub enum FooterTextV {
    Absent,
    NoPlaceholder,
    EmptyText,
    FoundText(Seq<char>),
}

impl DeepView for FooterText {
    type V = FooterTextV;

    open spec fn deep_view(&self) -> FooterTextV {
        match self {
            FooterText::Absent => FooterTextV::Absent,
            FooterText::NoPlaceholder => FooterTextV::NoPlaceholder,
            FooterText::EmptyText => FooterTextV::EmptyText,
            FooterText::FoundText(t) => FooterTextV::FoundText(t@),
        }
    }
}

// ─── Attribute helpers ───────────────────────────────────────────────────────

/// `xsd:boolean` truth: `"1"` or `"true"`.
pub open spec fn ooxml_bool(v: Option<Seq<char>>) -> bool {
    v == Some("1"@) || v == Some("true"@)
}

/// Parse an OOXML `xsd:boolean` attribute value: `"1"` and `"true"` are true,
/// anything else (including `"0"` and `"false"`) is false.
pub fn parse_ooxml_bool(value: &str) -> (r: bool)
    ensures
        r == (value@ == "1"@ || value@ == "true"@),
{
    str_eq(value, "1") || str_eq(value, "true")
}

fn opt_ooxml_bool(value: &Option<String>) -> (r: bool)
    ensures
        r == ooxml_bool(value.deep_view()),
{
    match value {
        Some(v) => parse_ooxml_bool(v.as_str()),
        None => false,
    }
}

/// Whether the element has an attribute `key` whose value is `val`.
pub open spec fn has_attr(attrs: Seq<AttrV>, key: Seq<char>, val: Seq<char>) -> bool {
    exists|i: int| 0 <= i < attrs.len() && #[trigger] attrs[i].key == key && attrs[i].value == Some(val)
}

/// Whether `tag` has an attribute `key` with value `val`.
pub fn attr_equals(tag: &XmlTag, key: &str, val: &str) -> (r: bool)
    ensures
        r == has_attr(tag.deep_view().attrs, key@, val@),
{
    let n = tag.attrs.len();
    let mut i: usize = 0;
    while i < n
        invariant
            n == tag.attrs.len(),
            i <= n,
            forall|k: int| 0 <= k < i ==> !(#[trigger] tag.attrs.deep_view()[k].key == key@
                && tag.attrs.deep_view()[k].value == Some(val@)),
        decreases n - i,
    {
        let a = &tag.attrs[i];
        if str_eq(a.key.as_str(), key) {
            match &a.value {
                Some(v) => {
                    if str_eq(v.as_str(), val) {
                        assert(tag.attrs.deep_view()[i as int].key == key@);
                        return true;
                    }
                },
                None => {},
            }
        }
        i = i + 1;
    }
    false
}

/// The flags set by the attributes of a `<p:hf>` element (a later attribute
/// of the same name overrides an earlier one).
pub open spec fn hf_flags_of(attrs: Seq<AttrV>) -> FooterFlags
    decreases attrs.len(),
{
    if attrs.len() == 0 {
        no_flags()
    } else {
        let f = hf_flags_of(attrs.drop_last());
        let a = attrs.last();
        if a.key == "ftr"@ {
            FooterFlags { show_footer: ooxml_bool(a.value), ..f }
        } else if a.key == "dt"@ {
            FooterFlags { show_date: ooxml_bool(a.value), ..f }
        } else if a.key == "sldNum"@ {
            FooterFlags { show_slide_number: ooxml_bool(a.value), ..f }
        } else {
            f
        }
    }
}

/// Extract the `ftr`, `dt` and `sldNum` flags from a `<p:hf>` element.
pub fn extract_hf_flags(tag: &XmlTag) -> (flags: FooterFlags)
    ensures
        flags == hf_flags_of(tag.deep_view().attrs),
{
    let ghost attrs = tag.attrs.deep_view();
    let mut flags = FooterFlags { show_footer: false, show_date: false, show_slide_number: false };
    let n = tag.attrs.len();
    let mut i: usize = 0;
    while i < n
        invariant
            n == tag.attrs.len(),
            attrs == tag.attrs.deep_view(),
            i <= n,
            flags == hf_flags_of(attrs.take(i as int)),
        decreases n - i,
    {
        let a = &tag.attrs[i];
        assert(attrs.take(i + 1).drop_last() =~= attrs.take(i as int));
        if str_eq(a.key.as_str(), "ftr") {
            flags.show_footer = opt_ooxml_bool(&a.value);
        } else if str_eq(a.key.as_str(), "dt") {
            flags.show_date = opt_ooxml_bool(&a.value);
        } else if str_eq(a.key.as_str(), "sldNum") {
            flags.show_slide_number = opt_ooxml_bool(&a.value);
        }
        i = i + 1;
    }
    assert(attrs.take(n as int) =~= attrs);
    flags
}

/// The outcome for a footer placeholder whose concatenated text is `accum`.
pub open spec fn finalize_text(accum: Seq<char>) -> FooterTextV {
    if trim(accum).len() == 0 {
        FooterTextV::EmptyText
    } else {
        FooterTextV::FoundText(trim(accum))
    }
}

fn finalize(accum: &String) -> (r: FooterText)
    ensures
        r.deep_view() == finalize_text(accum@),
{
    let t = trim_str(accum.as_str());
    if t.unicode_len() == 0 {
        FooterText::EmptyText
    } else {
        FooterText::FoundText(t)
    }
}

// ─── The single pass over slideMaster1.xml ───────────────────────────────────

/// State of the single pass over `slideMaster1.xml`.
pub struct MasterState {
    pub flags: FooterFlags,
    pub hf_found: bool,
    pub in_sp: bool,
    pub is_footer_ph: bool,
    pub footer_ph_done: bool,
    pub in_run: bool,
    pub in_text: bool,
    pub run_buf: Seq<char>,
    pub sp_text: Seq<char>,
    pub found_any_footer_ph: bool,
    pub text_result: FooterTextV,
}

/// The state before the first event.
pub open spec fn master_init() -> MasterState {
    MasterState {
        flags: no_flags(),
        hf_found: false,
        in_sp: false,
        is_footer_ph: false,
        footer_ph_done: false,
        in_run: false,
        in_text: false,
        run_buf: Seq::empty(),
        sp_text: Seq::empty(),
        found_any_footer_ph: false,
        text_result: FooterTextV::NoPlaceholder,
    }
}

/// The effect of a start (`empty == false`) or empty element on the master pass.
pub open spec fn master_open(st: MasterState, t: TagV, empty: bool) -> MasterState {
    if t.name == "hf"@ {
        MasterState { hf_found: true, flags: hf_flags_of(t.attrs), ..st }
    } else if !empty && t.name == "sp"@ && !st.footer_ph_done {
        MasterState {
            in_sp: true,
            is_footer_ph: false,
            in_run: false,
            in_text: false,
            run_buf: Seq::empty(),
            sp_text: Seq::empty(),
            ..st
        }
    } else if t.name == "ph"@ && st.in_sp && !st.footer_ph_done && has_attr(t.attrs, "type"@, "ftr"@) {
        MasterState { is_footer_ph: true, found_any_footer_ph: true, ..st }
    } else if !empty && t.name == "r"@ && st.is_footer_ph {
        MasterState { in_run: true, run_buf: Seq::empty(), ..st }
    } else if !empty && t.name == "t"@ && st.is_footer_ph && st.in_run {
        MasterState { in_text: true, ..st }
    } else {
        st
    }
}

/// The effect of one event on the master pass.
pub open spec fn master_step(st: MasterState, ev: EventV) -> MasterState {
    match ev {
        EventV::Start(t) => master_open(st, t, false),
        EventV::Empty(t) => master_open(st, t, true),
        EventV::End(n) => {
            if n == "sp"@ {
                if st.is_footer_ph {
                    MasterState {
                        text_result: finalize_text(st.sp_text),
                        footer_ph_done: true,
                        is_footer_ph: false,
                        in_sp: false,
                        ..st
                    }
                } else {
                    MasterState { in_sp: false, ..st }
                }
            } else if n == "r"@ && st.is_footer_ph {
                MasterState {
                    sp_text: st.sp_text + st.run_buf,
                    run_buf: Seq::empty(),
                    in_run: false,
                    in_text: false,
                    ..st
                }
            } else if n == "t"@ && st.is_footer_ph && st.in_run {
                MasterState { in_text: false, ..st }
            } else {
                st
            }
        },
        EventV::Text(o) => {
            if st.in_text && st.is_footer_ph && st.in_run {
                match o {
                    Some(s) => MasterState { run_buf: st.run_buf + s, ..st },
                    None => st,
                }
            } else {
                st
            }
        },
        EventV::Other => st,
    }
}

/// The master pass after the first `n` events.
pub open spec fn master_run(evs: Seq<EventV>, n: nat) -> MasterState
    decreases n,
{
    if n == 0 {
        master_init()
    } else {
        master_step(master_run(evs, (n - 1) as nat), evs[n - 1])
    }
}

/// The text outcome once all events are read: a footer placeholder whose
/// shape never closed counts as having no text.
pub open spec fn master_text(st: MasterState) -> FooterTextV {
    if st.found_any_footer_ph && st.text_result is NoPlaceholder {
        FooterTextV::EmptyText
    } else {
        st.text_result
    }
}

/// The result of the single pass over `slideMaster1.xml`.
#[derive(Debug, Clone, PartialEq, Eq)]
pub struct MasterParseResult {
    /// Footer text outcome.
    pub text_result: FooterText,
    /// Flags from `<p:hf>` (all false if it is absent).
    pub flags: FooterFlags,
    /// Whether a `<p:hf>` element was seen.
    pub hf_found: bool,
}

struct MasterPass {
    flags: FooterFlags,
    hf_found: bool,
    in_sp: bool,
    is_footer_ph: bool,
    footer_ph_done: bool,
    in_run: bool,
    in_text: bool,
    run_buf: String,
    sp_text: String,
    found_any_footer_ph: bool,
    text_result: FooterText,
}

impl View for MasterPass {
    type V = MasterState;

    closed spec fn view(&self) -> MasterState {
        MasterState {
            flags: self.flags,
            hf_found: self.hf_found,
            in_sp: self.in_sp,
            is_footer_ph: self.is_footer_ph,
            footer_ph_done: self.footer_ph_done,
            in_run: self.in_run,
            in_text: self.in_text,
            run_buf: self.run_buf@,
            sp_text: self.sp_text@,
            found_any_footer_ph: self.found_any_footer_ph,
            text_result: self.text_result.deep_view(),
        }
    }
}

impl MasterPass {
    fn open(&mut self, t: &XmlTag, empty: bool)
        ensures
            final(self)@ == master_open(old(self)@, t.deep_view(), empty),
    {
        let name = t.name.as_str();
        if str_eq(name, "hf") {
            self.hf_found = true;
            self.flags = extract_hf_flags(t);
        } else if !empty && str_eq(name, "sp") && !self.footer_ph_done {
            self.in_sp = true;
            self.is_footer_ph = false;
            self.in_run = false;
            self.in_text = false;
            self.run_buf = String::new();
            self.sp_text = String::new();
        } else if str_eq(name, "ph") && self.in_sp && !self.footer_ph_done && attr_equals(t, "type", "ftr") {
            self.is_footer_ph = true;
            self.found_any_footer_ph = true;
        } else if !empty && str_eq(name, "r") && self.is_footer_ph {
            self.in_run = true;
            self.run_buf = String::new();
        } else if !empty && str_eq(name, "t") && self.is_footer_ph && self.in_run {
            self.in_text = true;
        }
    }

    fn step(&mut self, ev: &XmlEvent)
        ensures
            final(self)@ == master_step(old(self)@, ev.deep_view()),
    {
        match ev {
            XmlEvent::Start(t) => self.open(t, false),
            XmlEvent::Empty(t) => self.open(t, true),
            XmlEvent::End(n) => {
                if str_eq(n.as_str(), "sp") {
                    if self.is_footer_ph {
                        self.text_result = finalize(&self.sp_text);
                        self.footer_ph_done = true;
                        self.is_footer_ph = false;
                    }
                    self.in_sp = false;
                } else if str_eq(n.as_str(), "r") && self.is_footer_ph {
                    self.sp_text.append(self.run_buf.as_str());
                    self.run_buf = String::new();
                    self.in_run = false;
                    self.in_text = false;
                } else if str_eq(n.as_str(), "t") && self.is_footer_ph && self.in_run {
                    self.in_text = false;
                }
            },
            XmlEvent::Text(o) => {
                if self.in_text && self.is_footer_ph && self.in_run {
                    match o {
                        Some(s) => self.run_buf.append(s.as_str()),
                        None => {},
                    }
                }
            },
            XmlEvent::Other => {},
        }
    }
}

/// Run the single pass over the events of `slideMaster1.xml`.
pub fn parse_master_events(evs: &Vec<XmlEvent>) -> (r: MasterParseResult)
    ensures
        r.text_result.deep_view() == master_text(master_run(evs.deep_view(), evs.len() as nat)),
        r.flags == master_run(evs.deep_view(), evs.len() as nat).flags,
        r.hf_found == master_run(evs.deep_view(), evs.len() as nat).hf_found,
{
    let mut st = MasterPass {
        flags: FooterFlags { show_footer: false, show_date: false, show_slide_number: false },
        hf_found: false,
        in_sp: false,
        is_footer_ph: false,
        footer_ph_done: false,
        in_run: false,
        in_text: false,
        run_buf: String::new(),
        sp_text: String::new(),
        found_any_footer_ph: false,
        text_result: FooterText::NoPlaceholder,
    };
    let n = evs.len();
    let mut i: usize = 0;
    while i < n
        invariant
            n == evs.len(),
            i <= n,
            st@ == master_run(evs.deep_view(), i as nat),
        decreases n - i,
    {
        st.step(&evs[i]);
        i = i + 1;
    }
    let text_result = if st.found_any_footer_ph && matches!(st.text_result, FooterText::NoPlaceholder) {
        FooterText::EmptyText
    } else {
        st.text_result
    };
    MasterParseResult { text_result, flags: st.flags, hf_found: st.hf_found }
}

/// Parse `slideMaster1.xml` bytes for footer text and `<p:hf>` flags
/// (character data is not trimmed by the reader; the final text is).
pub fn parse_master_xml(xml_bytes: &[u8]) -> (r: MasterParseResult)
    ensures
        r.text_result.deep_view() == master_text(
            master_run(xml_events_of(xml_bytes@, false), xml_events_of(xml_bytes@, false).len()),
        ),
        r.flags == master_run(
            xml_events_of(xml_bytes@, false),
            xml_events_of(xml_bytes@, false).len(),
        ).flags,
        r.hf_found == master_run(
            xml_events_of(xml_bytes@, false),
            xml_events_of(xml_bytes@, false).len(),
        ).hf_found,
{
    let evs = xml_events(xml_bytes, false);
    parse_master_events(&evs)
}

// ─── The text-only pass over a slide layout ──────────────────────────────────

/// State of the text-only pass over a layout part.
pub struct LayoutTextState {
    pub in_sp: bool,
    pub is_footer_ph: bool,
    pub in_run: bool,
    pub in_text: bool,
    pub run_buf: Seq<char>,
    pub sp_text: Seq<char>,
    pub found_any_footer_ph: bool,
    /// The outcome once the first footer placeholder shape has closed.
    pub done: Option<FooterTextV>,
}

/// The state before the first event.
pub open spec fn layout_text_init() -> LayoutTextState {
    LayoutTextState {
        in_sp: false,
        is_footer_ph: false,
        in_run: false,
        in_text: false,
        run_buf: Seq::empty(),
        sp_text: Seq::empty(),
        found_any_footer_ph: false,
        done: None,
    }
}

/// The effect of a start (`empty == false`) or empty element on the layout pass.
pub open spec fn layout_text_open(st: LayoutTextState, t: TagV, empty: bool) -> LayoutTextState {
    if !empty && t.name == "sp"@ {
        LayoutTextState {
            in_sp: true,
            is_footer_ph: false,
            in_run: false,
            in_text: false,
            run_buf: Seq::empty(),
            sp_text: Seq::empty(),
            ..st
        }
    } else if t.name == "ph"@ && st.in_sp && has_attr(t.attrs, "type"@, "ftr"@) {
        LayoutTextState { is_footer_ph: true, found_any_footer_ph: true, ..st }
    } else if !empty && t.name == "r"@ && st.is_footer_ph {
        LayoutTextState { in_run: true, run_buf: Seq::empty(), ..st }
    } else if !empty && t.name == "t"@ && st.is_footer_ph && st.in_run {
        LayoutTextState { in_text: true, ..st }
    } else {
        st
    }
}

/// The effect of one event on the layout pass; nothing changes once the first
/// footer placeholder shape has closed.
pub open spec fn layout_text_step(st: LayoutTextState, ev: EventV) -> LayoutTextState {
    if st.done is Some {
        st
    } else {
        match ev {
            EventV::Start(t) => layout_text_open(st, t, false),
            EventV::Empty(t) => layout_text_open(st, t, true),
            EventV::End(n) => {
                if n == "sp"@ {
                    if st.is_footer_ph {
                        LayoutTextState { done: Some(finalize_text(st.sp_text)), ..st }
                    } else {
                        LayoutTextState { in_sp: false, ..st }
                    }
                } else if n == "r"@ && st.is_footer_ph {
                    LayoutTextState {
                        sp_text: st.sp_text + st.run_buf,
                        run_buf: Seq::empty(),
                        in_run: false,
                        in_text: false,
                        ..st
                    }
                } else if n == "t"@ && st.is_footer_ph && st.in_run {
                    LayoutTextState { in_text: false, ..st }
                } else {
                    st
                }
            },
            EventV::Text(o) => {
                if st.in_text && st.is_footer_ph && st.in_run {
                    match o {
                        Some(s) => LayoutTextState { run_buf: st.run_buf + s, ..st },
                        None => st,
                    }
                } else {
                    st
                }
            },
            EventV::Other => st,
        }
    }
}

/// The layout pass after the first `n` events.
pub open spec fn layout_text_run(evs: Seq<EventV>, n: nat) -> LayoutTextState
    decreases n,
{
    if n == 0 {
        layout_text_init()
    } else {
        layout_text_step(layout_text_run(evs, (n - 1) as nat), evs[n - 1])
    }
}

/// The outcome of the layout pass over all of `evs`.
pub open spec fn layout_text_of(evs: Seq<EventV>) -> FooterTextV {
    let st = layout_text_run(evs, evs.len());
    match st.done {
        Some(r) => r,
        None => if st.found_any_footer_ph {
            FooterTextV::EmptyText
        } else {
            FooterTextV::NoPlaceholder
        },
    }
}

struct LayoutTextPass {
    in_sp: bool,
    is_footer_ph: bool,
    in_run: bool,
    in_text: bool,
    run_buf: String,
    sp_text: String,
    found_any_footer_ph: bool,
    done: Option<FooterText>,
}

impl View for LayoutTextPass {
    type V = LayoutTextState;

    closed spec fn view(&self) -> LayoutTextState {
        LayoutTextState {
            in_sp: self.in_sp,
            is_footer_ph: self.is_footer_ph,
            in_run: self.in_run,
            in_text: self.in_text,
            run_buf: self.run_buf@,
            sp_text: self.sp_text@,
            found_any_footer_ph: self.found_any_footer_ph,
            done: self.done.deep_view(),
        }
    }
}

impl LayoutTextPass {
    fn open(&mut self, t: &XmlTag, empty: bool)
        ensures
            final(self)@ == layout_text_open(old(self)@, t.deep_view(), empty),
    {
        let name = t.name.as_str();
        if !empty && str_eq(name, "sp") {
            self.in_sp = true;
            self.is_footer_ph = false;
            self.in_run = false;
            self.in_text = false;
            self.run_buf = String::new();
            self.sp_text = String::new();
        } else if str_eq(name, "ph") && self.in_sp && attr_equals(t, "type", "ftr") {
            self.is_footer_ph = true;
            self.found_any_footer_ph = true;
        } else if !empty && str_eq(name, "r") && self.is_footer_ph {
            self.in_run = true;
            self.run_buf = String::new();
        } else if !empty && str_eq(name, "t") && self.is_footer_ph && self.in_run {
            self.in_text = true;
        }
    }

    fn step(&mut self, ev: &XmlEvent)
        requires
            old(self)@.done is None,
        ensures
            final(self)@ == layout_text_step(old(self)@, ev.deep_view()),
    {
        match ev {
            XmlEvent::Start(t) => self.open(t, false),
            XmlEvent::Empty(t) => self.open(t, true),
            XmlEvent::End(n) => {
                if str_eq(n.as_str(), "sp") {
                    if self.is_footer_ph {
                        self.done = Some(finalize(&self.sp_text));
                    } else {
                        self.in_sp = false;
                    }
                } else if str_eq(n.as_str(), "r") && self.is_footer_ph {
                    self.sp_text.append(self.run_buf.as_str());
                    self.run_buf = String::new();
                    self.in_run = false;
                    self.in_text = false;
                } else if str_eq(n.as_str(), "t") && self.is_footer_ph && self.in_run {
                    self.in_text = false;
                }
            },
            XmlEvent::Text(o) => {
                if self.in_text && self.is_footer_ph && self.in_run {
                    match o {
                        Some(s) => self.run_buf.append(s.as_str()),
                        None => {},
                    }
                }
            },
            XmlEvent::Other => {},
        }
    }
}

proof fn lemma_layout_text_done_stays(evs: Seq<EventV>, i: nat, n: nat)
    requires
        i <= n,
        layout_text_run(evs, i).done is Some,
    ensures
        layout_text_run(evs, n) == layout_text_run(evs, i),
    decreases n - i,
{
    if i < n {
        lemma_layout_text_done_stays(evs, i, (n - 1) as nat);
    }
}

/// Find the footer placeholder text in the events of a layout part: all runs
/// of the first `<p:ph type="ftr"/>` shape, concatenated and trimmed.
pub fn parse_footer_text_events(evs: &Vec<XmlEvent>) -> (r: FooterText)
    ensures
        r.deep_view() == layout_text_of(evs.deep_view()),
{
    let mut st = LayoutTextPass {
        in_sp: false,
        is_footer_ph: false,
        in_run: false,
        in_text: false,
        run_buf: String::new(),
        sp_text: String::new(),
        found_any_footer_ph: false,
        done: None,
    };
    let n = evs.len();
    let mut i: usize = 0;
    while i < n && st.done.is_none()
        invariant
            n == evs.len(),
            i <= n,
            st@ == layout_text_run(evs.deep_view(), i as nat),
        decreases n - i,
    {
        st.step(&evs[i]);
        i = i + 1;
    }
    proof {
        if st@.done is Some {
            lemma_layout_text_done_stays(evs.deep_view(), i as nat, n as nat);
        }
    }
    match st.done {
        Some(r) => r,
        None => if st.found_any_footer_ph {
            FooterText::EmptyText
        } else {
            FooterText::NoPlaceholder
        },
    }
}

/// Parse layout XML bytes for footer placeholder text (text only, no flags).
pub fn parse_footer_text_from_xml(xml_bytes: &[u8]) -> (r: FooterText)
    ensures
        r.deep_view() == layout_text_of(xml_events_of(xml_bytes@, false)),
{
    let evs = xml_events(xml_bytes, false);
    parse_footer_text_events(&evs)
}

// ─── Detection over a package ────────────────────────────────────────────────

/// The footer text outcome of the package part `path`.
pub open spec fn footer_text_of_part(archive: Seq<u8>, path: Seq<char>) -> FooterTextV {
    match zip_entry_of(archive, path) {
        ZipEntryV::Bytes(b) => layout_text_of(xml_events_of(b, false)),
        _ => FooterTextV::Absent,
    }
}

/// The mathematical value of a [`FooterDetection`].
pub struct FooterDetectionV {
    pub text: Option<Seq<char>>,
    pub flags: FooterFlags,
}

impl DeepView for FooterDetection {
    type V = FooterDetectionV;

    open spec fn deep_view(&self) -> FooterDetectionV {
        FooterDetectionV { text: self.text.deep_view(), flags: self.flags }
    }
}

/// What footer detection finds in the package `archive`: nothing for a
/// `.docx` or when `slideMaster1.xml` cannot be read; otherwise the flags of
/// the master's `<p:hf>`, and the text of the master's first footer
/// placeholder, or — when that placeholder has no text — that of
/// `slideLayout1.xml`.
pub open spec fn detect_footer_of(archive: Seq<u8>, is_pptx: bool) -> FooterDetectionV {
    if !is_pptx {
        FooterDetectionV { text: None, flags: no_flags() }
    } else {
        match zip_entry_of(archive, SLIDE_MASTER1_PATH@) {
            ZipEntryV::Bytes(b) => {
                let evs = xml_events_of(b, false);
                let st = master_run(evs, evs.len());
                let text = match master_text(st) {
                    FooterTextV::FoundText(t) => Some(t),
                    FooterTextV::EmptyText => match footer_text_of_part(archive, SLIDE_LAYOUT1_PATH@) {
                        FooterTextV::FoundText(t) => Some(t),
                        _ => None,
                    },
                    _ => None,
                };
                FooterDetectionV { text, flags: st.flags }
            },
            _ => FooterDetectionV { text: None, flags: no_flags() },
        }
    }
}

/// Look for footer text in the package part `path`.
pub fn read_footer_text_from_zip(archive: &[u8], path: &str) -> (r: FooterText)
    ensures
        r.deep_view() == footer_text_of_part(archive@, path@),
{
    match zip_entry(archive, path) {
        ZipEntry::Bytes(b) => parse_footer_text_from_xml(b.as_slice()),
        _ => FooterText::Absent,
    }
}

/// Detect footer text and visibility flags in the package `archive`.
pub fn detect_footer(archive: &[u8], is_pptx: bool) -> (r: FooterDetection)
    ensures
        r.deep_view() == detect_footer_of(archive@, is_pptx),
{
    let none = FooterFlags { show_footer: false, show_date: false, show_slide_number: false };
    if !is_pptx {
        return FooterDetection { text: None, flags: none };
    }
    let master = match zip_entry(archive, SLIDE_MASTER1_PATH) {
        ZipEntry::Bytes(b) => b,
        _ => return FooterDetection { text: None, flags: none },
    };
    let parsed = parse_master_xml(master.as_slice());
    let text = match parsed.text_result {
        FooterText::FoundText(t) => Some(t),
        FooterText::EmptyText => match read_footer_text_from_zip(archive, SLIDE_LAYOUT1_PATH) {
            FooterText::FoundText(t) => Some(t),
            _ => None,
        },
        _ => None,
    };
    FooterDetection { text, flags: parsed.flags }
}

} // verus!
