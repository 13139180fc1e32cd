//! OOXML theme font extraction and the fallback font chain.
//!
//! [`parse_theme_fonts`] reads the heading (`<a:majorFont>`) and body
//! (`<a:minorFont>`) font names from `theme1.xml`; a missing one falls back to
//! `"Calibri"`.
use vstd::prelude::*;

use crate::error::BrandError;
use crate::template::BrandFonts;
use crate::color::{lowercase_of, to_lowercase};
use crate::logo::{last_dot_index, last_index_of};
use crate::text::{starts_with, str_eq, str_starts_with};
use crate::xml::{xml_events, xml_events_of, EventV, TagV, XmlEvent, XmlTag};
use crate::color::last_attr;

verus! {

/// The deterministic fallback font chain: the first installed font wins, and
/// `"Arial"` is the unconditional last resort.
pub const FALLBACK_CHAIN: [&'static str; 3] = ["Aptos", "Calibri", "Arial"];

/// The fallback font given which fonts of [`FALLBACK_CHAIN`] are installed.
pub open spec fn fallback_of(available: [bool; 3]) -> Seq<char> {
    if available[0] {
        "Aptos"@
    } else if available[1] {
        "Calibri"@
    } else {
        "Arial"@
    }
}

/// Resolve the first available font of [`FALLBACK_CHAIN`]; `available[i]`
/// says whether `FALLBACK_CHAIN[i]` is installed on the build host. When none
/// is, `"Arial"` is returned.
pub fn resolve_fallback(available: [bool; 3]) -> (r: String)
    ensures
        r@ == fallback_of(available),
{
    if available[0] {
        String::from_str("Aptos")
    } else if available[1] {
        String::from_str("Calibri")
    } else {
        String::from_str("Arial")
    }
}

/// State of the pass over the font scheme of `theme1.xml`.
pub struct FontState {
    pub heading: Option<Seq<char>>,
    pub body: Option<Seq<char>>,
    /// 1 inside `<a:majorFont>`, 2 inside `<a:minorFont>`, 0 elsewhere.
    pub context: int,
}

/// The effect of a `<a:latin>` element in the current font context.
pub open spec fn font_latin(st: FontState, t: TagV) -> FontState {
    match last_attr(t.attrs, "typeface"@) {
        Some(v) => if st.context == 1 {
            FontState { heading: Some(v), ..st }
        } else if st.context == 2 {
            FontState { body: Some(v), ..st }
        } else {
            st
        },
        None => st,
    }
}

/// The effect of one event on the font pass.
pub open spec fn font_step(st: FontState, ev: EventV) -> FontState {
    match ev {
        EventV::Start(t) => {
            if t.name == "majorFont"@ {
                FontState { context: 1, ..st }
            } else if t.name == "minorFont"@ {
                FontState { context: 2, ..st }
            } else if t.name == "latin"@ {
                font_latin(st, t)
            } else {
                st
            }
        },
        EventV::Empty(t) => if t.name == "latin"@ {
            font_latin(st, t)
        } else {
            st
        },
        EventV::End(n) => if n == "majorFont"@ || n == "minorFont"@ {
            FontState { context: 0, ..st }
        } else {
            st
        },
        _ => st,
    }
}

/// The font pass after the first `n` events.
pub open spec fn font_run(evs: Seq<EventV>, n: nat) -> FontState
    decreases n,
{
    if n == 0 {
        FontState { heading: None, body: None, context: 0 }
    } else {
        font_step(font_run(evs, (n - 1) as nat), evs[n - 1])
    }
}

/// A font name, or `"Calibri"` when none was found.
pub open spec fn font_or_calibri(f: Option<Seq<char>>) -> Seq<char> {
    match f {
        Some(v) => v,
        None => "Calibri"@,
    }
}

struct FontPass {
    heading: Option<String>,
    body: Option<String>,
    context: u8,
}

impl View for FontPass {
    type V = FontState;

    closed spec fn view(&self) -> FontState {
        FontState {
            heading: self.heading.deep_view(),
            body: self.body.deep_view(),
            context: self.context as int,
        }
    }
}

fn typeface_of(tag: &XmlTag) -> (r: Option<String>)
    ensures
        r.deep_view() == last_attr(tag.deep_view().attrs, "typeface"@),
{
    let ghost attrs = tag.attrs.deep_view();
    let mut r: Option<String> = None;
    let n = tag.attrs.len();
    let mut i: usize = 0;
    while i < n
        invariant
            n == tag.attrs.len(),
            attrs == tag.attrs.deep_view(),
            i <= n,
            r.deep_view() == last_attr(attrs.take(i as int), "typeface"@),
        decreases n - i,
    {
        assert(attrs.take(i + 1).drop_last() =~= attrs.take(i as int));
        let a = &tag.attrs[i];
        if str_eq(a.key.as_str(), "typeface") {
            match &a.value {
                Some(v) => {
                    r = Some(v.clone());
                },
                None => {},
            }
        }
        i = i + 1;
    }
    assert(attrs.take(n as int) =~= attrs);
    r
}

impl FontPass {
    fn latin(&mut self, t: &XmlTag)
        requires
            old(self).context <= 2,
        ensures
            final(self).context <= 2,
            final(self)@ == font_latin(old(self)@, t.deep_view()),
    {
        match typeface_of(t) {
            Some(v) => {
                if self.context == 1 {
                    self.heading = Some(v);
                } else if self.context == 2 {
                    self.body = Some(v);
                }
            },
            None => {},
        }
    }

    fn step(&mut self, ev: &XmlEvent)
        requires
            old(self).context <= 2,
        ensures
            final(self).context <= 2,
            final(self)@ == font_step(old(self)@, ev.deep_view()),
    {
        match ev {
            XmlEvent::Start(t) => {
                if str_eq(t.name.as_str(), "majorFont") {
                    self.context = 1;
                } else if str_eq(t.name.as_str(), "minorFont") {
                    self.context = 2;
                } else if str_eq(t.name.as_str(), "latin") {
                    self.latin(t);
                }
            },
            XmlEvent::Empty(t) => {
                if str_eq(t.name.as_str(), "latin") {
                    self.latin(t);
                }
            },
            XmlEvent::End(n) => {
                if str_eq(n.as_str(), "majorFont") || str_eq(n.as_str(), "minorFont") {
                    self.context = 0;
                }
            },
            _ => {},
        }
    }
}

/// Interpret the events of `theme1.xml` for the heading and body fonts.
pub fn theme_fonts_from_events(evs: &Vec<XmlEvent>) -> (f: BrandFonts)
    ensures
        f.heading@ == font_or_calibri(font_run(evs.deep_view(), evs.len() as nat).heading),
        f.body@ == font_or_calibri(font_run(evs.deep_view(), evs.len() as nat).body),
{
    let mut st = FontPass { heading: None, body: None, context: 0 };
    let n = evs.len();
    let mut i: usize = 0;
    while i < n
        invariant
            n == evs.len(),
            i <= n,
            st.context <= 2,
            st@ == font_run(evs.deep_view(), i as nat),
        decreases n - i,
    {
        st.step(&evs[i]);
        i = i + 1;
    }
    let heading = match st.heading {
        Some(h) => h,
        None => String::from_str("Calibri"),
    };
    let body = match st.body {
        Some(b) => b,
        None => String::from_str("Calibri"),
    };
    BrandFonts { heading, body }
}

/// Parse the heading and body font names from `theme1.xml` bytes; a missing
/// `<a:majorFont>` or `<a:minorFont>` typeface falls back to `"Calibri"`.
/// Always succeeds.
pub fn parse_theme_fonts(xml_bytes: &[u8]) -> (r: Result<BrandFonts, BrandError>)
    ensures
        r matches Ok(f) && f.heading@ == font_or_calibri(
            font_run(xml_events_of(xml_bytes@, true), xml_events_of(xml_bytes@, true).len()).heading,
        ) && f.body@ == font_or_calibri(
            font_run(xml_events_of(xml_bytes@, true), xml_events_of(xml_bytes@, true).len()).body,
        ),
{
    let evs = xml_events(xml_bytes, true);
    Ok(theme_fonts_from_events(&evs))
}

// ─── Installed fonts ─────────────────────────────────────────────────────────

/// `s` without what follows its last `.` (all of `s` without a `.`).
pub open spec fn stem_of(s: Seq<char>) -> Seq<char> {
    match last_index_of(s, '.') {
        Some(d) => s.subrange(0, d),
        None => s,
    }
}

/// Whether a font file named `file_name` provides the font `font_name`: the
/// file's stem, lowercased, begins with the lowercased font name.
pub open spec fn font_file_provides(file_name: Seq<char>, font_name: Seq<char>) -> bool {
    starts_with(stem_of(lowercase_of(file_name)), lowercase_of(font_name))
}

/// Whether a font file named `file_name` provides the font `font_name`
/// (a case-insensitive prefix match on the file's stem).
pub fn font_file_matches(file_name: &str, font_name: &str) -> (r: bool)
    ensures
        r == font_file_provides(file_name@, font_name@),
{
    let f = to_lowercase(file_name);
    let n = to_lowercase(font_name);
    let fs = f.as_str();
    let stem = match last_dot_index(fs) {
        Some(d) => fs.substring_char(0, d),
        None => fs,
    };
    assert(stem@ == stem_of(lowercase_of(file_name@)));
    str_starts_with(stem, n.as_str())
}

// ─── Laws ────────────────────────────────────────────────────────────────────

/// Whether `ev` is a `<latin>` element (start or empty) whose `typeface` is `v`.
pub open spec fn is_latin_with_typeface(ev: EventV, v: Seq<char>) -> bool {
    match ev {
        EventV::Start(t) => t.name == "latin"@ && last_attr(t.attrs, "typeface"@) == Some(v),
        EventV::Empty(t) => t.name == "latin"@ && last_attr(t.attrs, "typeface"@) == Some(v),
        _ => false,
    }
}

/// Whether `ev` opens a `<latin>` element (start or empty).
pub open spec fn opens_latin(ev: EventV) -> bool {
    match ev {
        EventV::Start(t) => t.name == "latin"@,
        EventV::Empty(t) => t.name == "latin"@,
        _ => false,
    }
}

/// Only `<latin>` sets a font: any other event (`<ea>`, `<cs>`, `<font>`, an
/// end tag, text, ...) leaves the heading and body fonts as they were. A
/// `<latin typeface="v">` inside `<majorFont>` sets the heading to `v` and
/// inside `<minorFont>` sets the body to `v`, each leaving the other alone.
pub proof fn lemma_only_latin_sets_fonts(st: FontState, ev: EventV)
    ensures
        !opens_latin(ev) ==> font_step(st, ev).heading == st.heading && font_step(st, ev).body == st.body,
        forall|v: Seq<char>| #[trigger] is_latin_with_typeface(ev, v) && st.context == 1
            ==> font_step(st, ev).heading == Some(v) && font_step(st, ev).body == st.body,
        forall|v: Seq<char>| #[trigger] is_latin_with_typeface(ev, v) && st.context == 2
            ==> font_step(st, ev).body == Some(v) && font_step(st, ev).heading == st.heading,
{
    reveal_strlit("latin");
    reveal_strlit("majorFont");
    reveal_strlit("minorFont");
    assert("latin"@.len() != "majorFont"@.len() && "latin"@.len() != "minorFont"@.len());
}

/// Every font that the pass finds is the typeface of a `<latin>` element
/// among the events read: the heading and the body never come from `<ea>`,
/// `<cs>` or any other element.
pub proof fn lemma_fonts_come_from_latin(evs: Seq<EventV>, n: nat)
    requires
        n <= evs.len(),
    ensures
        font_run(evs, n).heading matches Some(v) ==> exists|k: int| 0 <= k < n && #[trigger] is_latin_with_typeface(evs[k], v),
        font_run(evs, n).body matches Some(v) ==> exists|k: int| 0 <= k < n && #[trigger] is_latin_with_typeface(evs[k], v),
    decreases n,
{
    if n > 0 {
        lemma_fonts_come_from_latin(evs, (n - 1) as nat);
        let prev = font_run(evs, (n - 1) as nat);
        let ev = evs[n - 1];
        lemma_only_latin_sets_fonts(prev, ev);
        let cur = font_run(evs, n);
        if cur.heading is Some && cur.heading != prev.heading {
            assert(is_latin_with_typeface(ev, cur.heading.unwrap()));
        }
        if cur.body is Some && cur.body != prev.body {
            assert(is_latin_with_typeface(ev, cur.body.unwrap()));
        }
    }
}

/// Events that open no `<latin>` element change neither font: the pass
/// after events `n..m` of that kind has the fonts it had after the first `n`.
pub proof fn lemma_no_latin_keeps_fonts(evs: Seq<EventV>, n: nat, m: nat)
    requires
        n <= m <= evs.len(),
        forall|k: int| n <= k < m ==> !opens_latin(#[trigger] evs[k]),
    ensures
        font_run(evs, m).heading == font_run(evs, n).heading,
        font_run(evs, m).body == font_run(evs, n).body,
    decreases m - n,
{
    if m > n {
        lemma_no_latin_keeps_fonts(evs, n, (m - 1) as nat);
        lemma_only_latin_sets_fonts(font_run(evs, (m - 1) as nat), evs[m - 1]);
    }
}

/// A `<latin typeface="v">` right after `<majorFont>` makes `v` the heading
/// font, and right after `<minorFont>` makes it the body font; the other
/// font stays as it was.
pub proof fn lemma_latin_in_font_group(evs: Seq<EventV>, n: nat, v: Seq<char>)
    requires
        n + 2 <= evs.len(),
        is_latin_with_typeface(evs[n + 1int], v),
    ensures
        (evs[n as int] matches EventV::Start(t) && t.name == "majorFont"@) ==> font_run(evs, n + 2).heading == Some(v)
            && font_run(evs, n + 2).body == font_run(evs, n).body,
        (evs[n as int] matches EventV::Start(t) && t.name == "minorFont"@) ==> font_run(evs, n + 2).body == Some(v)
            && font_run(evs, n + 2).heading == font_run(evs, n).heading,
{
    reveal_strlit("majorFont");
    reveal_strlit("minorFont");
    assert("majorFont"@[1] != "minorFont"@[1]);
    let st1 = font_run(evs, n + 1);
    assert(font_run(evs, n + 2) == font_step(st1, evs[n + 1int]));
    lemma_only_latin_sets_fonts(st1, evs[n + 1int]);
}

} // verus!
