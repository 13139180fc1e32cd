//! XML events read from and written to OOXML parts.
//!
//! Reading and writing are done by `quick_xml`; this module hands the library
//! plain lists of events, which the parsers and serializers of this crate
//! interpret and build.
use vstd::prelude::*;

use quick_xml::events::Event::{Empty, End, Eof, Start, Text};
use quick_xml::events::{BytesDecl, BytesEnd, BytesStart, BytesText, Event};
use crate::xml::RawEvent::{CharData, EmptyTag, EndTag, OtherEvent, StartTag};
use quick_xml::{Reader, Writer};
use vstd::utf8::{decode_utf8, encode_utf8, valid_utf8};

verus! {

/// An attribute of an element: local key name and raw (unescaped) value.
///
/// `value` is `None` when the raw value is not valid UTF-8.
#[derive(Debug, Clone, PartialEq, Eq)]
pub struct XmlAttr {
    /// Local name of the attribute key (namespace prefix removed).
    pub key: String,
    /// Raw attribute value, if it is valid UTF-8.
    pub value: Option<String>,
}

/// A start or empty element: local name and attributes in document order.
#[derive(Debug, Clone, PartialEq, Eq)]
pub struct XmlTag {
    /// Local name of the element (namespace prefix removed).
    pub name: String,
    /// Attributes in document order.
    pub attrs: Vec<XmlAttr>,
}

/// One event of an XML document.
#[derive(Debug, Clone, PartialEq, Eq)]
pub enum XmlEvent {
    /// `<name ...>`
    Start(XmlTag),
    /// `<name .../>`
    Empty(XmlTag),
    /// `</name>` (local name).
    End(String),
    /// Character data, unescaped; `None` when it cannot be unescaped.
    Text(Option<String>),
    /// Any other event (declaration, comment, CDATA, ...).
    Other,
}

/// The mathematical value of an [`XmlAttr`].
pub struct AttrV {
    pub key: Seq<char>,
    pub value: Option<Seq<char>>,
}

/// The mathematical value of an [`XmlTag`].
pub struct TagV {
    pub name: Seq<char>,
    pub attrs: Seq<AttrV>,
}

/// The mathematical value of an [`XmlEvent`].
pub enum EventV {
    Start(TagV),
    Empty(TagV),
    End(Seq<char>),
    Text(Option<Seq<char>>),
    Other,
}

impl DeepView for XmlAttr {
    type V = AttrV;

    open spec fn deep_view(&self) -> AttrV {
        AttrV { key: self.key@, value: self.value.deep_view() }
    }
}

impl DeepView for XmlTag {
    type V = TagV;

    open spec fn deep_view(&self) -> TagV {
        TagV { name: self.name@, attrs: self.attrs.deep_view() }
    }
}

impl DeepView for XmlEvent {
    type V = EventV;

    open spec fn deep_view(&self) -> EventV {
        match self {
            XmlEvent::Start(t) => EventV::Start(t.deep_view()),
            XmlEvent::Empty(t) => EventV::Empty(t.deep_view()),
            XmlEvent::End(n) => EventV::End(n@),
            XmlEvent::Text(t) => EventV::Text(t.deep_view()),
            XmlEvent::Other => EventV::Other,
        }
    }
}

/// A start or empty tag as `quick_xml` hands it over: local name bytes and
/// (local key bytes, raw value bytes) for each attribute in document order.
pub type RawTag = (Vec<u8>, Vec<(Vec<u8>, Vec<u8>)>);

/// One event as `quick_xml` hands it over, before any decoding.
pub enum RawEvent {
    StartTag(RawTag),
    EmptyTag(RawTag),
    /// Local name bytes of the end tag.
    EndTag(Vec<u8>),
    /// Escaped character data bytes.
    CharData(Vec<u8>),
    OtherEvent,
}

/// The mathematical value of a [`RawEvent`].
pub enum RawEventV {
    Start((Seq<u8>, Seq<(Seq<u8>, Seq<u8>)>)),
    Empty((Seq<u8>, Seq<(Seq<u8>, Seq<u8>)>)),
    End(Seq<u8>),
    Text(Seq<u8>),
    Other,
}

impl DeepView for RawEvent {
    type V = RawEventV;

    open spec fn deep_view(&self) -> RawEventV {
        match self {
            RawEvent::StartTag(t) => RawEventV::Start(t.deep_view()),
            RawEvent::EmptyTag(t) => RawEventV::Empty(t.deep_view()),
            RawEvent::EndTag(n) => RawEventV::End(n@),
            RawEvent::CharData(t) => RawEventV::Text(t@),
            RawEvent::OtherEvent => RawEventV::Other,
        }
    }
}

/// The events that `quick_xml::Reader` reads from `bytes`, up to (not
/// including) the end of input or the first syntax error. With `trim`,
/// whitespace around character data is removed and whitespace-only character
/// data is dropped.
pub uninterp spec fn raw_xml_events_of(bytes: Seq<u8>, trim: bool) -> Seq<RawEventV>;

/// Read the raw events of an XML document with `quick_xml::Reader`.
///
/// Trusted: the result is the sequence of events that `Reader::read_event`
/// yields for `bytes` (with `trim_text(trim)`), each converted one for one to
/// its byte content, stopping at `Eof` or the first error. Nothing more is
/// claimed of that sequence than that it is this function of the input.
#[verifier::external_body]
fn read_raw_events(bytes: &[u8], trim: bool) -> (evs: Vec<RawEvent>)
    ensures
        evs.deep_view() == raw_xml_events_of(bytes@, trim),
{
    let mut r = Reader::from_reader(bytes);
    r.config_mut().trim_text(trim);
    let mut out = vec![];
    let tag = |e: BytesStart| (e.local_name().as_ref().to_vec(), e.attributes().flatten().map(|a| (a.key.local_name().as_ref().to_vec(), a.value.to_vec())).collect());
    while let Ok(ev) = r.read_event() {
        if ev == Eof { break }
        out.push(match ev {
            Start(e) => StartTag(tag(e)),
            Empty(e) => EmptyTag(tag(e)),
            End(e) => EndTag(e.local_name().as_ref().to_vec()),
            Text(t) => CharData(t.to_vec()),
            _ => OtherEvent,
        });
    }
    out
}

/// Decode UTF-8 bytes with `std::str::from_utf8`.
///
/// Trusted: `from_utf8` succeeds exactly on valid UTF-8, and the string it
/// gives holds the decoded characters.
#[verifier::external_body]
pub(crate) fn utf8_string(b: &[u8]) -> (r: Option<String>)
    ensures
        r is Some <==> valid_utf8(b@),
        r matches Some(s) ==> s@ == decode_utf8(b@),
{
    std::str::from_utf8(b).ok().map(|s| s.to_string())
}

/// What `quick_xml::escape::unescape` gives for `s`: the text with the
/// predefined entities and character references replaced, or `None` where
/// `s` holds an unknown or unterminated reference.
pub uninterp spec fn xml_unescape_of(s: Seq<char>) -> Option<Seq<char>>;

/// Unescape character data with `quick_xml::escape::unescape`.
///
/// Trusted: the result is that function's result on `s`, its error mapped to
/// `None`.
#[verifier::external_body]
pub(crate) fn xml_unescape(s: &str) -> (r: Option<String>)
    ensures
        r.deep_view() == xml_unescape_of(s@),
{
    quick_xml::escape::unescape(s).ok().map(|c| c.into_owned())
}

/// A name as the parsers see it: the decoded bytes, or empty when they are
/// not valid UTF-8.
pub open spec fn name_text(b: Seq<u8>) -> Seq<char> {
    if valid_utf8(b) { decode_utf8(b) } else { Seq::empty() }
}

/// An attribute value as the parsers see it: the decoded raw bytes, if valid.
pub open spec fn value_text(b: Seq<u8>) -> Option<Seq<char>> {
    if valid_utf8(b) { Some(decode_utf8(b)) } else { None }
}

/// Character data as the parsers see it: decoded, then unescaped.
pub open spec fn char_data(b: Seq<u8>) -> Option<Seq<char>> {
    if valid_utf8(b) { xml_unescape_of(decode_utf8(b)) } else { None }
}

/// The attribute for raw key and value bytes.
pub open spec fn attr_of(a: (Seq<u8>, Seq<u8>)) -> AttrV {
    AttrV { key: name_text(a.0), value: value_text(a.1) }
}

/// The tag for a raw tag.
pub open spec fn tag_of(t: (Seq<u8>, Seq<(Seq<u8>, Seq<u8>)>)) -> TagV {
    TagV { name: name_text(t.0), attrs: t.1.map_values(|a: (Seq<u8>, Seq<u8>)| attr_of(a)) }
}

/// The event for a raw event.
pub open spec fn event_of(e: RawEventV) -> EventV {
    match e {
        RawEventV::Start(t) => EventV::Start(tag_of(t)),
        RawEventV::Empty(t) => EventV::Empty(tag_of(t)),
        RawEventV::End(n) => EventV::End(name_text(n)),
        RawEventV::Text(t) => EventV::Text(char_data(t)),
        RawEventV::Other => EventV::Other,
    }
}

/// The events of `bytes` as the parsers see them: each raw event of
/// `quick_xml` with its names and values decoded and its character data
/// unescaped.
pub open spec fn xml_events_of(bytes: Seq<u8>, trim: bool) -> Seq<EventV> {
    raw_xml_events_of(bytes, trim).map_values(|e: RawEventV| event_of(e))
}

fn name_string(b: &Vec<u8>) -> (r: String)
    ensures
        r@ == name_text(b@),
{
    match utf8_string(b.as_slice()) {
        Some(s) => s,
        None => String::new(),
    }
}

fn convert_tag(t: &RawTag) -> (r: XmlTag)
    ensures
        r.deep_view() == tag_of(t.deep_view()),
{
    let ghost raw = t.1.deep_view();
    let mut attrs: Vec<XmlAttr> = Vec::new();
    let mut i: usize = 0;
    while i < t.1.len()
        invariant
            raw == t.1.deep_view(),
            i <= t.1.len(),
            attrs.len() == i,
            forall|j: int| 0 <= j < i ==> #[trigger] attrs@[j].deep_view() == attr_of(raw[j]),
        decreases t.1.len() - i,
    {
        let pair = &t.1[i];
        let key = name_string(&pair.0);
        let value = utf8_string(pair.1.as_slice());
        assert(raw[i as int] == (pair.0@, pair.1@));
        attrs.push(XmlAttr { key, value });
        i = i + 1;
    }
    let r = XmlTag { name: name_string(&t.0), attrs };
    assert(r.attrs.deep_view() =~= tag_of(t.deep_view()).attrs);
    assert(t.0.deep_view() =~= t.0@);
    r
}

fn convert_event(e: &RawEvent) -> (r: XmlEvent)
    ensures
        r.deep_view() == event_of(e.deep_view()),
{
    match e {
        RawEvent::StartTag(t) => XmlEvent::Start(convert_tag(t)),
        RawEvent::EmptyTag(t) => XmlEvent::Empty(convert_tag(t)),
        RawEvent::EndTag(n) => XmlEvent::End(name_string(n)),
        RawEvent::CharData(t) => {
            let text = match utf8_string(t.as_slice()) {
                Some(s) => xml_unescape(s.as_str()),
                None => None,
            };
            XmlEvent::Text(text)
        },
        RawEvent::OtherEvent => XmlEvent::Other,
    }
}

/// Read the events of an XML document: the raw events of `quick_xml`, with
/// names and attribute values decoded (a name that is not valid UTF-8 reads as
/// empty) and character data decoded and unescaped.
pub fn xml_events(bytes: &[u8], trim: bool) -> (evs: Vec<XmlEvent>)
    ensures
        evs.deep_view() == xml_events_of(bytes@, trim),
{
    let raw = read_raw_events(bytes, trim);
    let ghost rv = raw.deep_view();
    let mut out: Vec<XmlEvent> = Vec::new();
    let mut i: usize = 0;
    while i < raw.len()
        invariant
            rv == raw.deep_view(),
            i <= raw.len(),
            out.len() == i,
            forall|j: int| 0 <= j < i ==> #[trigger] out@[j].deep_view() == event_of(rv[j]),
        decreases raw.len() - i,
    {
        out.push(convert_event(&raw[i]));
        i = i + 1;
    }
    assert(out.deep_view() =~= rv.map_values(|e: RawEventV| event_of(e)));
    out
}

// ─── Writing ─────────────────────────────────────────────────────────────────

/// An attribute to write.
#[derive(Debug, Clone, PartialEq, Eq)]
pub struct OutAttr {
    /// Qualified key, written as is.
    pub key: String,
    /// Value, escaped when written.
    pub value: String,
}

/// An element tag to write: qualified name and attributes in order.
#[derive(Debug, Clone, PartialEq, Eq)]
pub struct OutTag {
    /// Qualified name, written as is.
    pub name: String,
    /// Attributes in order.
    pub attrs: Vec<OutAttr>,
}

/// One event to write.
#[derive(Debug, Clone, PartialEq, Eq)]
pub enum XmlOut {
    /// `<?xml version=".." encoding=".." standalone=".."?>`
    Decl { version: String, encoding: String, standalone: String },
    /// `<name attrs>`
    Start(OutTag),
    /// `<name attrs/>`
    Empty(OutTag),
    /// `</name>`
    End(String),
    /// Character data, escaped when written.
    Text(String),
}

/// The mathematical value of an [`OutAttr`].
pub struct OutAttrV {
    pub key: Seq<char>,
    pub value: Seq<char>,
}

/// The mathematical value of an [`XmlOut`].
pub enum OutV {
    Decl(Seq<char>, Seq<char>, Seq<char>),
    Start(Seq<char>, Seq<OutAttrV>),
    Empty(Seq<char>, Seq<OutAttrV>),
    End(Seq<char>),
    Text(Seq<char>),
}

impl DeepView for OutAttr {
    type V = OutAttrV;

    open spec fn deep_view(&self) -> OutAttrV {
        OutAttrV { key: self.key@, value: self.value@ }
    }
}

impl DeepView for XmlOut {
    type V = OutV;

    open spec fn deep_view(&self) -> OutV {
        match self {
            XmlOut::Decl { version, encoding, standalone } => OutV::Decl(version@, encoding@, standalone@),
            XmlOut::Start(t) => OutV::Start(t.name@, t.attrs.deep_view()),
            XmlOut::Empty(t) => OutV::Empty(t.name@, t.attrs.deep_view()),
            XmlOut::End(n) => OutV::End(n@),
            XmlOut::Text(s) => OutV::Text(s@),
        }
    }
}

/// How one character is escaped: `<`, `>`, `&`, `'` and `"` become entity
/// references, any other character stays.
pub open spec fn xml_escape_char(c: char) -> Seq<char> {
    if c == '<' { "&lt;"@ }
    else if c == '>' { "&gt;"@ }
    else if c == '&' { "&amp;"@ }
    else if c == '\'' { "&apos;"@ }
    else if c == '"' { "&quot;"@ }
    else { seq![c] }
}

/// `s` escaped for XML.
pub open spec fn xml_escaped(s: Seq<char>) -> Seq<char>
    decreases s.len(),
{
    if s.len() == 0 {
        Seq::empty()
    } else {
        xml_escaped(s.drop_last()) + xml_escape_char(s.last())
    }
}

/// The attributes of a tag as written: ` key="escaped value"` each.
pub open spec fn attrs_text(attrs: Seq<OutAttrV>) -> Seq<char>
    decreases attrs.len(),
{
    if attrs.len() == 0 {
        Seq::empty()
    } else {
        attrs_text(attrs.drop_last()) + " "@ + attrs.last().key + "=\""@ + xml_escaped(attrs.last().value) + "\""@
    }
}

/// The text of one written event.
pub open spec fn event_text(e: OutV) -> Seq<char> {
    match e {
        OutV::Decl(v, enc, sa) => "<?xml version=\""@ + v + "\" encoding=\""@ + enc + "\" standalone=\""@ + sa
            + "\"?>"@,
        OutV::Start(n, a) => "<"@ + n + attrs_text(a) + ">"@,
        OutV::Empty(n, a) => "<"@ + n + attrs_text(a) + "/>"@,
        OutV::End(n) => "</"@ + n + ">"@,
        OutV::Text(s) => xml_escaped(s),
    }
}

/// The text of a written document: its events one after the other.
pub open spec fn document_text(evs: Seq<OutV>) -> Seq<char>
    decreases evs.len(),
{
    if evs.len() == 0 {
        Seq::empty()
    } else {
        document_text(evs.drop_last()) + event_text(evs.last())
    }
}

/// Write one event with `quick_xml::Writer` (no indentation) and return what
/// it wrote, as text.
///
/// Trusted: `Writer::write_event` writes `<`, `</` or `<?` and `>`, `/>` or
/// `?>` around the tag; `BytesStart::push_attribute` (through
/// `with_attributes`) adds ` key="value"` with the value passed through
/// `quick_xml::escape::escape` (`<`, `>`, `&`, `'`, `"` become entity
/// references); `BytesText::new` escapes the same way; `BytesDecl::new`
/// gives `xml version=".." encoding=".." standalone=".."`. Writing to a
/// `Vec<u8>` cannot fail, and the bytes are valid UTF-8 since every input is.
#[verifier::external_body]
pub(crate) fn write_xml_event<'a>(ev: &'a XmlOut) -> (r: String)
    ensures
        r@ == event_text(ev.deep_view()),
{
    let mut w = Writer::new(Vec::new());
    let tag = |t: &'a OutTag| BytesStart::new(&t.name).with_attributes(t.attrs.iter().map(|a| (a.key.as_str(), a.value.as_str())));
    let _ = w.write_event(match ev {
        XmlOut::Decl { version, encoding, standalone } => Event::Decl(BytesDecl::new(version, Some(encoding), Some(standalone))),
        XmlOut::Start(t) => Start(tag(t)),
        XmlOut::Empty(t) => Empty(tag(t)),
        XmlOut::End(n) => End(BytesEnd::new(n)),
        XmlOut::Text(s) => Text(BytesText::new(s)),
    });
    String::from_utf8_lossy(&w.into_inner()).into_owned()
}

/// Write a document: the UTF-8 bytes of its events written one after the other.
pub fn write_document(evs: &Vec<XmlOut>) -> (r: Vec<u8>)
    ensures
        r@ == encode_utf8(document_text(evs.deep_view())),
{
    let ghost ev = evs.deep_view();
    let mut text = String::new();
    let mut i: usize = 0;
    assert(ev.take(0) =~= Seq::<OutV>::empty());
    while i < evs.len()
        invariant
            ev == evs.deep_view(),
            i <= evs.len(),
            text@ == document_text(ev.take(i as int)),
        decreases evs.len() - i,
    {
        let part = write_xml_event(&evs[i]);
        text.append(part.as_str());
        assert(ev.take(i + 1).drop_last() =~= ev.take(i as int));
        assert(ev.take(i + 1).last() == evs@[i as int].deep_view());
        i = i + 1;
    }
    assert(ev.take(evs.len() as int) =~= ev);
    vstd::slice::slice_to_vec(text.as_str().as_bytes())
}

} // verus!
