//! OOXML theme color extraction.
//!
//! [`parse_theme_colors`] reads `theme1.xml` and returns the 12 scheme color
//! slots in ECMA-376 order (`dk1`, `lt1`, `dk2`, `lt2`, `acc1`–`acc6`,
//! `hlink`, `folHlink`):
//!
//! - `<a:srgbClr val="RRGGBB">` gives `#RRGGBB` (uppercased); transform
//!   children (`lumMod`, `lumOff`, `tint`, `shade`) are not applied but mark
//!   the slot as derived;
//! - `<a:sysClr lastClr="RRGGBB">` gives `#RRGGBB`;
//! - `<a:schemeClr val="...">` gives an unresolved, lowercased scheme reference.
//!
//! A slot with no valid color gets its default and a `MissingColorSlot` warning.
use vstd::prelude::*;

use crate::error::{BrandError, BrandErrorV};
use crate::template::{
    slot_index, slot_index_of, slot_name, slot_name_str, ColorSlot, ColorSlotV, ColorValue,
    ColorValueV,
};
use crate::text::{ascii_lowered, is_ascii_text, str_eq};
use crate::xml::{xml_events, xml_events_of, AttrV, EventV, TagV, XmlEvent, XmlTag};

verus! {

/// The default color of a slot that a template does not define.
pub open spec fn default_color(slot: Seq<char>) -> Seq<char> {
    if slot == "dk1"@ || slot == "dk2"@ {
        "#404040"@
    } else if slot == "lt1"@ {
        "#F0F0F0"@
    } else if slot == "lt2"@ {
        "#D0D0D0"@
    } else if slot == "hlink"@ || slot == "folHlink"@ {
        "#0000EE"@
    } else {
        "#808080"@
    }
}

/// Default fallback hex color for a missing slot: dark gray for `dk1`/`dk2`,
/// light grays for `lt1`/`lt2`, blue for the link slots, gray otherwise.
pub fn default_color_for_slot(slot_name: &str) -> (r: String)
    ensures
        r@ == default_color(slot_name@),
{
    if str_eq(slot_name, "dk1") || str_eq(slot_name, "dk2") {
        String::from_str("#404040")
    } else if str_eq(slot_name, "lt1") {
        String::from_str("#F0F0F0")
    } else if str_eq(slot_name, "lt2") {
        String::from_str("#D0D0D0")
    } else if str_eq(slot_name, "hlink") || str_eq(slot_name, "folHlink") {
        String::from_str("#0000EE")
    } else {
        String::from_str("#808080")
    }
}

/// Default fallback [`ColorValue::Hex`] for a missing slot.
pub fn default_color_value_for_slot(slot_name: &str) -> (r: ColorValue)
    ensures
        r.deep_view() == ColorValueV::Hex(default_color(slot_name@)),
{
    ColorValue::Hex(default_color_for_slot(slot_name))
}

// ─── Hex strings ─────────────────────────────────────────────────────────────

/// Whether `c` is an ASCII hex digit.
pub open spec fn is_hex_digit(c: char) -> bool {
    ('0' <= c && c <= '9') || ('a' <= c && c <= 'f') || ('A' <= c && c <= 'F')
}

/// Whether `s` is exactly six ASCII hex digits.
pub open spec fn is_hex6(s: Seq<char>) -> bool {
    s.len() == 6 && forall|i: int| 0 <= i < 6 ==> is_hex_digit(#[trigger] s[i])
}

/// The uppercase form of a hex digit.
pub open spec fn upper_hex_digit(c: char) -> char {
    if c == 'a' { 'A' }
    else if c == 'b' { 'B' }
    else if c == 'c' { 'C' }
    else if c == 'd' { 'D' }
    else if c == 'e' { 'E' }
    else if c == 'f' { 'F' }
    else { c }
}

/// `"#"` followed by the six digits of `s` in uppercase.
pub open spec fn hash_hex(s: Seq<char>) -> Seq<char> {
    seq!['#'] + s.map_values(|c: char| upper_hex_digit(c))
}

/// Whether `c` is an ASCII hex digit.
pub fn is_hex_digit_char(c: char) -> (r: bool)
    ensures
        r == is_hex_digit(c),
{
    ('0' <= c && c <= '9') || ('a' <= c && c <= 'f') || ('A' <= c && c <= 'F')
}

/// Whether `s` is exactly six ASCII hex digits.
pub fn is_hex6_str(s: &str) -> (r: bool)
    ensures
        r == is_hex6(s@),
{
    if s.unicode_len() != 6 {
        return false;
    }
    let mut i: usize = 0;
    while i < 6
        invariant
            s@.len() == 6,
            i <= 6,
            forall|k: int| 0 <= k < i ==> is_hex_digit(#[trigger] s@[k]),
        decreases 6 - i,
    {
        if !is_hex_digit_char(s.get_char(i)) {
            return false;
        }
        i = i + 1;
    }
    true
}

fn upper_hex_digit_str(c: char) -> (r: &'static str)
    requires
        is_hex_digit(c),
    ensures
        r@ == seq![upper_hex_digit(c)],
{
    let r = if c == '0' { "0" } else if c == '1' { "1" } else if c == '2' { "2" }
        else if c == '3' { "3" } else if c == '4' { "4" } else if c == '5' { "5" }
        else if c == '6' { "6" } else if c == '7' { "7" } else if c == '8' { "8" }
        else if c == '9' { "9" } else if c == 'a' || c == 'A' { "A" }
        else if c == 'b' || c == 'B' { "B" } else if c == 'c' || c == 'C' { "C" }
        else if c == 'd' || c == 'D' { "D" } else if c == 'e' || c == 'E' { "E" }
        else { "F" };
    proof {
        reveal_strlit("0"); reveal_strlit("1"); reveal_strlit("2"); reveal_strlit("3");
        reveal_strlit("4"); reveal_strlit("5"); reveal_strlit("6"); reveal_strlit("7");
        reveal_strlit("8"); reveal_strlit("9"); reveal_strlit("A"); reveal_strlit("B");
        reveal_strlit("C"); reveal_strlit("D"); reveal_strlit("E"); reveal_strlit("F");
    }
    assert(r@ =~= seq![upper_hex_digit(c)]);
    r
}

/// `"#"` followed by the six hex digits of `s`, uppercased.
pub fn hash_hex_string(s: &str) -> (r: String)
    requires
        is_hex6(s@),
    ensures
        r@ == hash_hex(s@),
{
    let mut out = String::from_str("#");
    proof {
        reveal_strlit("#");
    }
    let mut i: usize = 0;
    while i < 6
        invariant
            is_hex6(s@),
            i <= 6,
            out@ == seq!['#'] + s@.take(i as int).map_values(|c: char| upper_hex_digit(c)),
        decreases 6 - i,
    {
        let c = s.get_char(i);
        out.append(upper_hex_digit_str(c));
        assert(s@.take(i + 1).map_values(|c: char| upper_hex_digit(c)) =~= s@.take(i as int).map_values(
            |c: char| upper_hex_digit(c),
        ).push(upper_hex_digit(c)));
        i = i + 1;
    }
    assert(s@.take(6) =~= s@);
    out
}

// ─── Lowercasing ─────────────────────────────────────────────────────────────

/// What `str::to_lowercase` returns for `s` (Unicode `Lowercase` mapping).
pub uninterp spec fn lowercase_of(s: Seq<char>) -> Seq<char>;

/// `str::to_lowercase`.
///
/// Trusted: the result is what the standard library's `to_lowercase` returns,
/// which is claimed to depend on `s` alone; on ASCII text it maps `A`-`Z` to
/// `a`-`z` and keeps every other character (the Unicode lowercase mapping of
/// the ASCII range).
#[verifier::external_body]
pub(crate) fn to_lowercase(s: &str) -> (r: String)
    ensures
        r@ == lowercase_of(s@),
        is_ascii_text(s@) ==> r@ == ascii_lowered(s@),
{
    s.to_lowercase()
}

// ─── The pass over theme1.xml ────────────────────────────────────────────────

/// Whether `name` is an OOXML color transform that marks a slot as derived.
pub open spec fn is_transform(name: Seq<char>) -> bool {
    name == "lumMod"@ || name == "lumOff"@ || name == "tint"@ || name == "shade"@
}

/// The last attribute named `key` whose value is six hex digits.
pub open spec fn last_hex_attr(attrs: Seq<AttrV>, key: Seq<char>) -> Option<Seq<char>>
    decreases attrs.len(),
{
    if attrs.len() == 0 {
        None
    } else {
        let a = attrs.last();
        if a.key == key && a.value is Some && is_hex6(a.value.unwrap()) {
            a.value
        } else {
            last_hex_attr(attrs.drop_last(), key)
        }
    }
}

/// The last attribute named `key` that has a (UTF-8) value.
pub open spec fn last_attr(attrs: Seq<AttrV>, key: Seq<char>) -> Option<Seq<char>>
    decreases attrs.len(),
{
    if attrs.len() == 0 {
        None
    } else {
        let a = attrs.last();
        if a.key == key && a.value is Some {
            a.value
        } else {
            last_attr(attrs.drop_last(), key)
        }
    }
}

/// State of the pass over `theme1.xml`.
pub struct ColorState {
    /// The value found so far for each of the 12 slots.
    pub found: Seq<Option<ColorValueV>>,
    /// Whether the value found for each slot came from a transformed `srgbClr`.
    pub derived: Seq<bool>,
    /// The slot element the reader is inside, if any.
    pub current: Option<int>,
    /// Whether the reader is inside an `srgbClr` that gave the current slot its value.
    pub srgb_open: bool,
}

/// The state before the first event.
pub open spec fn color_init() -> ColorState {
    ColorState {
        found: Seq::new(12, |i: int| None),
        derived: Seq::new(12, |i: int| false),
        current: None,
        srgb_open: false,
    }
}

/// Record `v` as the value of slot `s`.
pub open spec fn color_store(st: ColorState, s: int, v: ColorValueV) -> ColorState {
    ColorState { found: st.found.update(s, Some(v)), derived: st.derived.update(s, false), ..st }
}

/// The effect of a start (`empty == false`) or empty element.
pub open spec fn color_open(st: ColorState, t: TagV, empty: bool) -> ColorState {
    if slot_index_of(t.name) is Some {
        ColorState { current: slot_index_of(t.name), srgb_open: false, ..st }
    } else if st.current is Some {
        let s = st.current.unwrap();
        if t.name == "srgbClr"@ {
            match last_hex_attr(t.attrs, "val"@) {
                Some(v) => ColorState { srgb_open: !empty, ..color_store(st, s, ColorValueV::Hex(hash_hex(v))) },
                None => ColorState { srgb_open: false, ..st },
            }
        } else if t.name == "sysClr"@ {
            match last_hex_attr(t.attrs, "lastClr"@) {
                Some(v) => color_store(st, s, ColorValueV::Hex(hash_hex(v))),
                None => st,
            }
        } else if t.name == "schemeClr"@ {
            match last_attr(t.attrs, "val"@) {
                Some(v) => color_store(st, s, ColorValueV::SchemeRef(lowercase_of(v))),
                None => st,
            }
        } else if is_transform(t.name) && st.srgb_open {
            ColorState { derived: st.derived.update(s, true), ..st }
        } else {
            st
        }
    } else {
        st
    }
}

/// The effect of one event of `theme1.xml`.
pub open spec fn color_step(st: ColorState, ev: EventV) -> ColorState {
    match ev {
        EventV::Start(t) => color_open(st, t, false),
        EventV::Empty(t) => color_open(st, t, true),
        EventV::End(n) => {
            if st.current is Some && n == slot_name(st.current.unwrap()) {
                ColorState { current: None, srgb_open: false, ..st }
            } else if n == "srgbClr"@ {
                ColorState { srgb_open: false, ..st }
            } else {
                st
            }
        },
        _ => st,
    }
}

/// The pass after the first `n` events.
pub open spec fn color_run(evs: Seq<EventV>, n: nat) -> ColorState
    decreases n,
{
    if n == 0 {
        color_init()
    } else {
        color_step(color_run(evs, (n - 1) as nat), evs[n - 1])
    }
}

/// Slot `i` of the result, given the final state.
pub open spec fn color_slot_of(st: ColorState, i: int) -> ColorSlotV {
    match st.found[i] {
        Some(v) => ColorSlotV { name: slot_name(i), value: v, is_derived: st.derived[i] },
        None => ColorSlotV {
            name: slot_name(i),
            value: ColorValueV::Hex(default_color(slot_name(i))),
            is_derived: false,
        },
    }
}

/// The warning for a missing slot `i`.
pub open spec fn missing_slot_warning(i: int) -> BrandErrorV {
    BrandErrorV::MissingColorSlot {
        slot_name: slot_name(i),
        inferred_hex: default_color(slot_name(i)),
        derivation: "default inference"@,
    }
}

/// The warnings for the missing slots among the first `n`, in slot order.
pub open spec fn missing_warnings(found: Seq<Option<ColorValueV>>, n: nat) -> Seq<BrandErrorV>
    decreases n,
{
    if n == 0 {
        Seq::empty()
    } else {
        let w = missing_warnings(found, (n - 1) as nat);
        if found[n - 1] is None {
            w.push(missing_slot_warning(n - 1))
        } else {
            w
        }
    }
}

/// The color slots and warnings that the events of `theme1.xml` give.
pub open spec fn theme_colors_of(evs: Seq<EventV>) -> (Seq<ColorSlotV>, Seq<BrandErrorV>) {
    let st = color_run(evs, evs.len());
    (Seq::new(12, |i: int| color_slot_of(st, i)), missing_warnings(st.found, 12))
}

struct ColorPass {
    found: Vec<Option<ColorValue>>,
    derived: Vec<bool>,
    current: Option<usize>,
    srgb_open: bool,
}

impl View for ColorPass {
    type V = ColorState;

    closed spec fn view(&self) -> ColorState {
        ColorState {
            found: self.found.deep_view(),
            derived: self.derived@,
            current: match self.current {
                Some(i) => Some(i as int),
                None => None,
            },
            srgb_open: self.srgb_open,
        }
    }
}

/// The last attribute named `key` whose value is six hex digits.
fn find_hex_attr(tag: &XmlTag, key: &str) -> (r: Option<String>)
    ensures
        r.deep_view() == last_hex_attr(tag.deep_view().attrs, key@),
        r matches Some(v) ==> is_hex6(v@),
{
    let ghost attrs = tag.attrs.deep_view();
    let mut r: Option<String> = None;
    let n = tag.attrs.len();
    let mut i: usize = 0;
    while i < n
        invariant
            n == tag.attrs.len(),
            attrs == tag.attrs.deep_view(),
            i <= n,
            r.deep_view() == last_hex_attr(attrs.take(i as int), key@),
            r matches Some(v) ==> is_hex6(v@),
        decreases n - i,
    {
        assert(attrs.take(i + 1).drop_last() =~= attrs.take(i as int));
        let a = &tag.attrs[i];
        if str_eq(a.key.as_str(), key) {
            match &a.value {
                Some(v) => {
                    if is_hex6_str(v.as_str()) {
                        r = Some(v.clone());
                    }
                },
                None => {},
            }
        }
        i = i + 1;
    }
    assert(attrs.take(n as int) =~= attrs);
    r
}

/// The last attribute named `key` that has a value.
pub fn find_attr(tag: &XmlTag, key: &str) -> (r: Option<String>)
    ensures
        r.deep_view() == last_attr(tag.deep_view().attrs, key@),
{
    let ghost attrs = tag.attrs.deep_view();
    let mut r: Option<String> = None;
    let n = tag.attrs.len();
    let mut i: usize = 0;
    while i < n
        invariant
            n == tag.attrs.len(),
            attrs == tag.attrs.deep_view(),
            i <= n,
            r.deep_view() == last_attr(attrs.take(i as int), key@),
        decreases n - i,
    {
        assert(attrs.take(i + 1).drop_last() =~= attrs.take(i as int));
        let a = &tag.attrs[i];
        if str_eq(a.key.as_str(), key) {
            match &a.value {
                Some(v) => {
                    r = Some(v.clone());
                },
                None => {},
            }
        }
        i = i + 1;
    }
    assert(attrs.take(n as int) =~= attrs);
    r
}

/// A copy of a color value.
pub fn copy_color_value(v: &ColorValue) -> (r: ColorValue)
    ensures
        r.deep_view() == v.deep_view(),
{
    match v {
        ColorValue::Hex(h) => ColorValue::Hex(h.clone()),
        ColorValue::SchemeRef(n) => ColorValue::SchemeRef(n.clone()),
    }
}

impl ColorPass {
    spec fn wf(&self) -> bool {
        &&& self.found.len() == 12
        &&& self.derived.len() == 12
        &&& self.current matches Some(i) ==> i < 12
    }

    fn store(&mut self, s: usize, v: ColorValue)
        requires
            old(self).wf(),
            s < 12,
        ensures
            final(self).wf(),
            final(self)@ == color_store(old(self)@, s as int, v.deep_view()),
    {
        self.found.set(s, Some(v));
        self.derived.set(s, false);
        assert(self.found.deep_view() =~= old(self).found.deep_view().update(s as int, Some(v.deep_view())));
    }

    fn open(&mut self, t: &XmlTag, empty: bool)
        requires
            old(self).wf(),
        ensures
            final(self).wf(),
            final(self)@ == color_open(old(self)@, t.deep_view(), empty),
    {
        let name = t.name.as_str();
        match slot_index(name) {
            Some(i) => {
                self.current = Some(i);
                self.srgb_open = false;
                return;
            },
            None => {},
        }
        let s = match self.current {
            Some(s) => s,
            None => return,
        };
        if str_eq(name, "srgbClr") {
            match find_hex_attr(t, "val") {
                Some(v) => {
                    self.store(s, ColorValue::Hex(hash_hex_string(v.as_str())));
                    self.srgb_open = !empty;
                },
                None => {
                    self.srgb_open = false;
                },
            }
        } else if str_eq(name, "sysClr") {
            match find_hex_attr(t, "lastClr") {
                Some(v) => self.store(s, ColorValue::Hex(hash_hex_string(v.as_str()))),
                None => {},
            }
        } else if str_eq(name, "schemeClr") {
            match find_attr(t, "val") {
                Some(v) => self.store(s, ColorValue::SchemeRef(to_lowercase(v.as_str()))),
                None => {},
            }
        } else if (str_eq(name, "lumMod") || str_eq(name, "lumOff") || str_eq(name, "tint")
            || str_eq(name, "shade")) && self.srgb_open {
            self.derived.set(s, true);
        }
    }

    fn step(&mut self, ev: &XmlEvent)
        requires
            old(self).wf(),
        ensures
            final(self).wf(),
            final(self)@ == color_step(old(self)@, ev.deep_view()),
    {
        match ev {
            XmlEvent::Start(t) => self.open(t, false),
            XmlEvent::Empty(t) => self.open(t, true),
            XmlEvent::End(n) => {
                let closes_slot = match self.current {
                    Some(s) => str_eq(n.as_str(), slot_name_str(s)),
                    None => false,
                };
                if closes_slot {
                    self.current = None;
                    self.srgb_open = false;
                } else if str_eq(n.as_str(), "srgbClr") {
                    self.srgb_open = false;
                }
            },
            _ => {},
        }
    }
}

/// Interpret the events of `theme1.xml`: the 12 color slots and one
/// `MissingColorSlot` warning per slot without a valid color.
pub fn theme_colors_from_events(evs: &Vec<XmlEvent>) -> (r: ([ColorSlot; 12], Vec<BrandError>))
    ensures
        r.0@.map_values(|c: ColorSlot| c.deep_view()) == theme_colors_of(evs.deep_view()).0,
        r.1.deep_view() == theme_colors_of(evs.deep_view()).1,
{
    let mut st = ColorPass {
        found: vec![None, None, None, None, None, None, None, None, None, None, None, None],
        derived: vec![false, false, false, false, false, false, false, false, false, false, false, false],
        current: None,
        srgb_open: false,
    };
    assert(st@.found =~= color_init().found);
    assert(st@.derived =~= color_init().derived);
    let n = evs.len();
    let mut i: usize = 0;
    while i < n
        invariant
            n == evs.len(),
            i <= n,
            st.wf(),
            st@ == color_run(evs.deep_view(), i as nat),
        decreases n - i,
    {
        st.step(&evs[i]);
        i = i + 1;
    }
    let ghost fin = st@;
    let mut warnings: Vec<BrandError> = Vec::new();
    let mut slots: Vec<ColorSlot> = Vec::new();
    let mut k: usize = 0;
    while k < 12
        invariant
            k <= 12,
            st.wf(),
            fin == st@,
            slots.len() == k,
            forall|j: int| 0 <= j < k ==> (#[trigger] slots@[j]).deep_view() == color_slot_of(fin, j),
            warnings.deep_view() == missing_warnings(fin.found, k as nat),
        decreases 12 - k,
    {
        let name = slot_name_str(k);
        let slot = match &st.found[k] {
            Some(v) => ColorSlot { name: String::from_str(name), value: copy_color_value(v), is_derived: st.derived[k] },
            None => {
                warnings.push(BrandError::MissingColorSlot {
                    slot_name: String::from_str(name),
                    inferred_hex: default_color_for_slot(name),
                    derivation: String::from_str("default inference"),
                });
                ColorSlot {
                    name: String::from_str(name),
                    value: default_color_value_for_slot(name),
                    is_derived: false,
                }
            },
        };
        slots.push(slot);
        k = k + 1;
    }
    let arr = [
        slots.remove(0), slots.remove(0), slots.remove(0), slots.remove(0),
        slots.remove(0), slots.remove(0), slots.remove(0), slots.remove(0),
        slots.remove(0), slots.remove(0), slots.remove(0), slots.remove(0),
    ];
    assert(arr@.map_values(|c: ColorSlot| c.deep_view()) =~= theme_colors_of(evs.deep_view()).0);
    (arr, warnings)
}

/// Parse the 12 OOXML theme color slots from `theme1.xml` bytes.
///
/// Always succeeds: malformed XML ends the reading, and every slot without a
/// valid color gets its default with a `MissingColorSlot` warning.
pub fn parse_theme_colors(xml_bytes: &[u8]) -> (r: Result<([ColorSlot; 12], Vec<BrandError>), BrandError>)
    ensures
        r matches Ok((slots, warnings)) && slots@.map_values(|c: ColorSlot| c.deep_view())
            == theme_colors_of(xml_events_of(xml_bytes@, true)).0
            && warnings.deep_view() == theme_colors_of(xml_events_of(xml_bytes@, true)).1,
{
    let evs = xml_events(xml_bytes, true);
    Ok(theme_colors_from_events(&evs))
}

// ─── Laws ────────────────────────────────────────────────────────────────────

/// Whether `c` is `0`-`9` or `A`-`F`.
pub open spec fn is_upper_hex_digit(c: char) -> bool {
    ('0' <= c && c <= '9') || ('A' <= c && c <= 'F')
}

/// Whether `s` is a hex color in canonical form: `#` and six uppercase hex digits.
pub open spec fn is_hex_color(s: Seq<char>) -> bool {
    s.len() == 7 && s[0] == '#' && forall|i: int| 1 <= i < 7 ==> is_upper_hex_digit(#[trigger] s[i])
}

/// Uppercasing six hex digits behind `#` gives a canonical hex color.
pub proof fn lemma_hash_hex_is_hex_color(v: Seq<char>)
    requires
        is_hex6(v),
    ensures
        is_hex_color(hash_hex(v)),
{
    let h = hash_hex(v);
    assert forall|i: int| 1 <= i < 7 implies is_upper_hex_digit(#[trigger] h[i]) by {
        assert(h[i] == upper_hex_digit(v[i - 1]));
        assert(is_hex_digit(v[i - 1]));
    }
}

/// The default color of every slot is a canonical hex color.
pub proof fn lemma_default_color_is_hex_color(slot: Seq<char>)
    ensures
        is_hex_color(default_color(slot)),
{
    reveal_strlit("#404040");
    reveal_strlit("#F0F0F0");
    reveal_strlit("#D0D0D0");
    reveal_strlit("#0000EE");
    reveal_strlit("#808080");
}

proof fn lemma_last_hex_attr_is_hex6(attrs: Seq<AttrV>, key: Seq<char>)
    ensures
        last_hex_attr(attrs, key) matches Some(v) ==> is_hex6(v),
    decreases attrs.len(),
{
    if attrs.len() > 0 {
        lemma_last_hex_attr_is_hex6(attrs.drop_last(), key);
    }
}

/// What every state of the pass keeps: 12 slots, and each hex found is canonical.
pub open spec fn color_state_wf(st: ColorState) -> bool {
    &&& st.found.len() == 12
    &&& st.derived.len() == 12
    &&& st.current matches Some(c) ==> 0 <= c < 12
    &&& forall|i: int| 0 <= i < 12 ==> match #[trigger] st.found[i] {
        Some(ColorValueV::Hex(h)) => is_hex_color(h),
        _ => true,
    }
}

proof fn lemma_color_step_wf(st: ColorState, ev: EventV)
    requires
        color_state_wf(st),
    ensures
        color_state_wf(color_step(st, ev)),
{
    match ev {
        EventV::Start(t) => {
            lemma_last_hex_attr_is_hex6(t.attrs, "val"@);
            lemma_last_hex_attr_is_hex6(t.attrs, "lastClr"@);
            if let Some(v) = last_hex_attr(t.attrs, "val"@) {
                lemma_hash_hex_is_hex_color(v);
            }
            if let Some(v) = last_hex_attr(t.attrs, "lastClr"@) {
                lemma_hash_hex_is_hex_color(v);
            }
        },
        EventV::Empty(t) => {
            lemma_last_hex_attr_is_hex6(t.attrs, "val"@);
            lemma_last_hex_attr_is_hex6(t.attrs, "lastClr"@);
            if let Some(v) = last_hex_attr(t.attrs, "val"@) {
                lemma_hash_hex_is_hex_color(v);
            }
            if let Some(v) = last_hex_attr(t.attrs, "lastClr"@) {
                lemma_hash_hex_is_hex_color(v);
            }
        },
        _ => {},
    }
}

proof fn lemma_color_run_wf(evs: Seq<EventV>, n: nat)
    requires
        n <= evs.len(),
    ensures
        color_state_wf(color_run(evs, n)),
    decreases n,
{
    if n > 0 {
        lemma_color_run_wf(evs, (n - 1) as nat);
        lemma_color_step_wf(color_run(evs, (n - 1) as nat), evs[n - 1]);
    }
}

proof fn lemma_missing_warnings_origin(found: Seq<Option<ColorValueV>>, n: nat)
    requires
        n <= found.len(),
    ensures
        missing_warnings(found, n).len() <= n,
        forall|k: int| 0 <= k < missing_warnings(found, n).len() ==> exists|i: int|
            0 <= i < n && found[i] is None && #[trigger] missing_warnings(found, n)[k] == missing_slot_warning(i),
    decreases n,
{
    if n > 0 {
        lemma_missing_warnings_origin(found, (n - 1) as nat);
        let w = missing_warnings(found, (n - 1) as nat);
        assert forall|k: int| 0 <= k < missing_warnings(found, n).len() implies exists|i: int|
            0 <= i < n && found[i] is None && #[trigger] missing_warnings(found, n)[k] == missing_slot_warning(i) by {
            if k < w.len() {
                assert(missing_warnings(found, n)[k] == w[k]);
                let i = choose|i: int| 0 <= i < n - 1 && found[i] is None && w[k] == missing_slot_warning(i);
                assert(0 <= i < n && found[i] is None && missing_warnings(found, n)[k] == missing_slot_warning(i));
            } else {
                assert(missing_warnings(found, n)[k] == missing_slot_warning(n - 1));
            }
        }
    }
}

/// The colors read from any `theme1.xml` are the 12 slots in ECMA-376 order,
/// each holding a canonical `#RRGGBB` hex color (uppercase digits) or a
/// scheme reference; every warning is an `E-BRD-003` for one slot that the
/// theme does not define, which then holds its default color.
pub proof fn lemma_theme_colors_well_formed(evs: Seq<EventV>)
    ensures
        theme_colors_of(evs).0.len() == 12,
        forall|i: int| 0 <= i < 12 ==> (#[trigger] theme_colors_of(evs).0[i]).name == slot_name(i),
        forall|i: int| 0 <= i < 12 ==> match (#[trigger] theme_colors_of(evs).0[i]).value {
            ColorValueV::Hex(h) => is_hex_color(h),
            ColorValueV::SchemeRef(_) => true,
        },
        theme_colors_of(evs).1.len() <= 12,
        forall|k: int| 0 <= k < theme_colors_of(evs).1.len() ==> exists|i: int|
            0 <= i < 12 && #[trigger] theme_colors_of(evs).1[k] == missing_slot_warning(i)
                && theme_colors_of(evs).0[i].value == ColorValueV::Hex(default_color(slot_name(i))),
{
    let st = color_run(evs, evs.len());
    lemma_color_run_wf(evs, evs.len());
    let r = theme_colors_of(evs);
    assert forall|i: int| 0 <= i < 12 implies match (#[trigger] r.0[i]).value {
        ColorValueV::Hex(h) => is_hex_color(h),
        ColorValueV::SchemeRef(_) => true,
    } by {
        assert(r.0[i] == color_slot_of(st, i));
        lemma_default_color_is_hex_color(slot_name(i));
    }
    lemma_missing_warnings_origin(st.found, 12);
    assert forall|k: int| 0 <= k < r.1.len() implies exists|i: int|
        0 <= i < 12 && #[trigger] r.1[k] == missing_slot_warning(i) && r.0[i].value == ColorValueV::Hex(
            default_color(slot_name(i)),
        ) by {
        let i = choose|i: int| 0 <= i < 12 && st.found[i] is None && #[trigger] missing_warnings(st.found, 12)[k]
            == missing_slot_warning(i);
        assert(r.0[i] == color_slot_of(st, i));
    }
}

} // verus!
