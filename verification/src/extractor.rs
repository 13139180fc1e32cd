//! Brand extraction: turning a loaded template into `brand.toml` text.
//!
//! The `brand.toml` text is built by hand, not by a TOML serializer, so that
//! the 12 color slots appear in ECMA-376 order, the sections in the order
//! `[colors]`, `[fonts]`, `[logo]`, `[footer]`, and `folHlink` under its TOML
//! name `fol_hlink`. A slot whose color is derived (a scheme reference, or an
//! `srgbClr` with transforms) carries the inline comment
//! `# derived via tint/shade; may not match exact color`.
use vstd::prelude::*;

use crate::color::{default_color, default_color_for_slot};
use crate::error::{BrandError, BrandErrorV};
use crate::template::{
    colors_view, BrandTemplate, ColorSlot, ColorSlotV, ColorValue, ColorValueV, LogoAsset,
    LogoAssetV,
};
use crate::text::{ascii_lower_is, eq_ascii_lower, hex_digit, hex_digit_str};

verus! {

// ─── Scheme references ───────────────────────────────────────────────────────

/// The slot that a `schemeClr` name refers to, compared ASCII-case-insensitively:
/// `dk1`, `lt1`, `dk2`, `lt2`, `accent1`-`accent6` (or `acc1`-`acc6`),
/// `hlink` (or `hyperlink`), `folhlink` (or `followedhyperlink`).
/// Color-map mnemonics (`tx1`, `bg1`, ...) and `phClr` refer to no slot.
pub open spec fn scheme_slot_index(name: Seq<char>) -> Option<int> {
    if ascii_lower_is(name, "dk1"@) { Some(0) }
    else if ascii_lower_is(name, "lt1"@) { Some(1) }
    else if ascii_lower_is(name, "dk2"@) { Some(2) }
    else if ascii_lower_is(name, "lt2"@) { Some(3) }
    else if ascii_lower_is(name, "accent1"@) || ascii_lower_is(name, "acc1"@) { Some(4) }
    else if ascii_lower_is(name, "accent2"@) || ascii_lower_is(name, "acc2"@) { Some(5) }
    else if ascii_lower_is(name, "accent3"@) || ascii_lower_is(name, "acc3"@) { Some(6) }
    else if ascii_lower_is(name, "accent4"@) || ascii_lower_is(name, "acc4"@) { Some(7) }
    else if ascii_lower_is(name, "accent5"@) || ascii_lower_is(name, "acc5"@) { Some(8) }
    else if ascii_lower_is(name, "accent6"@) || ascii_lower_is(name, "acc6"@) { Some(9) }
    else if ascii_lower_is(name, "hlink"@) || ascii_lower_is(name, "hyperlink"@) { Some(10) }
    else if ascii_lower_is(name, "folhlink"@) || ascii_lower_is(name, "followedhyperlink"@) { Some(11) }
    else { None }
}

/// The slot index (ECMA-376 order) that a `schemeClr` name refers to.
pub fn scheme_name_to_slot_index(scheme_name: &str) -> (r: Option<usize>)
    ensures
        r matches Some(i) ==> scheme_slot_index(scheme_name@) == Some(i as int),
        r is None ==> scheme_slot_index(scheme_name@) is None,
{
    let s = scheme_name;
    if eq_ascii_lower(s, "dk1") { Some(0) }
    else if eq_ascii_lower(s, "lt1") { Some(1) }
    else if eq_ascii_lower(s, "dk2") { Some(2) }
    else if eq_ascii_lower(s, "lt2") { Some(3) }
    else if eq_ascii_lower(s, "accent1") || eq_ascii_lower(s, "acc1") { Some(4) }
    else if eq_ascii_lower(s, "accent2") || eq_ascii_lower(s, "acc2") { Some(5) }
    else if eq_ascii_lower(s, "accent3") || eq_ascii_lower(s, "acc3") { Some(6) }
    else if eq_ascii_lower(s, "accent4") || eq_ascii_lower(s, "acc4") { Some(7) }
    else if eq_ascii_lower(s, "accent5") || eq_ascii_lower(s, "acc5") { Some(8) }
    else if eq_ascii_lower(s, "accent6") || eq_ascii_lower(s, "acc6") { Some(9) }
    else if eq_ascii_lower(s, "hlink") || eq_ascii_lower(s, "hyperlink") { Some(10) }
    else if eq_ascii_lower(s, "folhlink") || eq_ascii_lower(s, "followedhyperlink") { Some(11) }
    else { None }
}

/// One level of scheme-reference resolution: the hex of the referenced slot,
/// unless the name refers to no slot, to the slot itself, or to a slot that
/// is itself a scheme reference.
pub open spec fn scheme_resolution(name: Seq<char>, self_index: int, colors: Seq<ColorSlotV>) -> Option<Seq<char>> {
    match scheme_slot_index(name) {
        Some(t) => if t == self_index {
            None
        } else {
            match colors[t].value {
                ColorValueV::Hex(h) => Some(h),
                ColorValueV::SchemeRef(_) => None,
            }
        },
        None => None,
    }
}

/// Resolve the scheme reference `scheme_name` of slot `self_index` to the base
/// hex of the slot it names (one level only).
pub fn resolve_scheme_ref<'a>(scheme_name: &str, self_index: usize, colors: &'a [ColorSlot; 12]) -> (r: Option<&'a str>)
    ensures
        match scheme_resolution(scheme_name@, self_index as int, colors_view(*colors)) {
            Some(h) => r matches Some(s) && s@ == h,
            None => r is None,
        },
{
    let target = scheme_name_to_slot_index(scheme_name);
    match target {
        None => None,
        Some(t) => {
            if t == self_index {
                None
            } else {
                assert(colors_view(*colors)[t as int] == colors[t as int].deep_view());
                colors[t].value.as_hex()
            }
        },
    }
}

// ─── TOML strings ────────────────────────────────────────────────────────────

/// Four uppercase hex digits of `n` (`0 <= n < 0x10000`).
pub open spec fn hex4(n: int) -> Seq<char> {
    seq![hex_digit((n / 4096) % 16), hex_digit((n / 256) % 16), hex_digit((n / 16) % 16), hex_digit(n % 16)]
}

/// How one character is written inside a TOML basic string: backslash and
/// double quote are escaped, `\n`, `\r`, `\t` get their short escapes, other
/// control characters (below U+0020, and U+007F) become `\uXXXX`.
pub open spec fn toml_escape_char(c: char) -> Seq<char> {
    if c == '\\' { seq!['\\', '\\'] }
    else if c == '"' { seq!['\\', '"'] }
    else if c == '\n' { seq!['\\', 'n'] }
    else if c == '\r' { seq!['\\', 'r'] }
    else if c == '\t' { seq!['\\', 't'] }
    else if (c as u32) < 0x20 || c as u32 == 0x7F { seq!['\\', 'u'] + hex4(c as u32 as int) }
    else { seq![c] }
}

/// `s` escaped for a TOML basic string.
pub open spec fn toml_escaped(s: Seq<char>) -> Seq<char>
    decreases s.len(),
{
    if s.len() == 0 {
        Seq::empty()
    } else {
        toml_escaped(s.drop_last()) + toml_escape_char(s.last())
    }
}

/// Append the escaped form of character `i` of `s` to `out`.
fn push_escaped_char(out: &mut String, s: &str, i: usize)
    requires
        i < s@.len(),
    ensures
        final(out)@ == old(out)@ + toml_escape_char(s@[i as int]),
{
    let c = s.get_char(i);
    if c == '\\' {
        out.append("\\\\");
        proof { reveal_strlit("\\\\"); }
    } else if c == '"' {
        out.append("\\\"");
        proof { reveal_strlit("\\\""); }
    } else if c == '\n' {
        out.append("\\n");
        proof { reveal_strlit("\\n"); }
    } else if c == '\r' {
        out.append("\\r");
        proof { reveal_strlit("\\r"); }
    } else if c == '\t' {
        out.append("\\t");
        proof { reveal_strlit("\\t"); }
    } else if (c as u32) < 0x20 || c as u32 == 0x7F {
        let n: u32 = c as u32;
        out.append("\\u00");
        out.append(hex_digit_str(n / 16));
        out.append(hex_digit_str(n % 16));
        proof {
            reveal_strlit("\\u00");
            let ni = n as int;
            assert((ni / 4096) % 16 == 0);
            assert((ni / 256) % 16 == 0);
            assert((ni / 16) % 16 == ni / 16);
            assert(seq!['\\', 'u'] + hex4(ni) =~= "\\u00"@ + seq![hex_digit(ni / 16)] + seq![hex_digit(ni % 16)]);
        }
    } else {
        let n = s.unicode_len();
        assert(i < n);
        out.append(s.substring_char(i, i + 1));
        assert(s@.subrange(i as int, i + 1) =~= seq![c]);
    }
}

/// Escape `s` for a TOML basic string.
pub fn toml_escape(s: &str) -> (r: String)
    ensures
        r@ == toml_escaped(s@),
{
    let n = s.unicode_len();
    let mut out = String::new();
    let mut i: usize = 0;
    assert(s@.subrange(0, 0) =~= Seq::<char>::empty());
    while i < n
        invariant
            n == s@.len(),
            i <= n,
            out@ == toml_escaped(s@.subrange(0, i as int)),
        decreases n - i,
    {
        push_escaped_char(&mut out, s, i);
        assert(s@.subrange(0, i + 1).drop_last() =~= s@.subrange(0, i as int));
        i = i + 1;
    }
    assert(s@.subrange(0, n as int) =~= s@);
    out
}

/// The value of a hex digit (either case).
pub open spec fn hex_value(c: char) -> int {
    if '0' <= c && c <= '9' {
        c as int - '0' as int
    } else if 'A' <= c && c <= 'F' {
        c as int - 'A' as int + 10
    } else if 'a' <= c && c <= 'f' {
        c as int - 'a' as int + 10
    } else {
        0
    }
}

/// The content of a TOML basic string with its escapes (`\\`, `\"`, `\n`,
/// `\r`, `\t`, `\uXXXX`) decoded, as a TOML reader decodes them.
pub open spec fn toml_unescaped(s: Seq<char>) -> Seq<char>
    decreases s.len(),
{
    if s.len() == 0 {
        Seq::empty()
    } else if s[0] == '\\' && s.len() >= 2 && (s[1] == '\\' || s[1] == '"' || s[1] == 'n' || s[1] == 'r' || s[1] == 't') {
        let d = if s[1] == '\\' {
            '\\'
        } else if s[1] == '"' {
            '"'
        } else if s[1] == 'n' {
            '\n'
        } else if s[1] == 'r' {
            '\r'
        } else {
            '\t'
        };
        seq![d] + toml_unescaped(s.subrange(2, s.len() as int))
    } else if s[0] == '\\' && s.len() >= 6 && s[1] == 'u' {
        let v = hex_value(s[2]) * 4096 + hex_value(s[3]) * 256 + hex_value(s[4]) * 16 + hex_value(s[5]);
        seq![(v as u32) as char] + toml_unescaped(s.subrange(6, s.len() as int))
    } else {
        seq![s[0]] + toml_unescaped(s.subrange(1, s.len() as int))
    }
}

proof fn lemma_escaped_cons(c: char, s: Seq<char>)
    ensures
        toml_escaped(seq![c] + s) == toml_escape_char(c) + toml_escaped(s),
    decreases s.len(),
{
    if s.len() == 0 {
        assert(seq![c] + s =~= seq![c]);
        assert((seq![c] + s).drop_last() =~= Seq::<char>::empty());
        assert(toml_escaped(Seq::<char>::empty()) =~= Seq::<char>::empty());
        assert(toml_escaped(s) =~= Seq::<char>::empty());
        assert(toml_escaped(seq![c] + s) == toml_escaped((seq![c] + s).drop_last()) + toml_escape_char(c));
        assert(toml_escaped(seq![c] + s) =~= toml_escape_char(c) + toml_escaped(s));
    } else {
        lemma_escaped_cons(c, s.drop_last());
        let cs = seq![c] + s;
        assert(cs.drop_last() =~= seq![c] + s.drop_last());
        assert(cs.last() == s.last());
        assert(toml_escaped(cs) == toml_escaped(cs.drop_last()) + toml_escape_char(cs.last()));
        assert(toml_escaped(s) == toml_escaped(s.drop_last()) + toml_escape_char(s.last()));
        assert(toml_escaped(cs) =~= toml_escape_char(c) + toml_escaped(s));
    }
}

proof fn lemma_hex_value_of_digit(d: int)
    requires
        0 <= d < 16,
    ensures
        hex_value(hex_digit(d)) == d,
{
}

proof fn lemma_unescape_char(c: char, rest: Seq<char>)
    ensures
        toml_unescaped(toml_escape_char(c) + rest) == seq![c] + toml_unescaped(rest),
{
    let e = toml_escape_char(c);
    let s = e + rest;
    if c == '\\' || c == '"' || c == '\n' || c == '\r' || c == '\t' {
        assert(s.subrange(2, s.len() as int) =~= rest);
    } else if (c as u32) < 0x20 || c as u32 == 0x7F {
        let n = c as u32 as int;
        assert((n / 4096) % 16 == 0);
        assert((n / 256) % 16 == 0);
        lemma_hex_value_of_digit(0);
        lemma_hex_value_of_digit((n / 16) % 16);
        lemma_hex_value_of_digit(n % 16);
        assert(s[2] == hex_digit(0));
        assert(s[3] == hex_digit(0));
        assert(s[4] == hex_digit((n / 16) % 16));
        assert(s[5] == hex_digit(n % 16));
        assert(s.subrange(6, s.len() as int) =~= rest);
        assert(((n / 16) % 16) * 16 + n % 16 == n);
        assert(((n as u32) as char) == c);
    } else {
        assert(s.subrange(1, s.len() as int) =~= rest);
    }
    assert(toml_unescaped(s) =~= seq![c] + toml_unescaped(rest));
}

/// TOML escaping round-trips: decoding the escaped form of any string gives
/// the string back, so font names and footer text written to `brand.toml`
/// read back unchanged.
pub proof fn lemma_toml_escape_round_trip(s: Seq<char>)
    ensures
        toml_unescaped(toml_escaped(s)) == s,
    decreases s.len(),
{
    if s.len() > 0 {
        let c = s[0];
        let rest = s.subrange(1, s.len() as int);
        assert(s =~= seq![c] + rest);
        lemma_escaped_cons(c, rest);
        lemma_unescape_char(c, toml_escaped(rest));
        lemma_toml_escape_round_trip(rest);
    } else {
        assert(toml_escaped(s) =~= Seq::<char>::empty());
    }
}

// ─── brand.toml ──────────────────────────────────────────────────────────────

/// The TOML key of slot `i` (`fol_hlink` for `folHlink`).
pub open spec fn toml_field(i: int) -> Seq<char> {
    if i == 0 { "dk1"@ }
    else if i == 1 { "lt1"@ }
    else if i == 2 { "dk2"@ }
    else if i == 3 { "lt2"@ }
    else if i == 4 { "acc1"@ }
    else if i == 5 { "acc2"@ }
    else if i == 6 { "acc3"@ }
    else if i == 7 { "acc4"@ }
    else if i == 8 { "acc5"@ }
    else if i == 9 { "acc6"@ }
    else if i == 10 { "hlink"@ }
    else { "fol_hlink"@ }
}

fn toml_field_str(i: usize) -> (s: &'static str)
    requires
        i < 12,
    ensures
        s@ == toml_field(i as int),
{
    if i == 0 { "dk1" }
    else if i == 1 { "lt1" }
    else if i == 2 { "dk2" }
    else if i == 3 { "lt2" }
    else if i == 4 { "acc1" }
    else if i == 5 { "acc2" }
    else if i == 6 { "acc3" }
    else if i == 7 { "acc4" }
    else if i == 8 { "acc5" }
    else if i == 9 { "acc6" }
    else if i == 10 { "hlink" }
    else { "fol_hlink" }
}

/// The inline comment of a derived color.
pub open spec fn derived_comment() -> Seq<char> {
    " # derived via tint/shade; may not match exact color"@
}

/// The hex written for slot `i`: its own hex; for a scheme reference, the
/// resolved hex, or the slot's default when it does not resolve.
pub open spec fn written_hex(i: int, colors: Seq<ColorSlotV>) -> Seq<char> {
    match colors[i].value {
        ColorValueV::Hex(h) => h,
        ColorValueV::SchemeRef(n) => match scheme_resolution(n, i, colors) {
            Some(h) => h,
            None => default_color(colors[i].name),
        },
    }
}

/// Whether slot `i` is written with the derived-color comment.
pub open spec fn written_derived(i: int, colors: Seq<ColorSlotV>) -> bool {
    colors[i].value is SchemeRef || colors[i].is_derived
}

/// The line of slot `i` in `[colors]`.
pub open spec fn color_line(i: int, colors: Seq<ColorSlotV>) -> Seq<char> {
    toml_field(i) + " = \""@ + written_hex(i, colors) + "\""@
        + (if written_derived(i, colors) { derived_comment() } else { Seq::empty() }) + "\n"@
}

/// The lines of the first `k` slots.
pub open spec fn color_lines(colors: Seq<ColorSlotV>, k: nat) -> Seq<char>
    decreases k,
{
    if k == 0 {
        Seq::empty()
    } else {
        color_lines(colors, (k - 1) as nat) + color_line(k - 1, colors)
    }
}

/// What `Path::extension` returns for `path` (with the path separators of
/// the platform the library is built for).
pub uninterp spec fn path_extension_of(path: Seq<char>) -> Option<Seq<char>>;

/// `Path::new(path).extension()`, as a string.
///
/// Trusted: the result is what the standard library's `Path::extension`
/// returns (the part of the last path component after its last `.`, if the
/// component has a `.` that is not its first character), claimed to depend on
/// `path` alone; a non-UTF-8 extension cannot arise from a `&str`.
#[verifier::external_body]
pub(crate) fn path_extension(path: &str) -> (r: Option<String>)
    ensures
        r.deep_view() == path_extension_of(path@),
{
    std::path::Path::new(path).extension().and_then(|e| e.to_str()).map(str::to_owned)
}

/// The relative path under which a loaded logo is written:
/// `brand.assets/logo.<ext>`, `<ext>` being the extension of the logo's
/// package path (`bin` when it has none). A deferred logo has none.
pub open spec fn logo_relative_path(logo: Option<LogoAssetV>) -> Option<Seq<char>> {
    match logo {
        Some(LogoAssetV::Loaded { original_path, .. }) => Some(
            "brand.assets/logo."@ + match path_extension_of(original_path) {
                Some(e) => e,
                None => "bin"@,
            },
        ),
        _ => None,
    }
}

/// The `brand.toml` text of a template.
pub open spec fn brand_toml_text(
    colors: Seq<ColorSlotV>,
    heading: Seq<char>,
    body: Seq<char>,
    logo_path: Option<Seq<char>>,
    footer_text: Option<Seq<char>>,
) -> Seq<char> {
    "[colors]\n"@ + color_lines(colors, 12) + "\n"@
        + "[fonts]\n"@ + "heading = \""@ + toml_escaped(heading) + "\"\n"@
        + "body = \""@ + toml_escaped(body) + "\"\n"@
        + match logo_path {
            Some(p) => "\n"@ + "[logo]\n"@ + "path = \""@ + p + "\"\n"@,
            None => Seq::empty(),
        }
        + match footer_text {
            Some(f) => if f.len() > 0 {
                "\n"@ + "[footer]\n"@ + "text = \""@ + toml_escaped(f) + "\"\n"@
            } else {
                Seq::empty()
            },
            None => Seq::empty(),
        }
}

/// Append the `[colors]` line of slot `i`.
fn push_color_line(out: &mut String, colors: &[ColorSlot; 12], i: usize)
    requires
        i < 12,
    ensures
        final(out)@ == old(out)@ + color_line(i as int, colors_view(*colors)),
{
    let ghost cv = colors_view(*colors);
    assert(cv[i as int] == colors[i as int].deep_view());
    let slot = &colors[i];
    out.append(toml_field_str(i));
    out.append(" = \"");
    let derived: bool;
    match &slot.value {
        ColorValue::Hex(h) => {
            out.append(h.as_str());
            derived = slot.is_derived;
        },
        ColorValue::SchemeRef(n) => {
            match resolve_scheme_ref(n.as_str(), i, colors) {
                Some(h) => {
                    out.append(h);
                },
                None => {
                    let d = default_color_for_slot(slot.name.as_str());
                    out.append(d.as_str());
                },
            }
            derived = true;
        },
    }
    out.append("\"");
    if derived {
        out.append(" # derived via tint/shade; may not match exact color");
    }
    out.append("\n");
    assert(derived == written_derived(i as int, cv));
    assert(final(out)@ =~= old(out)@ + color_line(i as int, cv));
}

/// The `brand.toml` text of `template`, with the relative path its logo is
/// written to (the second element; `None` without a loaded logo).
///
/// Sections: `[colors]` (12 slots in ECMA-376 order), `[fonts]`, `[logo]`
/// (only with a loaded logo), `[footer]` (only with non-empty footer text).
/// Font names and footer text are escaped for TOML basic strings.
pub fn brand_template_to_toml(template: &BrandTemplate, logo: Option<&LogoAsset>) -> (r: (String, Option<String>))
    ensures
        ({
            let lv = match logo {
                Some(l) => Some(l.deep_view()),
                None => None,
            };
            &&& r.1.deep_view() == logo_relative_path(lv)
            &&& r.0@ == brand_toml_text(
                colors_view(template.colors),
                template.fonts.heading@,
                template.fonts.body@,
                logo_relative_path(lv),
                template.footer_text.deep_view(),
            )
        }),
{
    let ghost cv = colors_view(template.colors);
    let mut out = String::new();
    out.append("[colors]\n");
    let mut i: usize = 0;
    while i < 12
        invariant
            i <= 12,
            cv == colors_view(template.colors),
            out@ == "[colors]\n"@ + color_lines(cv, i as nat),
        decreases 12 - i,
    {
        push_color_line(&mut out, &template.colors, i);
        i = i + 1;
    }
    out.append("\n");
    out.append("[fonts]\n");
    out.append("heading = \"");
    let eh = toml_escape(template.fonts.heading.as_str());
    out.append(eh.as_str());
    out.append("\"\n");
    out.append("body = \"");
    let eb = toml_escape(template.fonts.body.as_str());
    out.append(eb.as_str());
    out.append("\"\n");
    let ghost fonts_part = out@;

    let rel: Option<String> = match logo {
        Some(LogoAsset::Loaded { original_path, .. }) => {
            let mut p = String::from_str("brand.assets/logo.");
            match path_extension(original_path.as_str()) {
                Some(e) => p.append(e.as_str()),
                None => p.append("bin"),
            }
            Some(p)
        },
        _ => None,
    };
    let ghost lv = match logo {
        Some(l) => Some(l.deep_view()),
        None => None,
    };
    assert(rel.deep_view() == logo_relative_path(lv));
    match &rel {
        Some(p) => {
            out.append("\n");
            out.append("[logo]\n");
            out.append("path = \"");
            out.append(p.as_str());
            out.append("\"\n");
        },
        None => {},
    }
    let ghost logo_part = out@;
    match &template.footer_text {
        Some(f) => {
            if f.as_str().unicode_len() > 0 {
                out.append("\n");
                out.append("[footer]\n");
                out.append("text = \"");
                let ef = toml_escape(f.as_str());
                out.append(ef.as_str());
                out.append("\"\n");
            }
        },
        None => {},
    }
    assert(out@ =~= brand_toml_text(cv, template.fonts.heading@, template.fonts.body@, logo_relative_path(lv),
        template.footer_text.deep_view()));
    (out, rel)
}

// ─── Extraction ──────────────────────────────────────────────────────────────

/// The result of a successful extraction.
#[derive(Debug, Clone, PartialEq, Eq)]
pub struct BrandExtractionResult {
    /// Path of the written `brand.toml`.
    pub brand_toml_path: String,
    /// Path of the copied logo asset, when the template has a logo.
    pub logo_asset_path: Option<String>,
}

/// What an extraction writes, once the template has been loaded.
#[derive(Debug, Clone, PartialEq, Eq)]
pub struct ExtractionPlan {
    /// The `brand.toml` text.
    pub toml_text: String,
    /// The logo bytes and the path (relative to the output directory) they are written to.
    pub logo: Option<(Vec<u8>, String)>,
}

/// Extracts a brand configuration from an existing `.pptx` template.
#[derive(Debug, Default)]
pub struct BrandExtractor;

impl BrandExtractor {
    /// Decide what extracting `template` writes.
    ///
    /// `output_exists` tells whether `brand.toml` is already present at
    /// `brand_toml_path`; without `force` that is refused with
    /// [`BrandError::OutputExists`] (`E-BRD-006`) and nothing is written.
    /// Otherwise the plan holds the `brand.toml` text and, for a loaded logo,
    /// its bytes and relative path `brand.assets/logo.<ext>`.
    pub fn plan(template: &BrandTemplate, brand_toml_path: &str, output_exists: bool, force: bool) -> (r: Result<
        ExtractionPlan,
        BrandError,
    >)
        ensures
            output_exists && !force ==> (r matches Err(e) && e.deep_view() == (BrandErrorV::OutputExists {
                path: brand_toml_path@,
            })),
            !(output_exists && !force) ==> (r matches Ok(p) && {
                let lv = match template.logo {
                    Some(l) => Some(l.deep_view()),
                    None => None,
                };
                &&& p.toml_text@ == brand_toml_text(
                    colors_view(template.colors),
                    template.fonts.heading@,
                    template.fonts.body@,
                    logo_relative_path(lv),
                    template.footer_text.deep_view(),
                )
                &&& match (lv, logo_relative_path(lv)) {
                    (Some(LogoAssetV::Loaded { bytes, .. }), Some(rp)) => p.logo matches Some(l) && l.0@ == bytes
                        && l.1@ == rp,
                    _ => p.logo is None,
                }
            }),
    {
        if output_exists && !force {
            return Err(BrandError::OutputExists { path: String::from_str(brand_toml_path) });
        }
        let (text, rel) = brand_template_to_toml(template, template.logo.as_ref());
        let logo = match (&template.logo, rel) {
            (Some(LogoAsset::Loaded { bytes, .. }), Some(rp)) => Some((bytes.clone(), rp)),
            _ => None,
        };
        Ok(ExtractionPlan { toml_text: text, logo })
    }
}

} // verus!
