//! Logo extraction from the slide master relationships of a `.pptx`.
//!
//! [`extract_logo`] reads `ppt/slideMasters/_rels/slideMaster1.xml.rels`,
//! takes the first relationship whose `Type` ends in `/image`, resolves its
//! `Target` against `ppt/slideMasters/`, and reads the image from the package.
//! No image relationship means no logo; that is not an error.
use vstd::prelude::*;

use crate::archive::{zip_entry, zip_entry_of, ZipEntry, ZipEntryV};
use crate::color::{find_attr, last_attr, lowercase_of, to_lowercase};
use crate::template::{LogoAsset, LogoAssetV};
use crate::text::{ascii_lowered, ends_with, is_ascii_text, lemma_ascii_lowered_idempotent, starts_with, str_ends_with, str_eq};
use crate::xml::{xml_events, xml_events_of, EventV, TagV, XmlEvent};

verus! {

/// Package path of the relationships of slide master 1.
pub const SLIDE_MASTER_RELS_PATH: &'static str = "ppt/slideMasters/_rels/slideMaster1.xml.rels";

// ─── Relationships ───────────────────────────────────────────────────────────

/// The `Target` of a `Relationship` element whose `Type` ends in `/image`.
/// Of repeated attributes, the last with a UTF-8 value counts.
pub open spec fn rel_image_target(t: TagV) -> Option<Seq<char>> {
    if t.name == "Relationship"@ {
        match (last_attr(t.attrs, "Type"@), last_attr(t.attrs, "Target"@)) {
            (Some(rt), Some(tg)) => if ends_with(rt, "/image"@) {
                Some(tg)
            } else {
                None
            },
            _ => None,
        }
    } else {
        None
    }
}

/// The image target of the first image relationship among `evs[i..]`.
pub open spec fn image_target_from(evs: Seq<EventV>, i: int) -> Option<Seq<char>>
    decreases evs.len() - i,
{
    if i < 0 || i >= evs.len() {
        None
    } else {
        let here = match evs[i] {
            EventV::Start(t) => rel_image_target(t),
            EventV::Empty(t) => rel_image_target(t),
            _ => None,
        };
        match here {
            Some(tg) => Some(tg),
            None => image_target_from(evs, i + 1),
        }
    }
}

/// The image target of a `.rels` part (read with whitespace trimmed).
pub open spec fn image_target_of(rels_xml: Seq<u8>) -> Option<Seq<char>> {
    image_target_from(xml_events_of(rels_xml, true), 0)
}

/// The `Target` of the first relationship in `rels_xml` whose `Type` ends in `/image`.
pub fn find_image_target(rels_xml: &[u8]) -> (r: Option<String>)
    ensures
        r.deep_view() == image_target_of(rels_xml@),
{
    let evs = xml_events(rels_xml, true);
    let ghost ev = evs.deep_view();
    let n = evs.len();
    let mut i: usize = n;
    let mut found: Option<String> = None;
    // Walk backwards, so that the first match is the one that remains.
    while i > 0
        invariant
            n == evs.len(),
            ev == evs.deep_view(),
            ev == xml_events_of(rels_xml@, true),
            i <= n,
            found.deep_view() == image_target_from(ev, i as int),
        decreases i,
    {
        i = i - 1;
        let tag = match &evs[i] {
            XmlEvent::Start(t) => Some(t),
            XmlEvent::Empty(t) => Some(t),
            _ => None,
        };
        match tag {
            Some(t) => {
                assert(t.deep_view() == match ev[i as int] {
                    EventV::Start(tv) => tv,
                    EventV::Empty(tv) => tv,
                    _ => t.deep_view(),
                });
                if str_eq(t.name.as_str(), "Relationship") {
                    let rt = find_attr(t, "Type");
                    let tg = find_attr(t, "Target");
                    match (rt, tg) {
                        (Some(rt), Some(tg)) => {
                            if str_ends_with(rt.as_str(), "/image") {
                                found = Some(tg);
                            }
                        },
                        _ => {},
                    }
                }
            },
            None => {},
        }
    }
    found
}

// ─── Paths ───────────────────────────────────────────────────────────────────

/// The segments kept after seeing `seg`: `..` drops the last kept segment,
/// `.` and empty segments are skipped, any other segment is kept.
pub open spec fn apply_segment(parts: Seq<Seq<char>>, seg: Seq<char>) -> Seq<Seq<char>> {
    if seg == ".."@ {
        if parts.len() > 0 {
            parts.drop_last()
        } else {
            parts
        }
    } else if seg == "."@ || seg.len() == 0 {
        parts
    } else {
        parts.push(seg)
    }
}

/// The kept segments before the last `/` of `s`, and the segment after it.
pub open spec fn scan_segments(s: Seq<char>) -> (Seq<Seq<char>>, Seq<char>)
    decreases s.len(),
{
    if s.len() == 0 {
        (Seq::empty(), Seq::empty())
    } else {
        let prev = scan_segments(s.drop_last());
        if s.last() == '/' {
            (apply_segment(prev.0, prev.1), Seq::empty())
        } else {
            (prev.0, prev.1.push(s.last()))
        }
    }
}

/// `parts` joined with `/`.
pub open spec fn join_slash(parts: Seq<Seq<char>>) -> Seq<char>
    decreases parts.len(),
{
    if parts.len() == 0 {
        Seq::empty()
    } else if parts.len() == 1 {
        parts[0]
    } else {
        join_slash(parts.drop_last()) + "/"@ + parts.last()
    }
}

/// A `/`-separated path with `..` resolved and `.` and empty segments removed.
pub open spec fn normalized_path(s: Seq<char>) -> Seq<char> {
    let st = scan_segments(s);
    join_slash(apply_segment(st.0, st.1))
}

fn apply_segment_exec(parts: &mut Vec<String>, seg: String)
    ensures
        final(parts).deep_view() == apply_segment(old(parts).deep_view(), seg@),
{
    if str_eq(seg.as_str(), "..") {
        if parts.len() > 0 {
            parts.pop();
            assert(parts.deep_view() =~= old(parts).deep_view().drop_last());
        }
    } else if str_eq(seg.as_str(), ".") || seg.as_str().unicode_len() == 0 {
    } else {
        parts.push(seg);
        assert(parts.deep_view() =~= old(parts).deep_view().push(seg@));
    }
}

fn join_slash_exec(parts: &Vec<String>) -> (r: String)
    ensures
        r@ == join_slash(parts.deep_view()),
{
    let ghost pv = parts.deep_view();
    let mut out = String::new();
    let mut i: usize = 0;
    assert(pv.take(0) =~= Seq::<Seq<char>>::empty());
    while i < parts.len()
        invariant
            pv == parts.deep_view(),
            i <= parts.len(),
            out@ == join_slash(pv.take(i as int)),
        decreases parts.len() - i,
    {
        assert(pv.take(i + 1).drop_last() =~= pv.take(i as int));
        if i > 0 {
            out.append("/");
        }
        out.append(parts[i].as_str());
        assert(pv.take(i + 1).last() == parts[i as int]@);
        if i == 0 {
            assert(pv.take(1)[0] == parts[0]@);
            assert(out@ =~= join_slash(pv.take(1)));
        }
        i = i + 1;
    }
    assert(pv.take(parts.len() as int) =~= pv);
    out
}

/// Normalize a `/`-separated path: resolve `..`, drop `.` and empty segments.
pub fn normalize_path(path: &str) -> (r: String)
    ensures
        r@ == normalized_path(path@),
{
    let n = path.unicode_len();
    let mut parts: Vec<String> = Vec::new();
    let mut cur = String::new();
    let mut i: usize = 0;
    assert(path@.subrange(0, 0) =~= Seq::<char>::empty());
    assert(parts.deep_view() =~= Seq::<Seq<char>>::empty());
    while i < n
        invariant
            n == path@.len(),
            i <= n,
            (parts.deep_view(), cur@) == scan_segments(path@.subrange(0, i as int)),
        decreases n - i,
    {
        let c = path.get_char(i);
        assert(path@.subrange(0, i + 1).drop_last() =~= path@.subrange(0, i as int));
        assert(path@.subrange(0, i + 1).last() == c);
        if c == '/' {
            let seg = cur;
            apply_segment_exec(&mut parts, seg);
            cur = String::new();
        } else {
            cur.append(path.substring_char(i, i + 1));
            assert(path@.subrange(i as int, i + 1) =~= seq![c]);
        }
        i = i + 1;
    }
    assert(path@.subrange(0, n as int) =~= path@);
    apply_segment_exec(&mut parts, cur);
    join_slash_exec(&parts)
}

/// Where a relationship target of slide master 1 points inside the package:
/// an absolute target loses its leading `/`; a relative one is resolved
/// against `ppt/slideMasters/`.
pub open spec fn resolved_target(target: Seq<char>) -> Seq<char> {
    if target.len() > 0 && target[0] == '/' {
        target.drop_first()
    } else {
        normalized_path("ppt/slideMasters/"@ + target)
    }
}

/// Resolve a relationship `Target` of slide master 1 to a package path.
pub fn resolve_rels_target(target: &str) -> (r: String)
    ensures
        r@ == resolved_target(target@),
{
    let n = target.unicode_len();
    if n > 0 && target.get_char(0) == '/' {
        let rest = target.substring_char(1, n);
        assert(rest@ =~= target@.drop_first());
        return String::from_str(rest);
    }
    let mut combined = String::from_str("ppt/slideMasters/");
    combined.append(target);
    normalize_path(combined.as_str())
}

/// The position of the last `c` in `s`.
pub open spec fn last_index_of(s: Seq<char>, c: char) -> Option<int>
    decreases s.len(),
{
    if s.len() == 0 {
        None
    } else if s.last() == c {
        Some(s.len() - 1)
    } else {
        last_index_of(s.drop_last(), c)
    }
}

/// What follows the last `.` of `s` (empty when there is none).
pub open spec fn after_last_dot(s: Seq<char>) -> Seq<char> {
    match last_index_of(s, '.') {
        Some(d) => s.subrange(d + 1, s.len() as int),
        None => Seq::empty(),
    }
}

/// The position of the last `.` in `s`.
pub fn last_dot_index(s: &str) -> (r: Option<usize>)
    ensures
        r matches Some(k) ==> last_index_of(s@, '.') == Some(k as int) && k < s@.len(),
        r is None ==> last_index_of(s@, '.') is None,
{
    let n = s.unicode_len();
    let mut last: Option<usize> = None;
    let mut i: usize = 0;
    assert(s@.take(0) =~= Seq::<char>::empty());
    while i < n
        invariant
            n == s@.len(),
            i <= n,
            last matches Some(k) ==> last_index_of(s@.take(i as int), '.') == Some(k as int) && k < i,
            last is None ==> last_index_of(s@.take(i as int), '.') is None,
        decreases n - i,
    {
        assert(s@.take(i + 1).drop_last() =~= s@.take(i as int));
        if s.get_char(i) == '.' {
            last = Some(i);
        }
        i = i + 1;
    }
    assert(s@.take(n as int) =~= s@);
    last
}

fn after_last_dot_str(s: &str) -> (r: String)
    ensures
        r@ == after_last_dot(s@),
{
    let n = s.unicode_len();
    match last_dot_index(s) {
        Some(d) => String::from_str(s.substring_char(d + 1, n)),
        None => String::new(),
    }
}

// ─── Media types ─────────────────────────────────────────────────────────────

/// The MIME type of a lowercased file extension.
pub open spec fn media_type_of(lower_ext: Seq<char>) -> Seq<char> {
    if lower_ext == "png"@ {
        "image/png"@
    } else if lower_ext == "jpg"@ || lower_ext == "jpeg"@ {
        "image/jpeg"@
    } else if lower_ext == "gif"@ {
        "image/gif"@
    } else if lower_ext == "svg"@ {
        "image/svg+xml"@
    } else if lower_ext == "wmf"@ {
        "image/x-wmf"@
    } else if lower_ext == "emf"@ {
        "image/x-emf"@
    } else {
        "application/octet-stream"@
    }
}

/// Media-type lookup ignores the case of an ASCII extension: the type of
/// `ext` is the type of its lowercase form, so `PNG`, `Png` and `png` all give
/// `image/png`.
pub proof fn lemma_media_type_ignores_case(ext: Seq<char>)
    requires
        is_ascii_text(ext),
    ensures
        is_ascii_text(ascii_lowered(ext)),
        media_type_of(ascii_lowered(ascii_lowered(ext))) == media_type_of(ascii_lowered(ext)),
{
    lemma_ascii_lowered_idempotent(ext);
}

/// The MIME type of a file extension, compared case-insensitively
/// (`application/octet-stream` for an unknown extension).
pub fn media_type_from_extension(ext: &str) -> (r: String)
    ensures
        r@ == media_type_of(lowercase_of(ext@)),
        is_ascii_text(ext@) ==> r@ == media_type_of(ascii_lowered(ext@)),
{
    let l = to_lowercase(ext);
    let e = l.as_str();
    if str_eq(e, "png") {
        String::from_str("image/png")
    } else if str_eq(e, "jpg") || str_eq(e, "jpeg") {
        String::from_str("image/jpeg")
    } else if str_eq(e, "gif") {
        String::from_str("image/gif")
    } else if str_eq(e, "svg") {
        String::from_str("image/svg+xml")
    } else if str_eq(e, "wmf") {
        String::from_str("image/x-wmf")
    } else if str_eq(e, "emf") {
        String::from_str("image/x-emf")
    } else {
        String::from_str("application/octet-stream")
    }
}

// ─── The logo of a package ───────────────────────────────────────────────────

/// The logo of a `.pptx` package, as [`extract_logo`] finds it.
pub open spec fn logo_of(archive: Seq<u8>) -> Option<LogoAssetV> {
    match zip_entry_of(archive, SLIDE_MASTER_RELS_PATH@) {
        ZipEntryV::Bytes(rels) => match image_target_of(rels) {
            Some(t) => {
                let p = resolved_target(t);
                match zip_entry_of(archive, p) {
                    ZipEntryV::Bytes(img) => Some(
                        LogoAssetV::Loaded {
                            bytes: img,
                            media_type: media_type_of(lowercase_of(after_last_dot(p))),
                            original_path: p,
                        },
                    ),
                    _ => None,
                }
            },
            None => None,
        },
        _ => None,
    }
}

/// Extract the logo of a `.pptx` package held in memory.
///
/// `None` when the relationships part is absent or unreadable, when it has no
/// image relationship, or when the image part cannot be read.
pub fn extract_logo(archive: &[u8]) -> (r: Option<LogoAsset>)
    ensures
        match r {
            Some(l) => logo_of(archive@) == Some(l.deep_view()),
            None => logo_of(archive@) is None,
        },
{
    let rels = match zip_entry(archive, SLIDE_MASTER_RELS_PATH) {
        ZipEntry::Bytes(b) => b,
        _ => return None,
    };
    let target = match find_image_target(rels.as_slice()) {
        Some(t) => t,
        None => return None,
    };
    let resolved = resolve_rels_target(target.as_str());
    let bytes = match zip_entry(archive, resolved.as_str()) {
        ZipEntry::Bytes(b) => b,
        _ => return None,
    };
    let ext = after_last_dot_str(resolved.as_str());
    let media_type = media_type_from_extension(ext.as_str());
    Some(LogoAsset::Loaded { bytes, media_type, original_path: resolved })
}

} // verus!
