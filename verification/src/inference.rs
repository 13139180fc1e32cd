//! Declared colors of a `brand.toml` and the rules that infer absent ones.
//!
//! A declared color must be `#RRGGBB` (hex digits in either case; stored in
//! uppercase). An invalid value gives an `E-BRD-005` warning and the slot is
//! treated as absent. Each absent slot gets its color by a fixed rule:
//!
//! | Slot | Rule |
//! |------|------|
//! | `dk1` | darkest declared color by luminance; `#1F2937` without any |
//! | `lt1` | `#FFFFFF` |
//! | `dk2` | `acc1` if declared; else `dk1` lightened 20% |
//! | `lt2` | `#F9FAFB` |
//! | `acc1` | `#3B82F6` |
//! | `acc2`-`acc6` | `acc1` with its hue rotated by 30°, 60°, 90°, 120°, 150° |
//! | `hlink` | `acc1` darkened 15% |
//! | `folHlink` | `hlink` darkened 10% |
//!
//! Each inferred slot gives one `E-BRD-003` warning.
use vstd::prelude::*;

use crate::color::{hash_hex, hash_hex_string, is_hex6, is_hex6_str, is_hex_color};
use crate::error::{BrandError, BrandErrorV};
use crate::template::{slot_name, slot_name_str};
use crate::text::str_eq;
use crate::toml_schema::ColorConfig;

verus! {

// ─── Declared colors ─────────────────────────────────────────────────────────

/// Whether `v` is a valid declared color: `#` and six hex digits.
pub open spec fn is_valid_hex_decl(v: Seq<char>) -> bool {
    v.len() == 7 && v[0] == '#' && is_hex6(v.subrange(1, 7))
}

/// The stored form of a valid declared color: `#` and the digits in uppercase.
pub open spec fn normalized_hex(v: Seq<char>) -> Seq<char> {
    hash_hex(v.subrange(1, 7))
}

/// Check a declared color of slot `slot_name`: the uppercase `#RRGGBB` form,
/// or an `E-BRD-005` [`BrandError::InvalidHexColor`].
pub fn validate_hex(slot_name: &str, value: &str) -> (r: Result<String, BrandError>)
    ensures
        is_valid_hex_decl(value@) ==> (r matches Ok(h) && h@ == normalized_hex(value@)),
        !is_valid_hex_decl(value@) ==> (r matches Err(e) && e.deep_view() == (BrandErrorV::InvalidHexColor {
            slot_name: slot_name@,
            value: value@,
        })),
{
    let n = value.unicode_len();
    if n == 7 && value.get_char(0) == '#' {
        let digits = value.substring_char(1, 7);
        if is_hex6_str(digits) {
            return Ok(hash_hex_string(digits));
        }
    }
    Err(BrandError::InvalidHexColor { slot_name: String::from_str(slot_name), value: String::from_str(value) })
}

/// The value written in `brand.toml` for slot `i` (ECMA-376 order).
pub open spec fn config_value(c: ColorConfig, i: int) -> Option<Seq<char>> {
    if i == 0 { c.dk1.deep_view() }
    else if i == 1 { c.lt1.deep_view() }
    else if i == 2 { c.dk2.deep_view() }
    else if i == 3 { c.lt2.deep_view() }
    else if i == 4 { c.acc1.deep_view() }
    else if i == 5 { c.acc2.deep_view() }
    else if i == 6 { c.acc3.deep_view() }
    else if i == 7 { c.acc4.deep_view() }
    else if i == 8 { c.acc5.deep_view() }
    else if i == 9 { c.acc6.deep_view() }
    else if i == 10 { c.hlink.deep_view() }
    else { c.fol_hlink.deep_view() }
}

fn config_value_ref(c: &ColorConfig, i: usize) -> (r: &Option<String>)
    requires
        i < 12,
    ensures
        r.deep_view() == config_value(*c, i as int),
{
    if i == 0 { &c.dk1 }
    else if i == 1 { &c.lt1 }
    else if i == 2 { &c.dk2 }
    else if i == 3 { &c.lt2 }
    else if i == 4 { &c.acc1 }
    else if i == 5 { &c.acc2 }
    else if i == 6 { &c.acc3 }
    else if i == 7 { &c.acc4 }
    else if i == 8 { &c.acc5 }
    else if i == 9 { &c.acc6 }
    else if i == 10 { &c.hlink }
    else { &c.fol_hlink }
}

/// The declared color of slot `i`, if it is present and valid.
pub open spec fn declared_hex(c: ColorConfig, i: int) -> Option<Seq<char>> {
    match config_value(c, i) {
        Some(v) => if is_valid_hex_decl(v) {
            Some(normalized_hex(v))
        } else {
            None
        },
        None => None,
    }
}

/// The declared colors of all 12 slots.
pub open spec fn declared_view(c: ColorConfig) -> Seq<Option<Seq<char>>> {
    Seq::new(12, |i: int| declared_hex(c, i))
}

/// The `E-BRD-005` warnings of the first `k` slots, in slot order.
pub open spec fn invalid_hex_warnings(c: ColorConfig, k: nat) -> Seq<BrandErrorV>
    decreases k,
{
    if k == 0 {
        Seq::empty()
    } else {
        let prev = invalid_hex_warnings(c, (k - 1) as nat);
        match config_value(c, k - 1) {
            Some(v) => if is_valid_hex_decl(v) {
                prev
            } else {
                prev.push(BrandErrorV::InvalidHexColor { slot_name: slot_name(k - 1), value: v })
            },
            None => prev,
        }
    }
}

/// The views of the declared colors.
pub open spec fn opt_strings_view(v: Seq<Option<String>>) -> Seq<Option<Seq<char>>> {
    v.map_values(|o: Option<String>| o.deep_view())
}

/// The valid declared colors of the 12 slots (uppercased), and one
/// `E-BRD-005` warning per invalid value, in slot order.
pub fn declared_slots(colors: &ColorConfig) -> (r: (Vec<Option<String>>, Vec<BrandError>))
    ensures
        r.0.len() == 12,
        opt_strings_view(r.0@) == declared_view(*colors),
        r.1.deep_view() == invalid_hex_warnings(*colors, 12),
{
    let mut slots: Vec<Option<String>> = Vec::new();
    let mut warnings: Vec<BrandError> = Vec::new();
    let mut i: usize = 0;
    while i < 12
        invariant
            i <= 12,
            slots.len() == i,
            forall|j: int| 0 <= j < i ==> (#[trigger] slots@[j]).deep_view() == declared_hex(*colors, j),
            warnings.deep_view() == invalid_hex_warnings(*colors, i as nat),
        decreases 12 - i,
    {
        let v = config_value_ref(colors, i);
        let slot = match v {
            Some(s) => match validate_hex(slot_name_str(i), s.as_str()) {
                Ok(h) => Some(h),
                Err(e) => {
                    let ghost before = warnings.deep_view();
                    warnings.push(e);
                    assert(warnings.deep_view() =~= before.push(e.deep_view()));
                    None
                },
            },
            None => None,
        };
        slots.push(slot);
        i = i + 1;
    }
    assert(opt_strings_view(slots@) =~= declared_view(*colors));
    (slots, warnings)
}

// ─── Inference rules ─────────────────────────────────────────────────────────

/// How an absent color slot gets its color.
#[derive(Debug, Clone, PartialEq, Eq)]
pub enum ColorRule {
    /// The darkest declared color by relative luminance; `#1F2937` without any.
    Darkest,
    /// A fixed color.
    Fixed(String),
    /// The color of another slot.
    SlotValue(usize),
    /// The color of another slot, lightened towards white by `percent`.
    Lighten { slot: usize, percent: u32 },
    /// The color of another slot, its lightness reduced by `percent`.
    Darken { slot: usize, percent: u32 },
    /// The color of another slot, its hue rotated by `degrees`.
    RotateHue { slot: usize, degrees: u32 },
}

/// The mathematical value of a [`ColorRule`].
pub enum ColorRuleV {
    Darkest,
    Fixed(Seq<char>),
    SlotValue(int),
    Lighten { slot: int, percent: int },
    Darken { slot: int, percent: int },
    RotateHue { slot: int, degrees: int },
}

impl DeepView for ColorRule {
    type V = ColorRuleV;

    open spec fn deep_view(&self) -> ColorRuleV {
        match self {
            ColorRule::Darkest => ColorRuleV::Darkest,
            ColorRule::Fixed(h) => ColorRuleV::Fixed(h@),
            ColorRule::SlotValue(s) => ColorRuleV::SlotValue(*s as int),
            ColorRule::Lighten { slot, percent } => ColorRuleV::Lighten { slot: *slot as int, percent: *percent as int },
            ColorRule::Darken { slot, percent } => ColorRuleV::Darken { slot: *slot as int, percent: *percent as int },
            ColorRule::RotateHue { slot, degrees } => ColorRuleV::RotateHue {
                slot: *slot as int,
                degrees: *degrees as int,
            },
        }
    }
}

/// The rule for slot `i` given the declared colors (`None` for a declared slot).
pub open spec fn rule_of(declared: Seq<Option<Seq<char>>>, i: int) -> Option<ColorRuleV> {
    if declared[i] is Some {
        None
    } else if i == 0 {
        Some(ColorRuleV::Darkest)
    } else if i == 1 {
        Some(ColorRuleV::Fixed("#FFFFFF"@))
    } else if i == 2 {
        if declared[4] is Some {
            Some(ColorRuleV::SlotValue(4))
        } else {
            Some(ColorRuleV::Lighten { slot: 0, percent: 20 })
        }
    } else if i == 3 {
        Some(ColorRuleV::Fixed("#F9FAFB"@))
    } else if i == 4 {
        Some(ColorRuleV::Fixed("#3B82F6"@))
    } else if 5 <= i <= 9 {
        Some(ColorRuleV::RotateHue { slot: 4, degrees: 30 * (i - 4) })
    } else if i == 10 {
        Some(ColorRuleV::Darken { slot: 4, percent: 15 })
    } else {
        Some(ColorRuleV::Darken { slot: 10, percent: 10 })
    }
}

/// The derivation text of the warning for inferred slot `i`.
pub open spec fn derivation_of(i: int) -> Seq<char> {
    if i == 0 { "darkest declared color by luminance; fallback #1F2937"@ }
    else if i == 1 { "hardcoded #FFFFFF"@ }
    else if i == 2 { "acc1 if declared; else dk1 lightened 20%"@ }
    else if i == 3 { "hardcoded #F9FAFB near-white"@ }
    else if i == 4 { "default accent baseline"@ }
    else if i == 5 { "acc1 hue rotated 30°"@ }
    else if i == 6 { "acc1 hue rotated 60°"@ }
    else if i == 7 { "acc1 hue rotated 90°"@ }
    else if i == 8 { "acc1 hue rotated 120°"@ }
    else if i == 9 { "acc1 hue rotated 150°"@ }
    else if i == 10 { "acc1 darkened 15%"@ }
    else { "hlink darkened 10%"@ }
}

fn derivation_str(i: usize) -> (s: &'static str)
    requires
        i < 12,
    ensures
        s@ == derivation_of(i as int),
{
    if i == 0 { "darkest declared color by luminance; fallback #1F2937" }
    else if i == 1 { "hardcoded #FFFFFF" }
    else if i == 2 { "acc1 if declared; else dk1 lightened 20%" }
    else if i == 3 { "hardcoded #F9FAFB near-white" }
    else if i == 4 { "default accent baseline" }
    else if i == 5 { "acc1 hue rotated 30°" }
    else if i == 6 { "acc1 hue rotated 60°" }
    else if i == 7 { "acc1 hue rotated 90°" }
    else if i == 8 { "acc1 hue rotated 120°" }
    else if i == 9 { "acc1 hue rotated 150°" }
    else if i == 10 { "acc1 darkened 15%" }
    else { "hlink darkened 10%" }
}

/// The rule of each of the 12 slots (`None` for a declared slot). Every rule
/// refers only to slots before its own, so the colors can be computed in
/// slot order.
pub fn inference_rules(declared: &Vec<Option<String>>) -> (r: Vec<Option<ColorRule>>)
    requires
        declared.len() == 12,
    ensures
        r.len() == 12,
        forall|i: int| 0 <= i < 12 ==> (#[trigger] r@[i]).deep_view() == rule_of(opt_strings_view(declared@), i),
{
    let ghost dv = opt_strings_view(declared@);
    let mut rules: Vec<Option<ColorRule>> = Vec::new();
    let mut i: usize = 0;
    while i < 12
        invariant
            declared.len() == 12,
            dv == opt_strings_view(declared@),
            i <= 12,
            rules.len() == i,
            forall|j: int| 0 <= j < i ==> (#[trigger] rules@[j]).deep_view() == rule_of(dv, j),
        decreases 12 - i,
    {
        assert(dv[i as int] == declared@[i as int].deep_view());
        assert(dv[4] == declared@[4].deep_view());
        let rule = if declared[i].is_some() {
            None
        } else if i == 0 {
            Some(ColorRule::Darkest)
        } else if i == 1 {
            Some(ColorRule::Fixed(String::from_str("#FFFFFF")))
        } else if i == 2 {
            if declared[4].is_some() {
                Some(ColorRule::SlotValue(4))
            } else {
                Some(ColorRule::Lighten { slot: 0, percent: 20 })
            }
        } else if i == 3 {
            Some(ColorRule::Fixed(String::from_str("#F9FAFB")))
        } else if i == 4 {
            Some(ColorRule::Fixed(String::from_str("#3B82F6")))
        } else if i <= 9 {
            Some(ColorRule::RotateHue { slot: 4, degrees: 30 * (i as u32 - 4) })
        } else if i == 10 {
            Some(ColorRule::Darken { slot: 4, percent: 15 })
        } else {
            Some(ColorRule::Darken { slot: 10, percent: 10 })
        };
        rules.push(rule);
        i = i + 1;
    }
    rules
}

/// Whether `h` is the declared color of some slot.
pub open spec fn is_declared_color(declared: Seq<Option<Seq<char>>>, h: Seq<char>) -> bool {
    exists|k: int| 0 <= k < 12 && declared[k] == Some(h)
}

/// The first declared color among slots `k..12`.
pub open spec fn first_declared(declared: Seq<Option<Seq<char>>>, k: nat) -> Option<Seq<char>>
    decreases 12 - k,
{
    if k >= 12 {
        None
    } else if declared[k as int] is Some {
        declared[k as int]
    } else {
        first_declared(declared, k + 1)
    }
}

/// The color of the "darkest declared" rule: `candidate` (the declared color
/// of least luminance, found in floating point) when it is a declared color;
/// else the first declared color; `#1F2937` when no color is declared.
pub open spec fn darkest_choice(declared: Seq<Option<Seq<char>>>, candidate: Seq<char>) -> Seq<char> {
    if is_declared_color(declared, candidate) {
        candidate
    } else {
        match first_declared(declared, 0) {
            Some(h) => h,
            None => "#1F2937"@,
        }
    }
}

/// The color of slot `i`: the declared one; else, by the slot's rule, the
/// darkest declared color (see [`darkest_choice`], with `computed[i]` as
/// candidate), the fixed color, or the declared color of the slot it copies;
/// else (for the rules computed in floating point: lighten, darken, rotate
/// hue) the color `computed[i]`.
pub open spec fn final_hex(declared: Seq<Option<Seq<char>>>, computed: Seq<Seq<char>>, i: int) -> Seq<char> {
    match declared[i] {
        Some(h) => h,
        None => match rule_of(declared, i) {
            Some(ColorRuleV::Darkest) => darkest_choice(declared, computed[i]),
            Some(ColorRuleV::Fixed(h)) => h,
            Some(ColorRuleV::SlotValue(k)) => match declared[k] {
                Some(h) => h,
                None => computed[i],
            },
            _ => computed[i],
        },
    }
}

/// The color of the "darkest declared" rule (see [`darkest_choice`]).
pub fn darkest_color(declared: &Vec<Option<String>>, candidate: &String) -> (r: String)
    requires
        declared.len() == 12,
    ensures
        r@ == darkest_choice(opt_strings_view(declared@), candidate@),
{
    let ghost dv = opt_strings_view(declared@);
    let mut matched = false;
    let mut first: Option<String> = None;
    let mut i: usize = 0;
    while i < 12
        invariant
            declared.len() == 12,
            dv == opt_strings_view(declared@),
            i <= 12,
            matched ==> is_declared_color(dv, candidate@),
            !matched ==> forall|k: int| 0 <= k < i ==> dv[k] != Some(candidate@),
            first matches Some(f) ==> first_declared(dv, 0) == Some(f@),
            first is None ==> first_declared(dv, 0) == first_declared(dv, i as nat),
        decreases 12 - i,
    {
        assert(dv[i as int] == declared@[i as int].deep_view());
        match &declared[i] {
            Some(h) => {
                if str_eq(h.as_str(), candidate.as_str()) {
                    matched = true;
                }
                if first.is_none() {
                    first = Some(h.clone());
                }
            },
            None => {},
        }
        i = i + 1;
    }
    if matched {
        candidate.clone()
    } else {
        assert(!is_declared_color(dv, candidate@));
        match first {
            Some(f) => f,
            None => {
                assert(first_declared(dv, 12) is None);
                String::from_str("#1F2937")
            },
        }
    }
}

/// The color of slot `i` (see [`final_hex`]), given the rules of the slots.
pub fn final_color(
    declared: &Vec<Option<String>>,
    rules: &Vec<Option<ColorRule>>,
    computed: &Vec<String>,
    i: usize,
) -> (r: String)
    requires
        declared.len() == 12,
        rules.len() == 12,
        computed.len() == 12,
        i < 12,
        forall|j: int| 0 <= j < 12 ==> (#[trigger] rules@[j]).deep_view() == rule_of(opt_strings_view(declared@), j),
    ensures
        r@ == final_hex(opt_strings_view(declared@), strings_view(computed@), i as int),
{
    let ghost dv = opt_strings_view(declared@);
    assert(dv[i as int] == declared@[i as int].deep_view());
    assert(rules@[i as int].deep_view() == rule_of(dv, i as int));
    match &declared[i] {
        Some(h) => h.clone(),
        None => match &rules[i] {
            Some(ColorRule::Darkest) => darkest_color(declared, &computed[i]),
            Some(ColorRule::Fixed(h)) => h.clone(),
            Some(ColorRule::SlotValue(k)) => {
                assert(*k == 4);
                assert(dv[4] == declared@[4].deep_view());
                match &declared[*k] {
                    Some(h) => h.clone(),
                    None => computed[i].clone(),
                }
            },
            _ => computed[i].clone(),
        },
    }
}

/// The `E-BRD-003` warnings of the inferred slots among the first `k`, in slot order.
pub open spec fn inferred_warnings_of(declared: Seq<Option<Seq<char>>>, inferred: Seq<Seq<char>>, k: nat) -> Seq<
    BrandErrorV,
>
    decreases k,
{
    if k == 0 {
        Seq::empty()
    } else {
        let prev = inferred_warnings_of(declared, inferred, (k - 1) as nat);
        if declared[k - 1] is Some {
            prev
        } else {
            prev.push(
                BrandErrorV::MissingColorSlot {
                    slot_name: slot_name(k - 1),
                    inferred_hex: final_hex(declared, inferred, k - 1),
                    derivation: derivation_of(k - 1),
                },
            )
        }
    }
}

/// The views of a sequence of strings.
pub open spec fn strings_view(v: Seq<String>) -> Seq<Seq<char>> {
    v.map_values(|s: String| s@)
}

/// One `E-BRD-003` [`BrandError::MissingColorSlot`] warning per absent slot,
/// in slot order, carrying the slot's inferred color (see [`final_hex`]).
pub fn inferred_warnings(declared: &Vec<Option<String>>, inferred: &Vec<String>) -> (r: Vec<BrandError>)
    requires
        declared.len() == 12,
        inferred.len() == 12,
    ensures
        r.deep_view() == inferred_warnings_of(opt_strings_view(declared@), strings_view(inferred@), 12),
{
    let ghost dv = opt_strings_view(declared@);
    let ghost iv = strings_view(inferred@);
    let rules = inference_rules(declared);
    let mut warnings: Vec<BrandError> = Vec::new();
    let mut i: usize = 0;
    while i < 12
        invariant
            declared.len() == 12,
            inferred.len() == 12,
            dv == opt_strings_view(declared@),
            iv == strings_view(inferred@),
            rules.len() == 12,
            forall|j: int| 0 <= j < 12 ==> (#[trigger] rules@[j]).deep_view() == rule_of(dv, j),
            i <= 12,
            warnings.deep_view() == inferred_warnings_of(dv, iv, i as nat),
        decreases 12 - i,
    {
        assert(dv[i as int] == declared@[i as int].deep_view());
        if declared[i].is_none() {
            let w = BrandError::MissingColorSlot {
                slot_name: String::from_str(slot_name_str(i)),
                inferred_hex: final_color(declared, &rules, inferred, i),
                derivation: String::from_str(derivation_str(i)),
            };
            let ghost before = warnings.deep_view();
            warnings.push(w);
            assert(warnings.deep_view() =~= before.push(w.deep_view()));
        }
        i = i + 1;
    }
    warnings
}

// ─── Laws ────────────────────────────────────────────────────────────────────

/// The slot a rule takes its color from, if any.
pub open spec fn rule_source(r: ColorRuleV) -> Option<int> {
    match r {
        ColorRuleV::SlotValue(k) => Some(k),
        ColorRuleV::Lighten { slot, .. } => Some(slot),
        ColorRuleV::Darken { slot, .. } => Some(slot),
        ColorRuleV::RotateHue { slot, .. } => Some(slot),
        _ => None,
    }
}

/// Inference can run in slot order: the rule of every absent slot takes its
/// color only from a slot before it or from a declared slot.
pub proof fn lemma_rules_refer_to_known_slots(declared: Seq<Option<Seq<char>>>, i: int)
    requires
        declared.len() == 12,
        0 <= i < 12,
    ensures
        rule_of(declared, i) matches Some(r) ==> (rule_source(r) matches Some(k) ==> 0 <= k < 12 && (k < i
            || declared[k] is Some)),
{
}

/// Exactly the absent slots get a rule.
pub proof fn lemma_rule_iff_absent(declared: Seq<Option<Seq<char>>>, i: int)
    requires
        declared.len() == 12,
        0 <= i < 12,
    ensures
        (rule_of(declared, i) is Some) == (declared[i] is None),
{
}

/// The number of absent slots among the first `k`.
pub open spec fn absent_count(declared: Seq<Option<Seq<char>>>, k: nat) -> nat
    decreases k,
{
    if k == 0 {
        0
    } else {
        absent_count(declared, (k - 1) as nat) + if declared[k - 1] is None {
            1nat
        } else {
            0nat
        }
    }
}

/// One `E-BRD-003` warning per absent slot, each for that slot.
pub proof fn lemma_one_warning_per_absent_slot(declared: Seq<Option<Seq<char>>>, inferred: Seq<Seq<char>>, k: nat)
    requires
        k <= declared.len(),
    ensures
        inferred_warnings_of(declared, inferred, k).len() == absent_count(declared, k),
        forall|j: int| 0 <= j < inferred_warnings_of(declared, inferred, k).len() ==> (#[trigger] inferred_warnings_of(
            declared,
            inferred,
            k,
        )[j]) is MissingColorSlot,
    decreases k,
{
    if k > 0 {
        lemma_one_warning_per_absent_slot(declared, inferred, (k - 1) as nat);
        let prev = inferred_warnings_of(declared, inferred, (k - 1) as nat);
        assert forall|j: int| 0 <= j < inferred_warnings_of(declared, inferred, k).len() implies (#[trigger] inferred_warnings_of(
            declared,
            inferred,
            k,
        )[j]) is MissingColorSlot by {
            if j < prev.len() {
                assert(inferred_warnings_of(declared, inferred, k)[j] == prev[j]);
            }
        }
    }
}

/// The hue rotation of a rule (0 for a rule that rotates nothing).
pub open spec fn rotation_of(r: Option<ColorRuleV>) -> int {
    match r {
        Some(ColorRuleV::RotateHue { degrees, .. }) => degrees,
        _ => 0,
    }
}

/// An absent accent `acc2`-`acc6` (slots 5-9) is `acc1` with its hue rotated
/// by 30° per slot after `acc1`: 30°, 60°, 90°, 120° and 150°. The rotations
/// grow with the slot, so two absent accents never get the same rotation,
/// and none is a whole turn, so none repeats `acc1` itself: an absent accent
/// set gets distinct hues.
pub proof fn lemma_accent_rotations(declared: Seq<Option<Seq<char>>>, i: int, j: int)
    requires
        declared.len() == 12,
        5 <= i <= 9,
        5 <= j <= 9,
        declared[i] is None,
        declared[j] is None,
    ensures
        rule_of(declared, i) == Some(ColorRuleV::RotateHue { slot: 4, degrees: 30 * (i - 4) }),
        0 < rotation_of(rule_of(declared, i)) < 360,
        i < j ==> rotation_of(rule_of(declared, i)) < rotation_of(rule_of(declared, j)),
        i != j ==> rotation_of(rule_of(declared, i)) != rotation_of(rule_of(declared, j)),
{
}

/// A valid declared color is kept, in canonical uppercase form.
pub proof fn lemma_declared_color_is_canonical(c: ColorConfig, i: int)
    requires
        0 <= i < 12,
    ensures
        declared_hex(c, i) matches Some(h) ==> crate::color::is_hex_color(h),
{
    if let Some(v) = config_value(c, i) {
        if is_valid_hex_decl(v) {
            crate::color::lemma_hash_hex_is_hex_color(v.subrange(1, 7));
        }
    }
}

/// The first declared color of slots `k..12` is the declared color of one of them.
proof fn lemma_first_declared_is_declared(declared: Seq<Option<Seq<char>>>, k: nat)
    requires
        declared.len() == 12,
    ensures
        first_declared(declared, k) matches Some(h) ==> exists|j: int| k <= j < 12 && declared[j] == Some(h),
        (forall|j: int| 0 <= j < 12 ==> (#[trigger] declared[j]) is None) ==> first_declared(declared, k) is None,
    decreases 12 - k,
{
    if k < 12 {
        lemma_first_declared_is_declared(declared, k + 1);
    }
}

/// The darkest-declared rule picks a declared color, and `#1F2937` exactly
/// when no color is declared.
pub proof fn lemma_darkest_choice(declared: Seq<Option<Seq<char>>>, candidate: Seq<char>)
    requires
        declared.len() == 12,
    ensures
        (exists|k: int| 0 <= k < 12 && (#[trigger] declared[k]) is Some) ==> is_declared_color(
            declared,
            darkest_choice(declared, candidate),
        ),
        (forall|k: int| 0 <= k < 12 ==> (#[trigger] declared[k]) is None) ==> darkest_choice(declared, candidate)
            == "#1F2937"@,
{
    lemma_first_declared_is_declared(declared, 0);
    if exists|k: int| 0 <= k < 12 && (#[trigger] declared[k]) is Some {
        let k = choose|k: int| 0 <= k < 12 && (#[trigger] declared[k]) is Some;
        if !is_declared_color(declared, candidate) {
            if first_declared(declared, 0) is None {
                lemma_first_declared_none(declared, 0, k);
            }
        }
    } else {
        assert forall|k: int| 0 <= k < 12 implies (#[trigger] declared[k]) != Some(candidate) by {
            assert(declared[k] is None);
        }
    }
}

proof fn lemma_first_declared_none(declared: Seq<Option<Seq<char>>>, k: nat, j: int)
    requires
        declared.len() == 12,
        k <= j < 12,
        declared[j] is Some,
    ensures
        first_declared(declared, k) is Some,
    decreases 12 - k,
{
    if k < j {
        lemma_first_declared_none(declared, k + 1, j);
    }
}

/// Every slot's color is a canonical `#RRGGBB` color when the colors
/// computed in floating point are.
pub proof fn lemma_final_hex_canonical(c: ColorConfig, computed: Seq<Seq<char>>, i: int)
    requires
        computed.len() == 12,
        forall|k: int| 0 <= k < 12 ==> is_hex_color(#[trigger] computed[k]),
        0 <= i < 12,
    ensures
        is_hex_color(final_hex(declared_view(c), computed, i)),
{
    let dv = declared_view(c);
    assert forall|k: int| 0 <= k < 12 implies (#[trigger] dv[k] matches Some(h) ==> is_hex_color(h)) by {
        assert(dv[k] == declared_hex(c, k));
        lemma_declared_color_is_canonical(c, k);
    }
    reveal_strlit("#FFFFFF");
    reveal_strlit("#F9FAFB");
    reveal_strlit("#3B82F6");
    reveal_strlit("#1F2937");
    lemma_darkest_choice(dv, computed[i]);
    lemma_first_declared_is_declared(dv, 0);
    if is_declared_color(dv, computed[i]) {
        let k = choose|k: int| 0 <= k < 12 && dv[k] == Some(computed[i]);
        assert(dv[k] == Some(computed[i]));
    }
}

/// A canonical `#RRGGBB` color is a valid declaration and is kept as written.
pub proof fn lemma_canonical_declaration(v: Seq<char>)
    requires
        is_hex_color(v),
    ensures
        is_valid_hex_decl(v),
        normalized_hex(v) == v,
{
    let d = v.subrange(1, 7);
    assert forall|i: int| 0 <= i < 6 implies crate::color::is_hex_digit(#[trigger] d[i]) by {
        assert(d[i] == v[i + 1]);
    }
    assert(normalized_hex(v) =~= v) by {
        assert forall|i: int| 1 <= i < 7 implies #[trigger] normalized_hex(v)[i] == v[i] by {
            assert(d[i - 1] == v[i]);
        }
    }
}

} // verus!
