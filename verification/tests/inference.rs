//! Declared colors and the rules that infer absent ones.
use slideforge_brand::error::BrandError;
use slideforge_brand::inference::{declared_slots, inference_rules, inferred_warnings, validate_hex, ColorRule};
use slideforge_brand::synthesizer::BrandSynthesizer;
use slideforge_brand::toml_schema::{BrandConfig, ColorConfig, FontConfig, FooterConfig, LogoConfig};
use slideforge_brand::inference::darkest_color;

#[test]
fn valid_hex_is_uppercased() {
    assert_eq!(validate_hex("acc1", "#3b82f6"), Ok("#3B82F6".to_owned()));
    assert_eq!(validate_hex("acc1", "#ABCDEF"), Ok("#ABCDEF".to_owned()));
}

#[test]
fn invalid_hex_is_an_e_brd_005_warning() {
    for v in ["3B82F6", "#3B82F", "#3B82F6A", "#ZZZZZZ", "", "#"] {
        let e = validate_hex("dk2", v).expect_err("invalid");
        assert_eq!(e, BrandError::InvalidHexColor { slot_name: "dk2".to_owned(), value: v.to_owned() });
        assert_eq!(e.code(), "E-BRD-005");
    }
}

#[test]
fn declared_slots_keep_slot_order() {
    let colors = ColorConfig {
        dk1: Some("#111111".to_owned()),
        acc2: Some("bad".to_owned()),
        fol_hlink: Some("#abcdef".to_owned()),
        ..Default::default()
    };
    let (declared, warnings) = declared_slots(&colors);
    assert_eq!(declared.len(), 12);
    assert_eq!(declared[0].as_deref(), Some("#111111"));
    assert_eq!(declared[5], None);
    assert_eq!(declared[11].as_deref(), Some("#ABCDEF"));
    assert_eq!(warnings, vec![BrandError::InvalidHexColor { slot_name: "acc2".to_owned(), value: "bad".to_owned() }]);
}

#[test]
fn rules_of_absent_slots() {
    let mut declared: Vec<Option<String>> = vec![None; 12];
    let rules = inference_rules(&declared);
    assert_eq!(rules[0], Some(ColorRule::Darkest));
    assert_eq!(rules[1], Some(ColorRule::Fixed("#FFFFFF".to_owned())));
    assert_eq!(rules[2], Some(ColorRule::Lighten { slot: 0, percent: 20 }));
    assert_eq!(rules[3], Some(ColorRule::Fixed("#F9FAFB".to_owned())));
    assert_eq!(rules[4], Some(ColorRule::Fixed("#3B82F6".to_owned())));
    assert_eq!(rules[5], Some(ColorRule::RotateHue { slot: 4, degrees: 30 }));
    assert_eq!(rules[9], Some(ColorRule::RotateHue { slot: 4, degrees: 150 }));
    assert_eq!(rules[10], Some(ColorRule::Darken { slot: 4, percent: 15 }));
    assert_eq!(rules[11], Some(ColorRule::Darken { slot: 10, percent: 10 }));
    declared[4] = Some("#3B82F6".to_owned());
    let rules = inference_rules(&declared);
    assert_eq!(rules[2], Some(ColorRule::SlotValue(4)));
    assert_eq!(rules[4], None);
}

#[test]
fn one_warning_per_absent_slot() {
    let mut declared: Vec<Option<String>> = vec![None; 12];
    declared[1] = Some("#FFFFFF".to_owned());
    let inferred: Vec<String> = (0..12).map(|i| format!("#0000{:02X}", i)).collect();
    let w = inferred_warnings(&declared, &inferred);
    assert_eq!(w.len(), 11);
    assert_eq!(
        w[0],
        BrandError::MissingColorSlot {
            slot_name: "dk1".to_owned(),
            inferred_hex: "#FFFFFF".to_owned(),
            derivation: "darkest declared color by luminance; fallback #1F2937".to_owned(),
        }
    );
    assert!(matches!(&w[1], BrandError::MissingColorSlot { slot_name, inferred_hex, .. }
        if slot_name == "dk2" && inferred_hex == "#000002"));
    let all: Vec<Option<String>> = (0..12).map(|_| Some("#123456".to_owned())).collect();
    assert!(inferred_warnings(&all, &inferred).is_empty());
}

/// Run inference through synthesis: the declared colors in slot order, with
/// fixed stand-ins for the colors computed in floating point.
fn infer_missing_slots(declared: [Option<&str>; 12], warnings: &mut Vec<BrandError>) -> [String; 12] {
    let d: Vec<Option<String>> = declared.iter().map(|o| o.map(str::to_owned)).collect();
    let config = BrandConfig {
        colors: ColorConfig {
            dk1: d[0].clone(),
            lt1: d[1].clone(),
            dk2: d[2].clone(),
            lt2: d[3].clone(),
            acc1: d[4].clone(),
            acc2: d[5].clone(),
            acc3: d[6].clone(),
            acc4: d[7].clone(),
            acc5: d[8].clone(),
            acc6: d[9].clone(),
            hlink: d[10].clone(),
            fol_hlink: d[11].clone(),
        },
        fonts: FontConfig { heading: "Calibri".to_owned(), body: "Calibri".to_owned() },
        logo: Some(LogoConfig { path: "logo.png".to_owned() }),
        footer: FooterConfig::default(),
    };
    let computed: Vec<String> = (0..12).map(|i| format!("#{:02X}{:02X}{:02X}", 16 * i, 8 * i, 4 * i)).collect();
    let (t, w) = BrandSynthesizer::synthesize(&config, &computed).expect("logo present");
    warnings.extend(w);
    std::array::from_fn(|i| t.colors[i].hex().expect("resolved").to_owned())
}

#[test]
fn test_bc_2_01_004_all_12_declared_no_inference() {
    let declared: [Option<&str>; 12] = [
        Some("#1F2937"),
        Some("#FFFFFF"),
        Some("#374151"),
        Some("#F9FAFB"),
        Some("#3B82F6"),
        Some("#10B981"),
        Some("#F59E0B"),
        Some("#EF4444"),
        Some("#8B5CF6"),
        Some("#EC4899"),
        Some("#2563EB"),
        Some("#1D4ED8"),
    ];
    let mut warnings = Vec::new();
    let _ = infer_missing_slots(declared, &mut warnings);
    assert_eq!(warnings.len(), 0, "no warnings when all 12 declared");
}

#[test]
fn test_bc_2_01_004_lt1_always_ffffff() {
    let declared: [Option<&str>; 12] =
        [Some("#000000"), None, None, None, Some("#3B82F6"), None, None, None, None, None, None, None];
    let mut warnings = Vec::new();
    let result = infer_missing_slots(declared, &mut warnings);
    assert_eq!(result[1].as_str(), "#FFFFFF", "lt1 must always be #FFFFFF");
}

#[test]
fn test_bc_2_01_004_empty_colors_produces_12_warnings() {
    let declared: [Option<&str>; 12] = [None; 12];
    let mut warnings = Vec::new();
    let _ = infer_missing_slots(declared, &mut warnings);
    assert_eq!(warnings.len(), 12, "12 E-BRD-003 warnings for 12 absent slots");
}

#[test]
fn test_bc_2_01_004_dk2_from_acc1_when_available() {
    let declared: [Option<&str>; 12] =
        [Some("#1F2937"), Some("#FFFFFF"), None, None, Some("#3B82F6"), None, None, None, None, None, None, None];
    let mut warnings = Vec::new();
    let result = infer_missing_slots(declared, &mut warnings);
    assert_eq!(result[2].as_str(), "#3B82F6", "dk2 should equal acc1 when acc1 declared");
}

#[test]
fn test_bc_2_01_004_invariant_inferred_colors_are_uppercase_hex() {
    let declared: [Option<&str>; 12] = [None; 12];
    let mut warnings = Vec::new();
    let result = infer_missing_slots(declared, &mut warnings);
    for (i, hex) in result.iter().enumerate() {
        let h = hex.as_str();
        assert!(h.starts_with('#') && h.len() == 7, "slot {i}: expected #RRGGBB, got '{h}'");
        assert!(
            h[1..].chars().all(|c| c.is_ascii_uppercase() || c.is_ascii_digit()),
            "slot {i}: hex must be uppercase, got '{h}'"
        );
    }
}

#[test]
fn test_bc_2_01_004_all_12_slots_provided_no_change() {
    let declared: [Option<&str>; 12] = [
        Some("#1F2937"),
        Some("#FFFFFF"),
        Some("#374151"),
        Some("#F9FAFB"),
        Some("#3B82F6"),
        Some("#10B981"),
        Some("#F59E0B"),
        Some("#EF4444"),
        Some("#8B5CF6"),
        Some("#EC4899"),
        Some("#2563EB"),
        Some("#1D4ED8"),
    ];
    let mut warnings = Vec::new();
    let result = infer_missing_slots(declared, &mut warnings);
    assert_eq!(warnings.len(), 0, "no E-BRD-003 warnings when all 12 declared");
    assert_eq!(result[0].as_str(), "#1F2937", "dk1 must be unchanged");
    assert_eq!(result[1].as_str(), "#FFFFFF", "lt1 must be unchanged");
    assert_eq!(result[4].as_str(), "#3B82F6", "acc1 must be unchanged");
    assert_eq!(result[10].as_str(), "#2563EB", "hlink must be unchanged");
    assert_eq!(result[11].as_str(), "#1D4ED8", "fol_hlink must be unchanged");
}

#[test]
fn test_bc_2_01_004_lt2_inferred_as_near_white() {
    let declared: [Option<&str>; 12] =
        [Some("#1F2937"), Some("#FFFFFF"), None, None, Some("#3B82F6"), None, None, None, None, None, None, None];
    let mut warnings = Vec::new();
    let result = infer_missing_slots(declared, &mut warnings);
    assert_eq!(result[3].as_str(), "#F9FAFB", "lt2 must be inferred as #F9FAFB");
}

#[test]
fn test_bc_2_01_004_dk1_inferred_fallback_when_no_colors_declared() {
    let declared: [Option<&str>; 12] = [None; 12];
    let mut warnings = Vec::new();
    let result = infer_missing_slots(declared, &mut warnings);
    let dk1 = result[0].as_str();
    assert_eq!(dk1, "#1F2937", "dk1 fallback when all slots absent must be #1F2937");
}

#[test]
fn test_bc_2_01_004_inference_is_deterministic() {
    let declared: [Option<&str>; 12] =
        [Some("#1F2937"), None, None, None, Some("#3B82F6"), None, None, None, None, None, None, None];
    let mut w1 = Vec::new();
    let r1 = infer_missing_slots(declared, &mut w1);
    let mut w2 = Vec::new();
    let r2 = infer_missing_slots(declared, &mut w2);
    for i in 0..12 {
        assert_eq!(r1[i].as_str(), r2[i].as_str(), "slot {i} must be deterministic across two identical calls");
    }
    assert_eq!(w1.len(), w2.len(), "warning count must be deterministic");
}

#[test]
fn test_bc_2_01_004_no_required_slot_missing_section_produces_12_warnings() {
    let declared: [Option<&str>; 12] = [None; 12];
    let mut warnings = Vec::new();
    let _ = infer_missing_slots(declared, &mut warnings);
    assert_eq!(warnings.len(), 12, "empty [colors] section must produce exactly 12 E-BRD-003 warnings");
    for (i, warn) in warnings.iter().enumerate() {
        assert!(
            matches!(warn, BrandError::MissingColorSlot { .. }),
            "warning {i} must be BrandError::MissingColorSlot, got: {warn:?}"
        );
    }
}

#[test]
fn dk1_is_the_candidate_when_declared_else_the_first_declared_color() {
    let declared: [Option<&str>; 12] =
        [None, Some("#EEEEEE"), None, None, Some("#3B82F6"), None, None, None, None, None, None, None];
    let mut warnings = Vec::new();
    // The stand-in computed for dk1 is "#000000", not a declared color: the
    // first declared color is taken.
    let result = infer_missing_slots(declared, &mut warnings);
    assert_eq!(result[0].as_str(), "#EEEEEE");
}

#[test]
fn darkest_candidate_is_kept_when_declared() {
    let mut declared: Vec<Option<String>> = vec![None; 12];
    declared[4] = Some("#3B82F6".to_owned());
    declared[9] = Some("#111111".to_owned());
    assert_eq!(darkest_color(&declared, &"#111111".to_owned()), "#111111");
    assert_eq!(darkest_color(&declared, &"#222222".to_owned()), "#3B82F6");
    assert_eq!(darkest_color(&vec![None; 12], &"#111111".to_owned()), "#1F2937");
}
