//! Transform-aware theme color extraction (`srgbClr` with `lumMod`, `tint`, ...).
#![allow(non_snake_case)]


    use slideforge_brand::color::parse_theme_colors;
    use slideforge_brand::template::{ColorSlot, ColorValue};
use slideforge_brand::footer::FooterFlags;
use slideforge_brand::template::{BrandFonts, BrandTemplate, MasterIds};

    // ─────────────────────────────────────────────────────────────────────────
    // Fixture XML helpers
    // ─────────────────────────────────────────────────────────────────────────

    /// Build a minimal theme1.xml with a single specified srgbClr element in the
    /// `dk2` slot, inserting raw inner XML (e.g. transform children) inside the
    /// `<a:srgbClr>` element.
    ///
    /// The remaining 11 slots use clean `<a:srgbClr val="XXXXXX"/>` values so the
    /// test only needs to inspect the `dk2` (index 2) slot.
    fn theme_xml_with_dk2_srgbclr(inner_srgbclr_xml: &str) -> String {
        format!(
            r#"<?xml version="1.0" encoding="UTF-8" standalone="yes"?>
<a:theme xmlns:a="http://schemas.openxmlformats.org/drawingml/2006/main" name="TestTheme">
  <a:themeElements>
    <a:clrScheme name="TestScheme">
      <a:dk1><a:srgbClr val="000000"/></a:dk1>
      <a:lt1><a:srgbClr val="FFFFFF"/></a:lt1>
      <a:dk2>{inner_srgbclr_xml}</a:dk2>
      <a:lt2><a:srgbClr val="F5F5F5"/></a:lt2>
      <a:acc1><a:srgbClr val="0066CC"/></a:acc1>
      <a:acc2><a:srgbClr val="FF6B35"/></a:acc2>
      <a:acc3><a:srgbClr val="28A745"/></a:acc3>
      <a:acc4><a:srgbClr val="FFC107"/></a:acc4>
      <a:acc5><a:srgbClr val="6F42C1"/></a:acc5>
      <a:acc6><a:srgbClr val="17A2B8"/></a:acc6>
      <a:hlink><a:srgbClr val="0000EE"/></a:hlink>
      <a:folHlink><a:srgbClr val="551A8B"/></a:folHlink>
    </a:clrScheme>
  </a:themeElements>
</a:theme>"#,
        )
    }

    const CLEAN_12_SRGB_XML: &str = r#"<?xml version="1.0" encoding="UTF-8" standalone="yes"?>
<a:theme xmlns:a="http://schemas.openxmlformats.org/drawingml/2006/main" name="CleanTheme">
  <a:themeElements>
    <a:clrScheme name="CleanScheme">
      <a:dk1><a:srgbClr val="000000"/></a:dk1>
      <a:lt1><a:srgbClr val="FFFFFF"/></a:lt1>
      <a:dk2><a:srgbClr val="003087"/></a:dk2>
      <a:lt2><a:srgbClr val="F5F5F5"/></a:lt2>
      <a:acc1><a:srgbClr val="0066CC"/></a:acc1>
      <a:acc2><a:srgbClr val="FF6B35"/></a:acc2>
      <a:acc3><a:srgbClr val="28A745"/></a:acc3>
      <a:acc4><a:srgbClr val="FFC107"/></a:acc4>
      <a:acc5><a:srgbClr val="6F42C1"/></a:acc5>
      <a:acc6><a:srgbClr val="17A2B8"/></a:acc6>
      <a:hlink><a:srgbClr val="0000EE"/></a:hlink>
      <a:folHlink><a:srgbClr val="551A8B"/></a:folHlink>
    </a:clrScheme>
  </a:themeElements>
</a:theme>"#;

    /// Theme1.xml where dk1 uses `<a:sysClr lastClr="1A1A1A">`.
    const SYSCLR_THEME_XML: &str = r#"<?xml version="1.0" encoding="UTF-8" standalone="yes"?>
<a:theme xmlns:a="http://schemas.openxmlformats.org/drawingml/2006/main" name="SysClrTheme">
  <a:themeElements>
    <a:clrScheme name="SysClrScheme">
      <a:dk1><a:sysClr val="windowText" lastClr="1A1A1A"/></a:dk1>
      <a:lt1><a:srgbClr val="FFFFFF"/></a:lt1>
      <a:dk2><a:srgbClr val="003087"/></a:dk2>
      <a:lt2><a:srgbClr val="F5F5F5"/></a:lt2>
      <a:acc1><a:srgbClr val="0066CC"/></a:acc1>
      <a:acc2><a:srgbClr val="FF6B35"/></a:acc2>
      <a:acc3><a:srgbClr val="28A745"/></a:acc3>
      <a:acc4><a:srgbClr val="FFC107"/></a:acc4>
      <a:acc5><a:srgbClr val="6F42C1"/></a:acc5>
      <a:acc6><a:srgbClr val="17A2B8"/></a:acc6>
      <a:hlink><a:srgbClr val="0000EE"/></a:hlink>
      <a:folHlink><a:srgbClr val="551A8B"/></a:folHlink>
    </a:clrScheme>
  </a:themeElements>
</a:theme>"#;








































    #[test]
    fn test_BC_2_01_001_EC006_srgbclr_lummod_sets_derived_flag() {
        let xml = theme_xml_with_dk2_srgbclr(
            r#"<a:srgbClr val="003087"><a:lumMod val="75000"/></a:srgbClr>"#,
        );
        let (slots, warnings) = parse_theme_colors(xml.as_bytes())
            .expect("valid theme XML must parse without hard error");

        // No MissingColorSlot warnings — all 12 slots present.
        assert_eq!(
            warnings.len(),
            0,
            "srgbClr with lumMod must not emit MissingColorSlot warnings, got: {warnings:?}"
        );

        let dk2 = &slots[2]; // ECMA-376 index 2 = dk2
        assert_eq!(dk2.name.as_str(), "dk2", "slot at index 2 must be dk2");

        assert!(
            dk2.is_derived,
            "srgbClr with lumMod child must set is_derived = true on slot dk2"
        );

        assert_eq!(
            dk2.hex(),
            Some("#003087"),
            "base hex #003087 must be stored verbatim (Option B — no HSL resolution)"
        );
    }

    #[test]
    fn test_BC_2_01_001_EC006_srgbclr_tint_sets_derived_flag() {
        let xml = theme_xml_with_dk2_srgbclr(
            r#"<a:srgbClr val="C0392B"><a:tint val="50000"/></a:srgbClr>"#,
        );
        let (slots, _) = parse_theme_colors(xml.as_bytes())
            .expect("valid theme XML must parse without hard error");

        let dk2 = &slots[2];

        assert!(
            dk2.is_derived,
            "srgbClr with tint child must set is_derived = true"
        );

        // Base hex preserved verbatim.
        assert_eq!(
            dk2.hex(),
            Some("#C0392B"),
            "tint child must NOT modify stored hex — base val stored verbatim per Option B"
        );
    }

    #[test]
    fn test_BC_2_01_001_EC006_srgbclr_shade_sets_derived_flag() {
        let xml = theme_xml_with_dk2_srgbclr(
            r#"<a:srgbClr val="8E44AD"><a:shade val="60000"/></a:srgbClr>"#,
        );
        let (slots, _) = parse_theme_colors(xml.as_bytes())
            .expect("valid theme XML must parse without hard error");

        let dk2 = &slots[2];

        assert!(
            dk2.is_derived,
            "srgbClr with shade child must set is_derived = true"
        );

        assert_eq!(
            dk2.hex(),
            Some("#8E44AD"),
            "shade child must NOT modify stored hex — base val stored verbatim per Option B"
        );
    }

    #[test]
    fn test_BC_2_01_001_EC006_srgbclr_lumoff_sets_derived_flag() {
        let xml = theme_xml_with_dk2_srgbclr(
            r#"<a:srgbClr val="2E86C1"><a:lumOff val="20000"/></a:srgbClr>"#,
        );
        let (slots, _) = parse_theme_colors(xml.as_bytes())
            .expect("valid theme XML must parse without hard error");

        let dk2 = &slots[2];

        assert!(
            dk2.is_derived,
            "srgbClr with lumOff child must set is_derived = true"
        );

        assert_eq!(
            dk2.hex(),
            Some("#2E86C1"),
            "lumOff child must NOT modify stored hex — base val stored verbatim per Option B"
        );
    }

    #[test]
    fn test_BC_2_01_001_EC006_srgbclr_lummod_preserves_base_hex() {
        let xml = theme_xml_with_dk2_srgbclr(
            r#"<a:srgbClr val="003087"><a:lumMod val="75000"/></a:srgbClr>"#,
        );
        let (slots, _) = parse_theme_colors(xml.as_bytes())
            .expect("valid theme XML must parse without hard error");

        let dk2 = &slots[2];

        assert!(
            dk2.is_derived,
            "lumMod must set is_derived = true"
        );

        // Stored hex must be the RAW base val, not the luminance-modulated result.
        // lumMod=75000 applied to #003087 → approx #002465 in HSL arithmetic.
        // Asserting the stored value is NOT the resolved color proves Option B is honored.
        assert_eq!(
            dk2.hex(),
            Some("#003087"),
            "  Option B: hex must be verbatim base '003087', NOT the \
             luminance-modulated resolved color (approx #002465 if 75% lumMod were applied)"
        );

        // Confirming that the resolution DID NOT happen by also verifying it's not #002465.
        assert_ne!(
            dk2.hex(),
            Some("#002465"),
            "HSL resolution must NOT be performed in v1.0 (Option B defers to v2)"
        );
    }

    #[test]
    fn test_BC_2_01_001_EC006_srgbclr_without_transforms_not_derived() {
        let xml = theme_xml_with_dk2_srgbclr(r#"<a:srgbClr val="FF0000"/>"#);
        let (slots, warnings) = parse_theme_colors(xml.as_bytes())
            .expect("clean srgbClr theme XML must parse without hard error");

        assert_eq!(
            warnings.len(),
            0,
            "clean srgbClr (no transforms) must not emit any warnings"
        );

        let dk2 = &slots[2];
        assert_eq!(dk2.name.as_str(), "dk2");

        assert!(
            !dk2.is_derived,
            "  regression: srgbClr WITHOUT transform children must have \
             is_derived = false"
        );

        // Value must still be the correct hex.
        assert_eq!(
            dk2.hex(),
            Some("#FF0000"),
            "clean srgbClr val=FF0000 must produce #FF0000"
        );
    }

    #[test]
    fn test_BC_2_01_001_EC006_srgbclr_clean_val_regression() {
        let (slots, warnings) = parse_theme_colors(CLEAN_12_SRGB_XML.as_bytes())
            .expect("clean 12-color theme must parse without hard error");

        assert_eq!(
            warnings.len(),
            0,
            "clean 12-srgb theme must produce 0 warnings (regression)"
        );
        assert_eq!(slots.len(), 12);

        for slot in &slots {
            assert!(
                !slot.is_derived,
                "regression: clean srgbClr slot '{}' must have is_derived = false",
                slot.name
            );
        }

        // Spot-check canonical values from the clean fixture.
        assert_eq!(slots[0].hex(), Some("#000000"), "dk1 regression: #000000");
        assert_eq!(slots[2].hex(), Some("#003087"), "dk2 regression: #003087");
        assert_eq!(slots[4].hex(), Some("#0066CC"), "acc1 regression: #0066CC");
        assert_eq!(
            slots[11].hex(),
            Some("#551A8B"),
            "folHlink regression: #551A8B"
        );
    }

    #[test]
    fn test_BC_2_01_001_EC006_derived_flag_not_set_on_sysclr() {
        let (slots, _) = parse_theme_colors(SYSCLR_THEME_XML.as_bytes())
            .expect("sysClr theme must parse without hard error");

        let dk1 = &slots[0];
        assert_eq!(dk1.name.as_str(), "dk1");

        assert!(
            !dk1.is_derived,
            "sysClr slot dk1 must NOT set is_derived = true (sysClr is not a transform)"
        );

        // sysClr lastClr value must still be extracted correctly.
        assert_eq!(
            dk1.hex(),
            Some("#1A1A1A"),
            "sysClr lastClr=1A1A1A must produce #1A1A1A"
        );
    }

    #[test]
    fn test_BC_2_01_001_EC006_srgbclr_no_hsl_resolution_performed() {
        // Test three distinct base colors with lumMod to confirm no HSL math.
        // For each: the stored hex must equal the base val, not the transformed result.

        // Base: #003087 (navy blue), lumMod=75000 → naively expected darkened ~ #002465.
        let xml1 = theme_xml_with_dk2_srgbclr(
            r#"<a:srgbClr val="003087"><a:lumMod val="75000"/></a:srgbClr>"#,
        );
        let (slots1, _) = parse_theme_colors(xml1.as_bytes()).unwrap();
        let dk2_1 = &slots1[2];
        assert!(dk2_1.is_derived, "lumMod navy: is_derived must be true");
        assert_eq!(
            dk2_1.hex(),
            Some("#003087"),
            "lumMod navy: base hex verbatim"
        );
        assert_ne!(
            dk2_1.hex(),
            Some("#002465"),
            "lumMod navy: MUST NOT store resolved color"
        );

        // Base: #FF0000 (red), tint=50000 → naive tint → lighter red ~ #FF8080.
        let xml2 = theme_xml_with_dk2_srgbclr(
            r#"<a:srgbClr val="FF0000"><a:tint val="50000"/></a:srgbClr>"#,
        );
        let (slots2, _) = parse_theme_colors(xml2.as_bytes()).unwrap();
        let dk2_2 = &slots2[2];
        assert!(dk2_2.is_derived, "tint red: is_derived must be true");
        assert_eq!(dk2_2.hex(), Some("#FF0000"), "tint red: base hex verbatim");
        assert_ne!(
            dk2_2.hex(),
            Some("#FF8080"),
            "tint red: MUST NOT store resolved color"
        );

        // Base: #000000 (black), shade=60000 → naive shade → dark gray ~ #000000 (no change for black)
        // Use a non-trivial base: #808080, shade=50000 → darkened ~ #404040.
        let xml3 = theme_xml_with_dk2_srgbclr(
            r#"<a:srgbClr val="808080"><a:shade val="50000"/></a:srgbClr>"#,
        );
        let (slots3, _) = parse_theme_colors(xml3.as_bytes()).unwrap();
        let dk2_3 = &slots3[2];
        assert!(dk2_3.is_derived, "shade gray: is_derived must be true");
        assert_eq!(
            dk2_3.hex(),
            Some("#808080"),
            "shade gray: base hex verbatim"
        );
        assert_ne!(
            dk2_3.hex(),
            Some("#404040"),
            "shade gray: MUST NOT store resolved color"
        );
    }

    #[test]
    fn test_BC_2_01_003_EC003_extractor_unified_flag_drives_comment() {

        let make_slot = |name: &str, hex: &str, derived: bool| -> ColorSlot {
            ColorSlot {
                name: String::from(name),
                value: ColorValue::Hex(String::from(hex)),
                is_derived: derived,
            }
        };

        let mut colors: [ColorSlot; 12] = [
            make_slot("dk1", "#000000", false),
            make_slot("lt1", "#FFFFFF", false),
            // dk2 is_derived = true — simulates srgbClr + lumMod extraction.
            make_slot("dk2", "#003087", true),
            make_slot("lt2", "#F5F5F5", false),
            make_slot("acc1", "#0066CC", false),
            make_slot("acc2", "#FF6B35", false),
            make_slot("acc3", "#28A745", false),
            make_slot("acc4", "#FFC107", false),
            make_slot("acc5", "#6F42C1", false),
            make_slot("acc6", "#17A2B8", false),
            make_slot("hlink", "#0000EE", false),
            make_slot("folHlink", "#551A8B", false),
        ];

        let template = BrandTemplate {
            colors,
            fonts: BrandFonts {
                heading: String::from("Calibri Light"),
                body: String::from("Calibri"),
            },
            logo: None,
            footer_text: None,
            footer_flags: FooterFlags::default(),
            layout_names: vec![],
            layouts: vec![],
            notes_master_stub: vec![],
            handout_master_stub: vec![],
            master_ids: MasterIds::default(),
            content_types_layout_entries: String::from(""),
        };


        // Call the pub(crate) function directly from within the crate.
        let (toml_str, _logo_path) = slideforge_brand::extractor::brand_template_to_toml(&template, None);

        let dk2_line = toml_str
            .lines()
            .find(|l| l.starts_with("dk2 "))
            .unwrap_or_default();

        assert!(
            dk2_line.contains("# derived via tint/shade; may not match exact color"),
            "  unified path: dk2 (Hex + is_derived=true) must emit \
             inline comment '# derived via tint/shade; may not match exact color'.\n\
             Current implementation only branches on ColorValue::SchemeRef, not on \
             is_derived flag.\n\
             dk2 line: '{dk2_line}'\n\
             Full TOML:\n{toml_str}"
        );

        // Non-derived slots must NOT have the comment.
        let dk1_line = toml_str
            .lines()
            .find(|l| l.starts_with("dk1 "))
            .unwrap_or_default();
        assert!(
            !dk1_line.contains("# derived"),
            "non-derived slot dk1 must NOT have the inline comment, got: '{dk1_line}'"
        );

        // The output must still be valid TOML.
        let parsed: toml::Table = toml::from_str(&toml_str)
            .expect("TOML with inline comment on Hex slot must be valid TOML");
        assert_eq!(parsed["colors"]["dk2"].as_str(), Some("#003087"));
    }
