//! Error codes and messages.
use slideforge_brand::error::{
    BrandError, SourceSpan, E_BRD_001, E_BRD_002, E_BRD_003, E_BRD_004, E_BRD_005, E_BRD_007,
};

#[test]
fn test_bc_2_01_001_error_codes() {
    assert_eq!(E_BRD_001, "E-BRD-001");
    assert_eq!(E_BRD_002, "E-BRD-002");
    assert_eq!(E_BRD_003, "E-BRD-003");
    assert_eq!(E_BRD_004, "E-BRD-004");
    assert_eq!(E_BRD_005, "E-BRD-005");
    assert_eq!(E_BRD_007, "E-BRD-007");
}

#[test]
fn test_bc_2_01_001_file_not_found_message() {
    let err = BrandError::FileNotFound {
        path: String::from("missing.pptx"),
        span: SourceSpan::default(),
    };
    let msg = err.message();
    assert!(
        msg.contains("missing.pptx"),
        "error message must contain path, got: {msg}"
    );
    assert!(
        msg.contains("E-BRD-001"),
        "error message must contain error code, got: {msg}"
    );
}

#[test]
fn test_bc_2_01_001_parse_error_message() {
    let err = BrandError::ParseError {
        path: String::from("corrupt.pptx"),
        reason: String::from("not a valid ZIP archive"),
        span: SourceSpan::default(),
    };
    let msg = err.message();
    assert!(
        msg.contains("corrupt.pptx"),
        "error message must contain path, got: {msg}"
    );
    assert!(
        msg.contains("not a valid ZIP archive"),
        "error message must contain reason, got: {msg}"
    );
    assert!(
        msg.contains("E-BRD-002"),
        "error message must contain error code, got: {msg}"
    );
}

#[test]
fn test_finding_001_parse_error_says_docx_not_toml() {
    let err = BrandError::ParseError {
        path: String::from("brand.pptx"),
        reason: String::from("not a ZIP archive"),
        span: SourceSpan::default(),
    };
    let msg = err.message();
    assert!(
        msg.contains("DOCX"),
        "ParseError message must contain 'DOCX', got: {msg}"
    );
    assert!(
        !msg.contains("TOML"),
        "ParseError message must NOT contain 'TOML', got: {msg}"
    );
}

#[test]
fn test_bc_2_01_001_missing_color_slot_message() {
    let err = BrandError::MissingColorSlot {
        slot_name: String::from("acc3"),
        inferred_hex: String::from("#808080"),
        derivation: String::from("default inference"),
    };
    let msg = err.message();
    assert!(
        msg.contains("acc3"),
        "error message must contain slot name, got: {msg}"
    );
    assert!(
        msg.contains("#808080"),
        "error message must contain inferred hex, got: {msg}"
    );
    assert!(
        msg.contains("E-BRD-003"),
        "error message must contain error code, got: {msg}"
    );
}

#[test]
fn test_bc_2_01_006_font_unavailable_message() {
    let err = BrandError::FontUnavailable {
        font_name: String::from("Aptos Display"),
        fallback: String::from("Calibri"),
    };
    let msg = err.message();
    assert!(
        msg.contains("Aptos Display"),
        "error message must contain font name, got: {msg}"
    );
    assert!(
        msg.contains("Calibri"),
        "error message must contain fallback, got: {msg}"
    );
    assert!(
        msg.contains("E-BRD-004"),
        "error message must contain error code, got: {msg}"
    );
}

/// E-BRD-007 — `LogoOutsideBrandDir` message contains logo path, brand dir, and error code.
#[test]
fn test_e_brd_007_logo_outside_brand_dir_message() {
    let err = BrandError::LogoOutsideBrandDir {
        logo_path: "/tmp/etc/passwd".to_owned(),
        brand_dir: "/tmp/brand".to_owned(),
    };
    let msg = err.message();
    assert!(
        msg.contains("E-BRD-007"),
        "error message must contain E-BRD-007, got: {msg}"
    );
    assert!(
        msg.contains("/tmp/etc/passwd"),
        "error message must contain logo path, got: {msg}"
    );
    assert!(
        msg.contains("/tmp/brand"),
        "error message must contain brand dir, got: {msg}"
    );
}

#[test]
fn test_f_pass16_med_1_e_brd_005_message_matches_taxonomy() {
    let err = BrandError::InvalidHexColor {
        slot_name: String::from("acc1"),
        value: String::from("zzzzzz"),
    };
    let msg = err.message();
    assert!(
        msg.contains("E-BRD-005"),
        "must contain error code, got: {msg}"
    );
    assert!(
        msg.contains("value"),
        "must contain the word 'value', got: {msg}"
    );
    assert!(
        msg.contains("case insensitive"),
        "must contain case-insensitivity note, got: {msg}"
    );
    assert!(msg.contains("acc1"), "must contain slot name, got: {msg}");
    assert!(
        msg.contains("zzzzzz"),
        "must contain the invalid value, got: {msg}"
    );
}

#[test]
fn test_finding_005_font_unavailable_does_not_include_panose() {
    let err = BrandError::FontUnavailable {
        font_name: String::from("Calibri Light"),
        fallback: String::from("Arial"),
    };
    let msg = err.message();
    // Must NOT include "panose" — we cannot provide it without font binary parsing.
    assert!(
        !msg.contains("panose"),
        "E-BRD-004 message must not include panose (not available from name-scan), \
         got: {msg}"
    );
    // Must still include the required fields.
    assert!(msg.contains("E-BRD-004"), "must have error code");
    assert!(msg.contains("Calibri Light"), "must have font name");
    assert!(msg.contains("Arial"), "must have fallback");
}

#[test]
fn error_code_of_each_variant() {
    let span = SourceSpan::default();
    assert_eq!(BrandError::FileNotFound { path: "a".to_string(), span }.code(), "E-BRD-001");
    assert_eq!(BrandError::LogoRequired { span }.code(), "E-BRD-001");
    assert_eq!(BrandError::TomlReadError { path: "a".into(), reason: "r".into() }.code(), "E-BRD-001");
    assert_eq!(BrandError::ParseError { path: "a".into(), reason: "r".into(), span }.code(), "E-BRD-002");
    assert_eq!(BrandError::TomlParseError { path: "a".into(), reason: "r".into() }.code(), "E-BRD-002");
    assert_eq!(
        BrandError::MissingColorSlot { slot_name: "dk1".into(), inferred_hex: "#000000".into(), derivation: "d".into() }
            .code(),
        "E-BRD-003"
    );
    assert_eq!(BrandError::FontUnavailable { font_name: "F".into(), fallback: "Arial".into() }.code(), "E-BRD-004");
    assert_eq!(BrandError::DeclaredFontUnavailable { font_name: "F".into() }.code(), "E-BRD-004");
    assert_eq!(BrandError::InvalidHexColor { slot_name: "acc1".into(), value: "x".into() }.code(), "E-BRD-005");
    assert_eq!(BrandError::OutputExists { path: "p".into() }.code(), "E-BRD-006");
    assert_eq!(BrandError::LogoOutsideBrandDir { logo_path: "l".into(), brand_dir: "d".into() }.code(), "E-BRD-007");
}

#[test]
fn cosmetic_errors_are_not_fatal() {
    let span = SourceSpan::default();
    assert!(BrandError::FileNotFound { path: "a".into(), span }.is_fatal());
    assert!(BrandError::OutputExists { path: "p".into() }.is_fatal());
    assert!(BrandError::LogoRequired { span }.is_fatal());
    assert!(!BrandError::InvalidHexColor { slot_name: "acc1".into(), value: "x".into() }.is_fatal());
    assert!(!BrandError::FontUnavailable { font_name: "F".into(), fallback: "Arial".into() }.is_fatal());
    assert!(!BrandError::MissingColorSlot {
        slot_name: "dk1".into(),
        inferred_hex: "#000000".into(),
        derivation: "d".into()
    }
    .is_fatal());
}

#[test]
fn output_exists_message_is_exact() {
    let err = BrandError::OutputExists { path: "out/brand.toml".into() };
    assert_eq!(err.message(), "E-BRD-006: out/brand.toml: brand.toml already exists. Use --force to overwrite.");
}

#[test]
fn logo_required_message_is_exact() {
    let err = BrandError::LogoRequired { span: SourceSpan::default() };
    assert_eq!(
        err.message(),
        "E-BRD-001: A logo path is required. Add a [logo] section with 'path = \"...\"' to brand.toml, \
         or give the slide's brand_overlay: a non-empty logo path."
    );
}
