//! Logo extraction and media types.
use std::io::{Cursor, Write as _};

use slideforge_brand::logo::{
    extract_logo, find_image_target, media_type_from_extension, normalize_path, resolve_rels_target,
    SLIDE_MASTER_RELS_PATH,
};
use slideforge_brand::template::LogoAsset;
use zip::write::{SimpleFileOptions, ZipWriter};
use zip::CompressionMethod;

    #[test]
    fn test_bc_2_01_001_slide_master_rels_path() {
        assert_eq!(
            SLIDE_MASTER_RELS_PATH,
            "ppt/slideMasters/_rels/slideMaster1.xml.rels"
        );
    }

    #[test]
    fn test_bc_2_01_001_media_type_from_extension() {
        assert_eq!(media_type_from_extension("png").as_str(), "image/png");
        assert_eq!(media_type_from_extension("jpg").as_str(), "image/jpeg");
        assert_eq!(media_type_from_extension("jpeg").as_str(), "image/jpeg");
        assert_eq!(media_type_from_extension("gif").as_str(), "image/gif");
        assert_eq!(media_type_from_extension("svg").as_str(), "image/svg+xml");
        assert_eq!(media_type_from_extension("wmf").as_str(), "image/x-wmf");
        assert_eq!(media_type_from_extension("emf").as_str(), "image/x-emf");
        // Unknown extension falls back to octet-stream.
        assert_eq!(
            media_type_from_extension("xyz").as_str(),
            "application/octet-stream"
        );
    }

    #[test]
    fn test_bc_2_01_001_media_type_case_insensitive() {
        assert_eq!(media_type_from_extension("PNG").as_str(), "image/png");
        assert_eq!(media_type_from_extension("JPG").as_str(), "image/jpeg");
    }

fn package(entries: &[(&str, &[u8])]) -> Vec<u8> {
    let mut buf = Vec::new();
    {
        let mut zw = ZipWriter::new(Cursor::new(&mut buf));
        let opts = SimpleFileOptions::default().compression_method(CompressionMethod::Stored);
        for (name, bytes) in entries {
            zw.start_file(*name, opts).unwrap();
            zw.write_all(bytes).unwrap();
        }
        zw.finish().unwrap();
    }
    buf
}

const RELS: &str = r#"<?xml version="1.0" encoding="UTF-8" standalone="yes"?>
<Relationships xmlns="http://schemas.openxmlformats.org/package/2006/relationships">
  <Relationship Id="rId1" Type="http://schemas.openxmlformats.org/officeDocument/2006/relationships/slideLayout" Target="../slideLayouts/slideLayout1.xml"/>
  <Relationship Id="rId2" Type="http://schemas.openxmlformats.org/officeDocument/2006/relationships/image" Target="../media/image7.PNG"/>
  <Relationship Id="rId3" Type="http://schemas.openxmlformats.org/officeDocument/2006/relationships/image" Target="../media/image8.jpg"/>
</Relationships>"#;

#[test]
fn first_image_relationship_wins() {
    assert_eq!(find_image_target(RELS.as_bytes()), Some("../media/image7.PNG".to_string()));
    assert_eq!(find_image_target(b"<Relationships/>"), None);
}

#[test]
fn relationship_targets_resolve_against_slide_masters() {
    assert_eq!(resolve_rels_target("../media/image1.png"), "ppt/media/image1.png");
    assert_eq!(resolve_rels_target("/ppt/media/logo.svg"), "ppt/media/logo.svg");
    assert_eq!(resolve_rels_target("./a/../b.png"), "ppt/slideMasters/b.png");
}

#[test]
fn normalize_path_drops_dot_and_empty_segments() {
    assert_eq!(normalize_path("a//b/./c/../d"), "a/b/d");
    assert_eq!(normalize_path("../../x"), "x");
    assert_eq!(normalize_path(""), "");
    assert_eq!(normalize_path("/"), "");
}

#[test]
fn logo_is_read_from_the_package() {
    let img: &[u8] = &[0x89, 0x50, 0x4E, 0x47];
    let zip = package(&[(SLIDE_MASTER_RELS_PATH, RELS.as_bytes()), ("ppt/media/image7.PNG", img)]);
    match extract_logo(&zip) {
        Some(LogoAsset::Loaded { bytes, media_type, original_path }) => {
            assert_eq!(bytes, img);
            assert_eq!(media_type, "image/png");
            assert_eq!(original_path, "ppt/media/image7.PNG");
        },
        other => panic!("expected a loaded logo, got {other:?}"),
    }
}

#[test]
fn missing_image_part_means_no_logo() {
    let zip = package(&[(SLIDE_MASTER_RELS_PATH, RELS.as_bytes())]);
    assert!(extract_logo(&zip).is_none());
    let empty = package(&[("ppt/presentation.xml", &b"<p/>"[..])]);
    assert!(extract_logo(&empty).is_none());
    assert!(extract_logo(b"not a zip").is_none());
}

#[test]
fn unknown_extension_is_octet_stream() {
    assert_eq!(media_type_from_extension(""), "application/octet-stream");
    assert_eq!(media_type_from_extension("Emf"), "image/x-emf");
}

#[test]
fn media_type_ignores_case() {
    for ext in ["PnG", "JPEG", "Svg", "wMf", "EMF", "XYZ", ""] {
        assert_eq!(media_type_from_extension(ext), media_type_from_extension(&ext.to_lowercase()));
    }
}
