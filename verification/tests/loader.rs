//! Loading brand templates from `.pptx` and `.docx` packages.
use slideforge_brand::context::BrandLoadContext;
use slideforge_brand::error::{BrandError, SourceSpan};
use slideforge_brand::loader::{
    brand_from_template, to_provider_error, toml_source_error, BrandLoader, ProviderError, DOCX_THEME_PATH, PPTX_THEME_PATH,
};
use slideforge_brand::template::LogoAsset;
    use std::io::{Cursor, Write as _};

    use zip::write::{SimpleFileOptions, ZipWriter};
    use zip::CompressionMethod;
use std::io::Write;
    

    // ─── Canonical theme1.xml fixtures ────────────────────────────────────────

    const MINIMAL_THEME_XML: &str = r#"<?xml version="1.0" encoding="UTF-8" standalone="yes"?>
<a:theme xmlns:a="http://schemas.openxmlformats.org/drawingml/2006/main" name="MinimalTheme">
  <a:themeElements>
    <a:clrScheme name="MinimalScheme">
      <a:dk1><a:srgbClr val="000000"/></a:dk1>
      <a:lt1><a:srgbClr val="FFFFFF"/></a:lt1>
      <a:dk2><a:srgbClr val="003087"/></a:dk2>
      <a:lt2><a:srgbClr val="F5F5F5"/></a:lt2>
      <a:acc1><a:srgbClr val="0066CC"/></a:acc1>
      <a:acc2><a:srgbClr val="FF6B35"/></a:acc2>
      <a:acc3><a:srgbClr val="28A745"/></a:acc3>
      <a:acc4><a:srgbClr val="FFC107"/></a:acc4>
      <a:acc5><a:srgbClr val="6F42C1"/></a:acc5>
      <a:acc6><a:srgbClr val="17A2B8"/></a:acc6>
      <a:hlink><a:srgbClr val="0000EE"/></a:hlink>
      <a:folHlink><a:srgbClr val="551A8B"/></a:folHlink>
    </a:clrScheme>
    <a:fontScheme name="MinimalFontScheme">
      <a:majorFont><a:latin typeface="Calibri Light"/></a:majorFont>
      <a:minorFont><a:latin typeface="Calibri"/></a:minorFont>
    </a:fontScheme>
  </a:themeElements>
</a:theme>"#;

    /// `theme1.xml` with only 8 of 12 color slots (missing acc3, acc4, acc5, acc6).
    const PARTIAL_THEME_XML: &str = r#"<?xml version="1.0" encoding="UTF-8" standalone="yes"?>
<a:theme xmlns:a="http://schemas.openxmlformats.org/drawingml/2006/main" name="PartialTheme">
  <a:themeElements>
    <a:clrScheme name="PartialScheme">
      <a:dk1><a:srgbClr val="000000"/></a:dk1>
      <a:lt1><a:srgbClr val="FFFFFF"/></a:lt1>
      <a:dk2><a:srgbClr val="003087"/></a:dk2>
      <a:lt2><a:srgbClr val="F5F5F5"/></a:lt2>
      <a:acc1><a:srgbClr val="0066CC"/></a:acc1>
      <a:acc2><a:srgbClr val="FF6B35"/></a:acc2>
      <a:hlink><a:srgbClr val="0000EE"/></a:hlink>
      <a:folHlink><a:srgbClr val="551A8B"/></a:folHlink>
    </a:clrScheme>
    <a:fontScheme name="PartialFontScheme">
      <a:majorFont><a:latin typeface="Arial"/></a:majorFont>
      <a:minorFont><a:latin typeface="Arial"/></a:minorFont>
    </a:fontScheme>
  </a:themeElements>
</a:theme>"#;

    // ─── ZIP fixture builders ──────────────────────────────────────────────────

    /// Build an in-memory PPTX ZIP fixture with the given `theme1.xml` content.
    ///
    /// Adds `ppt/theme/theme1.xml` so the loader detects it as a PPTX.
    fn build_pptx_zip(theme_xml: &str) -> Vec<u8> {
        let mut buf = Vec::new();
        {
            let cursor = Cursor::new(&mut buf);
            let mut zw = ZipWriter::new(cursor);
            let opts = SimpleFileOptions::default()
                .compression_method(CompressionMethod::Stored);
            zw.start_file(PPTX_THEME_PATH, opts).unwrap();
            zw.write_all(theme_xml.as_bytes()).unwrap();
            // Add a minimal [Content_Types].xml so the ZIP is structurally valid.
            zw.start_file("[Content_Types].xml", opts).unwrap();
            zw.write_all(b"<?xml version=\"1.0\" encoding=\"UTF-8\"?><Types xmlns=\"http://schemas.openxmlformats.org/package/2006/content-types\"/>").unwrap();
            zw.finish().unwrap();
        }
        buf
    }

    /// Build an in-memory DOCX ZIP fixture with the given `theme1.xml` content.
    ///
    /// Adds `word/theme/theme1.xml` so the loader detects it as a DOCX.
    fn build_docx_zip(theme_xml: &str) -> Vec<u8> {
        let mut buf = Vec::new();
        {
            let cursor = Cursor::new(&mut buf);
            let mut zw = ZipWriter::new(cursor);
            let opts = SimpleFileOptions::default()
                .compression_method(CompressionMethod::Stored);
            zw.start_file(DOCX_THEME_PATH, opts).unwrap();
            zw.write_all(theme_xml.as_bytes()).unwrap();
            zw.start_file("[Content_Types].xml", opts).unwrap();
            zw.write_all(b"<?xml version=\"1.0\" encoding=\"UTF-8\"?><Types xmlns=\"http://schemas.openxmlformats.org/package/2006/content-types\"/>").unwrap();
            zw.finish().unwrap();
        }
        buf
    }

    /// Write bytes to a temp file and return the path.
    ///
    /// Uses a combination of nanosecond timestamp and thread ID to make the

    // ─── Loader tests ──────────────────────────────────────────────────────────

    #[test]
    fn test_bc_2_01_001_load_valid_pptx() {
        let zip_bytes = build_pptx_zip(MINIMAL_THEME_XML);
        let bytes: &[u8] = &zip_bytes;
        let path = "template.pptx";
        let loader = BrandLoader::new();
        let ctx = BrandLoadContext::for_test();

        let result = loader.load_template(path, Some(bytes), &ctx);

        let template = result.expect("valid PPTX must load without error");
        assert_eq!(
            template.colors.len(),
            12,
            "invariant: must have exactly 12 color slots"
        );
    }

    #[test]
    fn test_bc_2_01_001_load_valid_docx() {
        let zip_bytes = build_docx_zip(MINIMAL_THEME_XML);
        let bytes: &[u8] = &zip_bytes;
        let path = "template.docx";
        let loader = BrandLoader::new();
        let ctx = BrandLoadContext::for_test();

        let result = loader.load_template(path, Some(bytes), &ctx);

        let template = result.expect("valid DOCX must load without error");
        assert_eq!(
            template.colors.len(),
            12,
            "invariant: must have exactly 12 color slots"
        );
    }

    #[test]
    fn test_bc_2_01_001_load_missing_file() {
        let loader = BrandLoader::new();
        let ctx = BrandLoadContext::for_test();
        let nonexistent = "/tmp/slideforge_nonexistent_9999999.pptx";

        let result = loader.load_template(nonexistent, None, &ctx);

        assert!(
            result.is_err(),
            "non-existent path must return an error"
        );
        assert!(
            matches!(result.as_ref().unwrap_err(), BrandError::FileNotFound { .. }),
            "expected BrandError::FileNotFound, got: {:?}",
            result.unwrap_err()
        );
    }

    #[test]
    fn test_bc_2_01_001_load_corrupt_file() {
        // Write random non-ZIP bytes to a .pptx file.
        let corrupt_bytes: &[u8] = b"THIS IS NOT A ZIP ARCHIVE AT ALL \x00\x01\x02\x03";
        let bytes: &[u8] = corrupt_bytes;
        let path = "template.pptx";
        let loader = BrandLoader::new();
        let ctx = BrandLoadContext::for_test();

        let result = loader.load_template(path, Some(bytes), &ctx);

        assert!(result.is_err(), "corrupt file must return an error");
        assert!(
            matches!(result.as_ref().unwrap_err(), BrandError::ParseError { .. }),
            "expected BrandError::ParseError, got: {:?}",
            result.unwrap_err()
        );
    }

    #[test]
    fn test_bc_2_01_001_load_partial_colors() {
        let zip_bytes = build_pptx_zip(PARTIAL_THEME_XML);
        let bytes: &[u8] = &zip_bytes;
        let path = "template.pptx";
        let loader = BrandLoader::new();
        let ctx = BrandLoadContext::for_test();

        let result = loader.load_template(path, Some(bytes), &ctx);

        let template = result.expect("partial template must load (missing slots are warnings, not errors)");
        assert_eq!(
            template.colors.len(),
            12,
            "invariant: must always have 12 slots even with partial source"
        );
    }

    #[test]
    fn test_bc_2_01_001_load_no_logo() {
        let zip_bytes = build_pptx_zip(MINIMAL_THEME_XML);
        let bytes: &[u8] = &zip_bytes;
        let path = "template.pptx";
        let loader = BrandLoader::new();
        let ctx = BrandLoadContext::for_test();

        let result = loader.load_template(path, Some(bytes), &ctx);

        let template = result.expect("PPTX with no logo must load without error");
        assert!(
            template.logo.is_none(),
            "PPTX with no image relationship must have logo == None "
        );
    }

    #[test]
    fn test_bc_2_01_001_internal_path_constants() {
        assert_eq!(PPTX_THEME_PATH, "ppt/theme/theme1.xml");
        assert_eq!(DOCX_THEME_PATH, "word/theme/theme1.xml");
    }

    #[test]
    fn test_bc_2_01_001_brand_loader_provider_id() {
        let loader = BrandLoader::new();
        assert_eq!(loader.id(), "slideforge-brand/default");
    }

    #[test]
    fn test_bc_2_01_006_font_unavailable_is_cosmetic() {
        let zip_bytes = build_pptx_zip(MINIMAL_THEME_XML);
        let bytes: &[u8] = &zip_bytes;
        let path = "template.pptx";
        let loader = BrandLoader::new();
        let ctx = BrandLoadContext {
            check_font_availability: true,
            root_dir: String::from("."),
            span: SourceSpan::default(),
        };

        let result = loader.load_template(path, Some(bytes), &ctx);

        // The result is Ok — font unavailability is cosmetic.
        assert!(
            result.is_ok(),
            "font unavailability must not cause load to fail "
        );
    }

    #[test]
    fn test_bc_2_01_001_load_logo_positive_path() {

        // Minimal PNG header (8 bytes).
        let png_bytes: &[u8] = &[0x89, 0x50, 0x4E, 0x47, 0x0D, 0x0A, 0x1A, 0x0A];

        // Build a PPTX ZIP with a logo relationship.
        let zip_bytes = {
            let mut buf = Vec::new();
            let cursor = std::io::Cursor::new(&mut buf);
            let mut zw = zip::ZipWriter::new(cursor);
            let opts = zip::write::SimpleFileOptions::default()
                .compression_method(zip::CompressionMethod::Stored);

            // Theme file.
            zw.start_file(PPTX_THEME_PATH, opts).unwrap();
            zw.write_all(MINIMAL_THEME_XML.as_bytes()).unwrap();

            // Slide master rels file with an image relationship.
            zw.start_file("ppt/slideMasters/_rels/slideMaster1.xml.rels", opts)
                .unwrap();
            let rels_xml = r#"<?xml version="1.0" encoding="UTF-8" standalone="yes"?>
<Relationships xmlns="http://schemas.openxmlformats.org/package/2006/relationships">
  <Relationship Id="rId1"
    Type="http://schemas.openxmlformats.org/officeDocument/2006/relationships/image"
    Target="../media/image1.png"/>
</Relationships>"#;
            zw.write_all(rels_xml.as_bytes()).unwrap();

            // Image file.
            zw.start_file("ppt/media/image1.png", opts).unwrap();
            zw.write_all(png_bytes).unwrap();

            // Content types (minimal).
            zw.start_file("[Content_Types].xml", opts).unwrap();
            zw.write_all(b"<?xml version=\"1.0\" encoding=\"UTF-8\"?><Types xmlns=\"http://schemas.openxmlformats.org/package/2006/content-types\"/>").unwrap();
            zw.finish().unwrap();
            buf
        };

        let bytes: &[u8] = &zip_bytes;
        let path = "template.pptx";
        let loader = BrandLoader::new();
        let ctx = BrandLoadContext::for_test();

        let result = loader.load_template(path, Some(bytes), &ctx);

        let template = result.expect("PPTX with logo must load without error");

        // Logo must be Some.
        let logo = template.logo.expect("logo must be present ");
        let LogoAsset::Loaded { bytes, media_type, original_path } = logo else {
            panic!("a logo read from the package must be loaded");
        };
        assert_eq!(
            bytes, png_bytes,
            "logo bytes must match the image1.png content"
        );
        assert_eq!(
            media_type.as_str(),
            "image/png",
            "logo media type must be image/png for .png extension"
        );
        assert_eq!(
            original_path.as_str(),
            "ppt/media/image1.png",
            "logo original_path must be the resolved ZIP-internal path"
        );
    }

    #[test]
    fn test_bc_2_01_001_brand_provider_load_pptx() {
        let zip_bytes = build_pptx_zip(MINIMAL_THEME_XML);
        let bytes: &[u8] = &zip_bytes;
        let path = "template.pptx";
        let loader = BrandLoader::new();

        let result = loader
            .load_template(path, Some(bytes), &BrandLoadContext::for_test())
            .map(|t| brand_from_template(&t, path));

        let brand = result.expect("BrandProvider::load must succeed for valid PPTX");
        // Palette slots (from MINIMAL_THEME_XML):
        // dk2 = 003087, acc1 = 0066CC, acc2 = FF6B35, lt2 = F5F5F5
        assert_eq!(brand.palette.primary.as_str(), "#003087", "primary = dk2");
        assert_eq!(brand.palette.secondary.as_str(), "#0066CC", "secondary = acc1");
        assert_eq!(brand.palette.accent.as_str(), "#FF6B35", "accent = acc2");
        assert_eq!(brand.palette.neutral.as_str(), "#F5F5F5", "neutral = lt2");
        // Fonts from theme.
        assert_eq!(brand.fonts.heading.as_str(), "Calibri Light");
        assert_eq!(brand.fonts.body.as_str(), "Calibri");
        assert_eq!(brand.fonts.mono.as_str(), "Courier New");
    }

    #[test]
    fn test_bc_2_01_001_brand_provider_load_docx() {
        let zip_bytes = build_docx_zip(MINIMAL_THEME_XML);
        let bytes: &[u8] = &zip_bytes;
        let path = "template.docx";
        let loader = BrandLoader::new();

        let result = loader
            .load_template(path, Some(bytes), &BrandLoadContext::for_test())
            .map(|t| brand_from_template(&t, path));

        let brand = result.expect("BrandProvider::load must succeed for valid DOCX");
        assert_eq!(brand.palette.primary.as_str(), "#003087", "primary = dk2");
    }

#[test]
fn docx_template_has_no_logo_footer_or_layout_names() {
    let zip_bytes = build_docx_zip(MINIMAL_THEME_XML);
    let t = BrandLoader::new()
        .load_template("t.docx", Some(&zip_bytes), &BrandLoadContext::for_test())
        .expect("valid DOCX");
    assert!(t.logo.is_none());
    assert!(t.footer_text.is_none());
    assert!(t.layout_names.is_empty());
    assert_eq!(t.fonts.heading, "Calibri Light");
}

#[test]
fn package_without_theme_is_a_parse_error() {
    let mut buf = Vec::new();
    {
        let mut zw = ZipWriter::new(Cursor::new(&mut buf));
        let opts = SimpleFileOptions::default().compression_method(CompressionMethod::Stored);
        zw.start_file("docProps/app.xml", opts).unwrap();
        zw.write_all(b"<Properties/>").unwrap();
        zw.finish().unwrap();
    }
    let r = BrandLoader::new().load_template("x.pptx", Some(&buf), &BrandLoadContext::for_test());
    match r {
        Err(BrandError::ParseError { path, reason, .. }) => {
            assert_eq!(path, "x.pptx");
            assert_eq!(reason, "neither ppt/theme/theme1.xml nor word/theme/theme1.xml found in archive");
        },
        other => panic!("expected a parse error, got {other:?}"),
    }
}

#[test]
fn layout_parts_are_listed_in_archive_order() {
    let mut buf = Vec::new();
    {
        let mut zw = ZipWriter::new(Cursor::new(&mut buf));
        let opts = SimpleFileOptions::default().compression_method(CompressionMethod::Stored);
        for name in [
            PPTX_THEME_PATH,
            "ppt/slideLayouts/slideLayout2.xml",
            "ppt/slideLayouts/_rels/slideLayout2.xml.rels",
            "ppt/slideLayouts/slideLayout1.XML",
            "ppt/slideLayouts/notes.xml",
        ] {
            zw.start_file(name, opts).unwrap();
            zw.write_all(if name == PPTX_THEME_PATH { MINIMAL_THEME_XML.as_bytes() } else { &b"<x/>"[..] }).unwrap();
        }
        zw.finish().unwrap();
    }
    let t = BrandLoader::new().load_template("x.pptx", Some(&buf), &BrandLoadContext::for_test()).expect("loads");
    assert_eq!(
        t.layout_names,
        vec!["ppt/slideLayouts/slideLayout2.xml".to_string(), "ppt/slideLayouts/slideLayout1.XML".to_string()]
    );
}

#[test]
fn brand_name_is_file_stem() {
    let zip_bytes = build_pptx_zip(MINIMAL_THEME_XML);
    let t = BrandLoader::new()
        .load_template("dir/acme-brand.pptx", Some(&zip_bytes), &BrandLoadContext::for_test())
        .expect("loads");
    let b = brand_from_template(&t, "dir/acme-brand.pptx");
    assert_eq!(b.name, "acme-brand");
    assert_eq!(b.span, SourceSpan::default());
}

#[test]
fn test_bc_2_01_001_brand_provider_load_missing_file() {
    let loader = BrandLoader::new();
    let path = "/tmp/slideforge_nonexistent_brand_9999999.pptx";
    let result = loader.load_template(path, None, &BrandLoadContext::for_test()).map_err(|e| to_provider_error(&e));
    assert!(result.is_err(), "BrandProvider::load must return Err for missing file");
    assert!(
        matches!(result.unwrap_err(), ProviderError::SourceNotFound { .. }),
        "must be SourceNotFound error"
    );
}

#[test]
fn provider_errors_of_loading_errors() {
    let parse = BrandError::ParseError { path: "a.pptx".into(), reason: "bad".into(), span: SourceSpan::default() };
    assert_eq!(
        to_provider_error(&parse),
        ProviderError::ParseError { uri: "a.pptx".into(), message: "bad".into() }
    );
    let other = BrandError::OutputExists { path: "b/brand.toml".into() };
    assert_eq!(to_provider_error(&other), ProviderError::ValidationError { message: other.message() });
}

#[test]
fn test_bc_2_01_001_brand_provider_load_toml_not_yet_supported() {
    let result: Result<(), ProviderError> = Err(toml_source_error("brand.toml"));
    assert!(result.is_err(), "BrandProvider::load for TOML must return Err (not yet implemented)");
    assert!(
        matches!(result.unwrap_err(), ProviderError::ValidationError { .. }),
        "must be ValidationError for TOML source"
    );
    assert_eq!(
        toml_source_error("b.toml"),
        ProviderError::ValidationError {
            message: "TOML brand files are not yet supported by the built-in brand loader (path: 'b.toml'). \
                      Use a .pptx or .docx template source. TOML synthesis is implemented in STORY-023."
                .to_string()
        }
    );
}
