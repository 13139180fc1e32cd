//! Footer detection.
    use std::io::{Cursor, Write as _};

    use zip::CompressionMethod;
    use zip::write::{SimpleFileOptions, ZipWriter};

    use slideforge_brand::footer::{detect_footer, FooterFlags};
use slideforge_brand::template::{BrandFonts, BrandTemplate, ColorSlot, ColorValue, MasterIds};
use slideforge_brand::context::BrandLoadContext;
use slideforge_brand::loader::BrandLoader;
use slideforge_brand::footer::parse_ooxml_bool;
use slideforge_brand::footer::{parse_footer_text_from_xml, FooterText};

    // ─── ZIP fixture builders ─────────────────────────────────────────────────

    /// Minimal `theme1.xml` embedded in test ZIPs so PPTX detection succeeds.
    const MINIMAL_THEME_XML: &str = r#"<?xml version="1.0" encoding="UTF-8" standalone="yes"?>
<a:theme xmlns:a="http://schemas.openxmlformats.org/drawingml/2006/main" name="TestTheme">
  <a:themeElements>
    <a:clrScheme name="TestScheme">
      <a:dk1><a:srgbClr val="000000"/></a:dk1>
      <a:lt1><a:srgbClr val="FFFFFF"/></a:lt1>
      <a:dk2><a:srgbClr val="003087"/></a:dk2>
      <a:lt2><a:srgbClr val="F5F5F5"/></a:lt2>
      <a:acc1><a:srgbClr val="0066CC"/></a:acc1>
      <a:acc2><a:srgbClr val="FF6B35"/></a:acc2>
      <a:acc3><a:srgbClr val="28A745"/></a:acc3>
      <a:acc4><a:srgbClr val="FFC107"/></a:acc4>
      <a:acc5><a:srgbClr val="6F42C1"/></a:acc5>
      <a:acc6><a:srgbClr val="17A2B8"/></a:acc6>
      <a:hlink><a:srgbClr val="0000EE"/></a:hlink>
      <a:folHlink><a:srgbClr val="551A8B"/></a:folHlink>
    </a:clrScheme>
    <a:fontScheme name="TestFontScheme">
      <a:majorFont><a:latin typeface="Calibri Light"/></a:majorFont>
      <a:minorFont><a:latin typeface="Calibri"/></a:minorFont>
    </a:fontScheme>
  </a:themeElements>
</a:theme>"#;

    /// Minimal slide master XML with a populated footer placeholder AND a `<p:hf>` element
    /// with all three flags set to "1".
    ///
    /// Contains `<p:ph type="ftr"/>` with `<a:t>Confidential</a:t>` and
    /// `<p:hf ftr="1" dt="1" sldNum="1"/>`.
    const MASTER_WITH_FOOTER_XML: &str = r#"<?xml version="1.0" encoding="UTF-8" standalone="yes"?>
<p:sldMaster xmlns:p="http://schemas.openxmlformats.org/presentationml/2006/main"
             xmlns:a="http://schemas.openxmlformats.org/drawingml/2006/main">
  <p:hf ftr="1" dt="1" sldNum="1"/>
  <p:spTree>
    <p:sp>
      <p:nvSpPr>
        <p:nvPr>
          <p:ph type="ftr" sz="quarter" idx="11"/>
        </p:nvPr>
      </p:nvSpPr>
      <p:txBody>
        <a:bodyPr/>
        <a:lstStyle/>
        <a:p>
          <a:r><a:t>Confidential</a:t></a:r>
        </a:p>
      </p:txBody>
    </p:sp>
  </p:spTree>
</p:sldMaster>"#;

    const MASTER_MULTIRUN_FOOTER_XML: &str = r#"<?xml version="1.0" encoding="UTF-8" standalone="yes"?>
<p:sldMaster xmlns:p="http://schemas.openxmlformats.org/presentationml/2006/main"
             xmlns:a="http://schemas.openxmlformats.org/drawingml/2006/main">
  <p:hf ftr="1" dt="0" sldNum="0"/>
  <p:spTree>
    <p:sp>
      <p:nvSpPr>
        <p:nvPr>
          <p:ph type="ftr" sz="quarter" idx="11"/>
        </p:nvPr>
      </p:nvSpPr>
      <p:txBody>
        <a:bodyPr/>
        <a:lstStyle/>
        <a:p>
          <a:r><a:t>Acme Confidential </a:t></a:r>
          <a:r><a:t>2026</a:t></a:r>
        </a:p>
      </p:txBody>
    </p:sp>
  </p:spTree>
</p:sldMaster>"#;

    /// Slide master XML with `<p:hf ftr="1" sldNum="1"/>` — `dt` attribute ABSENT.
    ///
    /// Expected: `show_footer=true`, `show_date=false` (absent=false), `show_slide_number=true`.
    /// Also contains a footer placeholder so the ZIP is self-consistent.
    const MASTER_HF_FTR_AND_SLDNUM_XML: &str = r#"<?xml version="1.0" encoding="UTF-8" standalone="yes"?>
<p:sldMaster xmlns:p="http://schemas.openxmlformats.org/presentationml/2006/main"
             xmlns:a="http://schemas.openxmlformats.org/drawingml/2006/main">
  <p:hf ftr="1" sldNum="1"/>
  <p:spTree>
    <p:sp>
      <p:nvSpPr>
        <p:nvPr>
          <p:ph type="ftr" sz="quarter" idx="11"/>
        </p:nvPr>
      </p:nvSpPr>
      <p:txBody>
        <a:bodyPr/>
        <a:lstStyle/>
        <a:p><a:r><a:t>Corp Footer</a:t></a:r></a:p>
      </p:txBody>
    </p:sp>
  </p:spTree>
</p:sldMaster>"#;

    /// Slide master XML with `<p:hf ftr="true" dt="true" sldNum="false"/>` —
    /// tests OOXML boolean "true"/"false" string form (in addition to "1"/"0").
    const MASTER_HF_BOOL_STRING_FORM_XML: &str = r#"<?xml version="1.0" encoding="UTF-8" standalone="yes"?>
<p:sldMaster xmlns:p="http://schemas.openxmlformats.org/presentationml/2006/main"
             xmlns:a="http://schemas.openxmlformats.org/drawingml/2006/main">
  <p:hf ftr="true" dt="true" sldNum="false"/>
  <p:spTree>
    <p:sp>
      <p:nvSpPr>
        <p:nvPr>
          <p:ph type="ftr" idx="11"/>
        </p:nvPr>
      </p:nvSpPr>
      <p:txBody>
        <a:bodyPr/><a:lstStyle/>
        <a:p><a:r><a:t>Bool Form Test</a:t></a:r></a:p>
      </p:txBody>
    </p:sp>
  </p:spTree>
</p:sldMaster>"#;

    const MASTER_HF_ALL_ATTRS_ABSENT_XML: &str = r#"<?xml version="1.0" encoding="UTF-8" standalone="yes"?>
<p:sldMaster xmlns:p="http://schemas.openxmlformats.org/presentationml/2006/main"
             xmlns:a="http://schemas.openxmlformats.org/drawingml/2006/main">
  <p:hf hdr="0"/>
  <p:spTree>
    <p:sp>
      <p:nvSpPr>
        <p:nvPr>
          <p:ph type="ftr" idx="11"/>
        </p:nvPr>
      </p:nvSpPr>
      <p:txBody>
        <a:bodyPr/><a:lstStyle/>
        <a:p><a:r><a:t>Footer</a:t></a:r></a:p>
      </p:txBody>
    </p:sp>
  </p:spTree>
</p:sldMaster>"#;

    const MASTER_NO_HF_ELEMENT_XML: &str = r#"<?xml version="1.0" encoding="UTF-8" standalone="yes"?>
<p:sldMaster xmlns:p="http://schemas.openxmlformats.org/presentationml/2006/main"
             xmlns:a="http://schemas.openxmlformats.org/drawingml/2006/main">
  <p:spTree>
    <p:sp>
      <p:nvSpPr>
        <p:nvPr>
          <p:ph type="ftr" idx="11"/>
        </p:nvPr>
      </p:nvSpPr>
      <p:txBody>
        <a:bodyPr/><a:lstStyle/>
        <a:p><a:r><a:t>Footer text</a:t></a:r></a:p>
      </p:txBody>
    </p:sp>
  </p:spTree>
</p:sldMaster>"#;

    /// Slide master XML with a footer placeholder but EMPTY text run.
    const MASTER_WITH_EMPTY_FOOTER_XML: &str = r#"<?xml version="1.0" encoding="UTF-8" standalone="yes"?>
<p:sldMaster xmlns:p="http://schemas.openxmlformats.org/presentationml/2006/main"
             xmlns:a="http://schemas.openxmlformats.org/drawingml/2006/main">
  <p:spTree>
    <p:sp>
      <p:nvSpPr>
        <p:nvPr>
          <p:ph type="ftr" sz="quarter" idx="11"/>
        </p:nvPr>
      </p:nvSpPr>
      <p:txBody>
        <a:bodyPr/>
        <a:lstStyle/>
        <a:p>
          <a:r><a:t></a:t></a:r>
        </a:p>
      </p:txBody>
    </p:sp>
  </p:spTree>
</p:sldMaster>"#;

    /// Slide master XML with NO footer placeholder at all.
    const MASTER_NO_FOOTER_XML: &str = r#"<?xml version="1.0" encoding="UTF-8" standalone="yes"?>
<p:sldMaster xmlns:p="http://schemas.openxmlformats.org/presentationml/2006/main"
             xmlns:a="http://schemas.openxmlformats.org/drawingml/2006/main">
  <p:spTree>
    <p:sp>
      <p:nvSpPr>
        <p:nvPr>
          <p:ph type="title"/>
        </p:nvPr>
      </p:nvSpPr>
    </p:sp>
  </p:spTree>
</p:sldMaster>"#;

    /// Slide layout XML with a populated footer placeholder — used as fallback.
    const LAYOUT_WITH_FOOTER_XML: &str = r#"<?xml version="1.0" encoding="UTF-8" standalone="yes"?>
<p:sldLayout xmlns:p="http://schemas.openxmlformats.org/presentationml/2006/main"
             xmlns:a="http://schemas.openxmlformats.org/drawingml/2006/main">
  <p:spTree>
    <p:sp>
      <p:nvSpPr>
        <p:nvPr>
          <p:ph type="ftr" sz="quarter" idx="11"/>
        </p:nvPr>
      </p:nvSpPr>
      <p:txBody>
        <a:bodyPr/>
        <a:lstStyle/>
        <a:p>
          <a:r><a:t>Q4 Report</a:t></a:r>
        </a:p>
      </p:txBody>
    </p:sp>
  </p:spTree>
</p:sldLayout>"#;

    /// Slide layout XML with an empty footer placeholder (no usable text).
    const LAYOUT_EMPTY_FOOTER_XML: &str = r#"<?xml version="1.0" encoding="UTF-8" standalone="yes"?>
<p:sldLayout xmlns:p="http://schemas.openxmlformats.org/presentationml/2006/main"
             xmlns:a="http://schemas.openxmlformats.org/drawingml/2006/main">
  <p:spTree>
    <p:sp>
      <p:nvSpPr>
        <p:nvPr>
          <p:ph type="ftr"/>
        </p:nvPr>
      </p:nvSpPr>
      <p:txBody>
        <a:bodyPr/>
        <a:lstStyle/>
        <a:p>
          <a:r><a:t></a:t></a:r>
        </a:p>
      </p:txBody>
    </p:sp>
  </p:spTree>
</p:sldLayout>"#;

    const PRESPROPS_STUB_XML: &str = r#"<?xml version="1.0" encoding="UTF-8" standalone="yes"?>
<p:presentationPr xmlns:p="http://schemas.openxmlformats.org/presentationml/2006/main">
</p:presentationPr>"#;

    const MASTER_TWO_FOOTER_PLACEHOLDERS_XML: &str = r#"<?xml version="1.0" encoding="UTF-8" standalone="yes"?>
<p:sldMaster xmlns:p="http://schemas.openxmlformats.org/presentationml/2006/main"
             xmlns:a="http://schemas.openxmlformats.org/drawingml/2006/main">
  <p:spTree>
    <p:sp>
      <p:nvSpPr>
        <p:nvPr><p:ph type="ftr" idx="11"/></p:nvPr>
      </p:nvSpPr>
      <p:txBody>
        <a:bodyPr/>
        <a:lstStyle/>
        <a:p><a:r><a:t>First Footer</a:t></a:r></a:p>
      </p:txBody>
    </p:sp>
    <p:sp>
      <p:nvSpPr>
        <p:nvPr><p:ph type="ftr" idx="12"/></p:nvPr>
      </p:nvSpPr>
      <p:txBody>
        <a:bodyPr/>
        <a:lstStyle/>
        <a:p><a:r><a:t>Second Footer</a:t></a:r></a:p>
      </p:txBody>
    </p:sp>
  </p:spTree>
</p:sldMaster>"#;

    const MASTER_FOOTER_FIELD_ELEMENT_XML: &str = r#"<?xml version="1.0" encoding="UTF-8" standalone="yes"?>
<p:sldMaster xmlns:p="http://schemas.openxmlformats.org/presentationml/2006/main"
             xmlns:a="http://schemas.openxmlformats.org/drawingml/2006/main">
  <p:spTree>
    <p:sp>
      <p:nvSpPr>
        <p:nvPr><p:ph type="ftr" idx="11"/></p:nvPr>
      </p:nvSpPr>
      <p:txBody>
        <a:bodyPr/>
        <a:lstStyle/>
        <a:p>
          <a:fld id="{GUID}" type="datetimeFigureOut">
            <a:t>Date</a:t>
          </a:fld>
        </a:p>
      </p:txBody>
    </p:sp>
  </p:spTree>
</p:sldMaster>"#;

    // ─── In-memory ZIP builders ───────────────────────────────────────────────

    /// Build an in-memory ZIP with the given entries.
    ///
    /// Each entry is `(zip_path, content_bytes)`.
    fn build_zip(entries: &[(&str, &[u8])]) -> Vec<u8> {
        let mut buf = Vec::new();
        {
            let cursor = Cursor::new(&mut buf);
            let mut zw = ZipWriter::new(cursor);
            let opts = SimpleFileOptions::default().compression_method(CompressionMethod::Stored);
            for (path, content) in entries {
                zw.start_file(*path, opts).unwrap();
                zw.write_all(content).unwrap();
            }
            zw.finish().unwrap();
        }
        buf
    }

    /// Build a minimal PPTX ZIP (just `ppt/theme/theme1.xml` and optional extras).
    fn build_pptx_zip_with_extras(extras: &[(&str, &[u8])]) -> Vec<u8> {
        let mut entries: Vec<(&str, &[u8])> = vec![
            ("ppt/theme/theme1.xml", MINIMAL_THEME_XML.as_bytes()),
            (
                "[Content_Types].xml",
                b"<?xml version=\"1.0\"?><Types xmlns=\"http://schemas.openxmlformats.org/package/2006/content-types\"/>",
            ),
        ];
        entries.extend_from_slice(extras);
        build_zip(&entries)
    }


    // ─── FooterFlags unit tests ───────────────────────────────────────────────





    // ─── detect_footer — PPTX master footer text extraction ──────────────────































    // ─── BrandTemplate.footer_flags integration ───────────────────────────────



    // ─── BrandLoader integration (through-load tests) ─────────────────────────













    #[test]
    fn test_bc_2_01_001_footer_flags_default_all_false() {
        let flags = FooterFlags::default();
        assert!(
            !flags.show_footer,
            "FooterFlags::default().show_footer must be false"
        );
        assert!(
            !flags.show_date,
            "FooterFlags::default().show_date must be false"
        );
        assert!(
            !flags.show_slide_number,
            "FooterFlags::default().show_slide_number must be false"
        );
    }

    #[test]
    fn test_bc_2_01_001_footer_flags_struct_fields() {
        let flags = FooterFlags {
            show_footer: true,
            show_date: false,
            show_slide_number: true,
        };
        assert!(flags.show_footer, "show_footer must be true as set");
        assert!(!flags.show_date, "show_date must be false as set");
        assert!(
            flags.show_slide_number,
            "show_slide_number must be true as set"
        );

        let all_true = FooterFlags {
            show_footer: true,
            show_date: true,
            show_slide_number: true,
        };
        assert!(all_true.show_footer);
        assert!(all_true.show_date);
        assert!(all_true.show_slide_number);

        let all_false = FooterFlags {
            show_footer: false,
            show_date: false,
            show_slide_number: false,
        };
        assert!(!all_false.show_footer);
        assert!(!all_false.show_date);
        assert!(!all_false.show_slide_number);
    }

    #[test]
    fn test_bc_2_01_001_detect_footer_text_from_master() {
        let zip_bytes = build_pptx_zip_with_extras(&[(
            "ppt/slideMasters/slideMaster1.xml",
            MASTER_WITH_FOOTER_XML.as_bytes(),
        )]);
        let detection = detect_footer(&zip_bytes, true);

        assert_eq!(
            detection.text.as_deref(),
            Some("Confidential"),
            "master footer placeholder text 'Confidential' must be detected; \
             got: {:?}",
            detection.text
        );
    }

    #[test]
    fn test_bc_2_01_001_detect_footer_empty_master_fallback_layout() {
        let zip_bytes = build_pptx_zip_with_extras(&[
            (
                "ppt/slideMasters/slideMaster1.xml",
                MASTER_WITH_EMPTY_FOOTER_XML.as_bytes(),
            ),
            (
                "ppt/slideLayouts/slideLayout1.xml",
                LAYOUT_WITH_FOOTER_XML.as_bytes(),
            ),
        ]);
        let detection = detect_footer(&zip_bytes, true);

        assert_eq!(
            detection.text.as_deref(),
            Some("Q4 Report"),
            "when master footer is empty, must fall back to layout1.xml text; \
             got: {:?}",
            detection.text
        );
    }

    #[test]
    fn test_bc_2_01_001_detect_footer_absent_placeholder() {
        let zip_bytes = build_pptx_zip_with_extras(&[(
            "ppt/slideMasters/slideMaster1.xml",
            MASTER_NO_FOOTER_XML.as_bytes(),
        )]);
        let detection = detect_footer(&zip_bytes, true);

        assert!(
            detection.text.is_none(),
            "master with no footer placeholder must return text = None; \
             got: {:?}",
            detection.text
        );
    }

    #[test]
    fn test_bc_2_01_001_detect_footer_absent_master_xml() {
        // ZIP has no slideMaster1.xml entry at all.
        let zip_bytes = build_pptx_zip_with_extras(&[]);
        let detection = detect_footer(&zip_bytes, true);

        assert!(
            detection.text.is_none(),
            "absent slideMaster1.xml must yield text = None (no panic); \
             got: {:?}",
            detection.text
        );
    }

    #[test]
    fn test_bc_2_01_001_detect_footer_flags_absent_hf_element() {
        // ZIP has master but NO <p:hf> element in it (MASTER_NO_HF_ELEMENT_XML).
        let zip_bytes = build_pptx_zip_with_extras(&[(
            "ppt/slideMasters/slideMaster1.xml",
            MASTER_NO_HF_ELEMENT_XML.as_bytes(),
        )]);
        let detection = detect_footer(&zip_bytes, true);

        assert!(
            !detection.flags.show_footer,
            "absent <p:hf> must yield show_footer = false; \
             got show_footer={}",
            detection.flags.show_footer
        );
        assert!(
            !detection.flags.show_date,
            "absent <p:hf> must yield show_date = false; \
             got show_date={}",
            detection.flags.show_date
        );
        assert!(
            !detection.flags.show_slide_number,
            "absent <p:hf> must yield show_slide_number = false; \
             got show_slide_number={}",
            detection.flags.show_slide_number
        );
    }

    #[test]
    fn test_bc_2_01_001_detect_footer_flags_from_hf_element() {
        let zip_bytes = build_pptx_zip_with_extras(&[(
            "ppt/slideMasters/slideMaster1.xml",
            MASTER_HF_FTR_AND_SLDNUM_XML.as_bytes(),
        )]);
        let detection = detect_footer(&zip_bytes, true);

        assert!(
            detection.flags.show_footer,
            "<p:hf ftr=\"1\"/> must set show_footer = true; \
             got show_footer={}",
            detection.flags.show_footer
        );
        assert!(
            !detection.flags.show_date,
            "absent dt attribute in <p:hf> must leave show_date = false \
             (xsd:boolean optional default); got show_date={}",
            detection.flags.show_date
        );
        assert!(
            detection.flags.show_slide_number,
            "<p:hf sldNum=\"1\"/> must set show_slide_number = true; \
             got show_slide_number={}",
            detection.flags.show_slide_number
        );
    }

    #[test]
    fn test_bc_2_01_001_detect_footer_flags_all_three_from_hf_element() {
        // MASTER_WITH_FOOTER_XML carries <p:hf ftr="1" dt="1" sldNum="1"/> (updated fixture).
        let zip_bytes = build_pptx_zip_with_extras(&[(
            "ppt/slideMasters/slideMaster1.xml",
            MASTER_WITH_FOOTER_XML.as_bytes(),
        )]);
        let detection = detect_footer(&zip_bytes, true);

        assert!(
            detection.flags.show_footer,
            "<p:hf ftr=\"1\"/> must set show_footer = true"
        );
        assert!(
            detection.flags.show_date,
            "<p:hf dt=\"1\"/> must set show_date = true"
        );
        assert!(
            detection.flags.show_slide_number,
            "<p:hf sldNum=\"1\"/> must set show_slide_number = true"
        );
    }

    #[test]
    fn test_bc_2_01_001_detect_footer_flags_hf_partial_attrs() {
        let zip_bytes = build_pptx_zip_with_extras(&[(
            "ppt/slideMasters/slideMaster1.xml",
            MASTER_HF_ALL_ATTRS_ABSENT_XML.as_bytes(),
        )]);
        let detection = detect_footer(&zip_bytes, true);

        assert!(
            !detection.flags.show_footer,
            "<p:hf> with absent ftr attr must yield show_footer = false"
        );
        assert!(
            !detection.flags.show_date,
            "<p:hf> with absent dt attr must yield show_date = false"
        );
        assert!(
            !detection.flags.show_slide_number,
            "<p:hf> with absent sldNum attr must yield show_slide_number = false"
        );
    }

    #[test]
    fn test_bc_2_01_001_detect_footer_flags_hf_boolean_string_form() {
        let zip_bytes = build_pptx_zip_with_extras(&[(
            "ppt/slideMasters/slideMaster1.xml",
            MASTER_HF_BOOL_STRING_FORM_XML.as_bytes(),
        )]);
        let detection = detect_footer(&zip_bytes, true);

        assert!(
            detection.flags.show_footer,
            "<p:hf ftr=\"true\"/> must set show_footer = true (OOXML bool string form); \
             got show_footer={}",
            detection.flags.show_footer
        );
        assert!(
            detection.flags.show_date,
            "<p:hf dt=\"true\"/> must set show_date = true (OOXML bool string form); \
             got show_date={}",
            detection.flags.show_date
        );
        assert!(
            !detection.flags.show_slide_number,
            "<p:hf sldNum=\"false\"/> must set show_slide_number = false (OOXML bool string form); \
             got show_slide_number={}",
            detection.flags.show_slide_number
        );
    }

    #[test]
    fn test_bc_2_01_001_detect_footer_text_multirun() {
        let zip_bytes = build_pptx_zip_with_extras(&[(
            "ppt/slideMasters/slideMaster1.xml",
            MASTER_MULTIRUN_FOOTER_XML.as_bytes(),
        )]);
        let detection = detect_footer(&zip_bytes, true);

        assert_eq!(
            detection.text.as_deref(),
            Some("Acme Confidential 2026"),
            "footer text split across multiple <a:r> runs \
             must be fully concatenated in document order; \
             'first-run-only' semantics are forbidden. \
             Got: {:?}",
            detection.text
        );
    }

    #[test]
    fn test_bc_2_01_001_detect_footer_docx_returns_default() {
        // DOCX ZIP (word/theme/theme1.xml) — should be ignored entirely.
        let zip_bytes = build_zip(&[
            ("word/theme/theme1.xml", MINIMAL_THEME_XML.as_bytes()),
            // Include a fake master XML to verify it is NOT read for DOCX.
            (
                "ppt/slideMasters/slideMaster1.xml",
                MASTER_WITH_FOOTER_XML.as_bytes(),
            ),
        ]);
        let detection = detect_footer(&zip_bytes, false); // is_pptx = false

        assert!(
            detection.text.is_none(),
            "DOCX input must return text = None immediately; \
             got: {:?}",
            detection.text
        );
        let defaults = FooterFlags::default();
        assert_eq!(
            detection.flags.show_footer, defaults.show_footer,
            "DOCX input must return show_footer = false"
        );
        assert_eq!(
            detection.flags.show_date, defaults.show_date,
            "DOCX input must return show_date = false"
        );
        assert_eq!(
            detection.flags.show_slide_number, defaults.show_slide_number,
            "DOCX input must return show_slide_number = false"
        );
    }

    #[test]
    fn test_bc_2_01_001_detect_footer_multiple_placeholders_first_wins() {
        let zip_bytes = build_pptx_zip_with_extras(&[(
            "ppt/slideMasters/slideMaster1.xml",
            MASTER_TWO_FOOTER_PLACEHOLDERS_XML.as_bytes(),
        )]);
        let detection = detect_footer(&zip_bytes, true);

        assert_eq!(
            detection.text.as_deref(),
            Some("First Footer"),
            "when multiple footer placeholders exist, first in document order wins; \
             got: {:?}",
            detection.text
        );
    }

    #[test]
    fn test_bc_2_01_001_detect_footer_field_element_treated_as_no_text() {
        let zip_bytes = build_pptx_zip_with_extras(&[(
            "ppt/slideMasters/slideMaster1.xml",
            MASTER_FOOTER_FIELD_ELEMENT_XML.as_bytes(),
        )]);
        let detection = detect_footer(&zip_bytes, true);

        assert!(
            detection.text.is_none(),
            "footer placeholder with <a:fld> (no <a:r>) must yield text = None; \
             got: {:?}",
            detection.text
        );
    }

    #[test]
    fn test_bc_2_01_001_detect_footer_both_empty_yields_none() {
        let zip_bytes = build_pptx_zip_with_extras(&[
            (
                "ppt/slideMasters/slideMaster1.xml",
                MASTER_WITH_EMPTY_FOOTER_XML.as_bytes(),
            ),
            (
                "ppt/slideLayouts/slideLayout1.xml",
                LAYOUT_EMPTY_FOOTER_XML.as_bytes(),
            ),
        ]);
        let detection = detect_footer(&zip_bytes, true);

        assert!(
            detection.text.is_none(),
            "when both master and layout footer are empty, text must be None \
             (not Some(\"\")). Got: {:?}",
            detection.text
        );
    }

    #[test]
    fn test_bc_2_01_001_detect_footer_empty_master_no_layout_yields_none() {
        let zip_bytes = build_pptx_zip_with_extras(&[(
            "ppt/slideMasters/slideMaster1.xml",
            MASTER_WITH_EMPTY_FOOTER_XML.as_bytes(),
        )]);
        // No slideLayout1.xml in this ZIP.
        let detection = detect_footer(&zip_bytes, true);

        assert!(
            detection.text.is_none(),
            "empty master footer with absent layout1 must yield text = None; \
             got: {:?}",
            detection.text
        );
    }

    #[test]
    fn test_bc_2_01_001_brand_template_has_footer_flags_field() {
        fn make_color_slot(name: &str, hex: &str) -> ColorSlot {
            ColorSlot {
                name: String::from(name),
                value: ColorValue::Hex(String::from(hex)),
                is_derived: false,
            }
        }

        let template = BrandTemplate {
            colors: [
                make_color_slot("dk1", "#000000"),
                make_color_slot("lt1", "#FFFFFF"),
                make_color_slot("dk2", "#003087"),
                make_color_slot("lt2", "#F5F5F5"),
                make_color_slot("acc1", "#0066CC"),
                make_color_slot("acc2", "#FF6B35"),
                make_color_slot("acc3", "#28A745"),
                make_color_slot("acc4", "#FFC107"),
                make_color_slot("acc5", "#6F42C1"),
                make_color_slot("acc6", "#17A2B8"),
                make_color_slot("hlink", "#0000EE"),
                make_color_slot("folHlink", "#551A8B"),
            ],
            fonts: BrandFonts {
                heading: String::from("Calibri Light"),
                body: String::from("Calibri"),
            },
            logo: None,
            footer_text: None,
            footer_flags: FooterFlags::default(),
            layout_names: vec![],
            layouts: vec![],
            notes_master_stub: vec![],
            handout_master_stub: vec![],
            master_ids: MasterIds::default(),
            content_types_layout_entries: String::from(""),
        };

        // Verify the field is readable and has the expected default value.
        assert!(
            !template.footer_flags.show_footer,
            "BrandTemplate.footer_flags.show_footer must default to false"
        );
        assert!(
            !template.footer_flags.show_date,
            "BrandTemplate.footer_flags.show_date must default to false"
        );
        assert!(
            !template.footer_flags.show_slide_number,
            "BrandTemplate.footer_flags.show_slide_number must default to false"
        );
    }

    #[test]
    fn test_bc_2_01_001_load_pptx_with_footer() {

        let master_xml = r#"<?xml version="1.0" encoding="UTF-8" standalone="yes"?>
<p:sldMaster xmlns:p="http://schemas.openxmlformats.org/presentationml/2006/main"
             xmlns:a="http://schemas.openxmlformats.org/drawingml/2006/main">
  <p:spTree>
    <p:sp>
      <p:nvSpPr>
        <p:nvPr><p:ph type="ftr" sz="quarter" idx="11"/></p:nvPr>
      </p:nvSpPr>
      <p:txBody>
        <a:bodyPr/>
        <a:lstStyle/>
        <a:p><a:r><a:t>Acme Corp Confidential</a:t></a:r></a:p>
      </p:txBody>
    </p:sp>
  </p:spTree>
</p:sldMaster>"#;

        let zip_bytes = build_pptx_zip_with_extras(&[(
            "ppt/slideMasters/slideMaster1.xml",
            master_xml.as_bytes(),
        )]);
        let path = "template.pptx";
        let loader = BrandLoader::new();
        let ctx = BrandLoadContext::for_test();

        let result = loader.load_template(path, Some(&zip_bytes), &ctx);

        let template = result.expect("PPTX with footer must load without error");

        assert_eq!(
            template.footer_text.as_deref(),
            Some("Acme Corp Confidential"),
            "BrandLoader must populate footer_text from master placeholder; \
             got: {:?}",
            template.footer_text
        );
    }

    #[test]
    fn test_bc_2_01_001_load_pptx_without_footer() {

        // Minimal PPTX with no slideMaster1.xml at all.
        let zip_bytes = build_pptx_zip_with_extras(&[]);
        let path = "template.pptx";
        let loader = BrandLoader::new();
        let ctx = BrandLoadContext::for_test();

        let result = loader.load_template(path, Some(&zip_bytes), &ctx);

        let template = result.expect("minimal PPTX must load without error");

        assert!(
            template.footer_text.is_none(),
            "PPTX without footer placeholder must return footer_text = None; \
             got: {:?}",
            template.footer_text
        );
    }

    #[test]
    fn test_bc_2_01_001_load_pptx_footer_flags_populated_from_hf_element() {

        // Master XML with <p:hf ftr="1" sldNum="1"/> (dt absent) and a footer placeholder.
        let master_xml = r#"<?xml version="1.0" encoding="UTF-8" standalone="yes"?>
<p:sldMaster xmlns:p="http://schemas.openxmlformats.org/presentationml/2006/main"
             xmlns:a="http://schemas.openxmlformats.org/drawingml/2006/main">
  <p:hf ftr="1" sldNum="1"/>
  <p:spTree>
    <p:sp>
      <p:nvSpPr>
        <p:nvPr><p:ph type="ftr" idx="11"/></p:nvPr>
      </p:nvSpPr>
      <p:txBody>
        <a:bodyPr/><a:lstStyle/>
        <a:p><a:r><a:t>Acme</a:t></a:r></a:p>
      </p:txBody>
    </p:sp>
  </p:spTree>
</p:sldMaster>"#;

        let zip_bytes = build_pptx_zip_with_extras(&[
            ("ppt/slideMasters/slideMaster1.xml", master_xml.as_bytes()),
            ("ppt/presProps.xml", PRESPROPS_STUB_XML.as_bytes()),
        ]);
        let path = "template.pptx";
        let loader = BrandLoader::new();
        let ctx = BrandLoadContext::for_test();

        let result = loader.load_template(path, Some(&zip_bytes), &ctx);

        let template = result.expect("PPTX with <p:hf> master must load without error");

        assert!(
            template.footer_flags.show_footer,
            "footer_flags.show_footer must be true from \
             <p:hf ftr=\"1\"/> on slideMaster1.xml; \
             got show_footer={}",
            template.footer_flags.show_footer
        );
        assert!(
            !template.footer_flags.show_date,
            "footer_flags.show_date must be false \
             (dt attribute absent from <p:hf>); \
             got show_date={}",
            template.footer_flags.show_date
        );
        assert!(
            template.footer_flags.show_slide_number,
            "footer_flags.show_slide_number must be true from \
             <p:hf sldNum=\"1\"/> on slideMaster1.xml; \
             got show_slide_number={}",
            template.footer_flags.show_slide_number
        );
    }

    #[test]
    fn test_bc_2_01_001_load_docx_footer_always_none() {

        let zip_bytes = build_zip(&[
            ("word/theme/theme1.xml", MINIMAL_THEME_XML.as_bytes()),
            (
                "[Content_Types].xml",
                b"<?xml version=\"1.0\"?><Types xmlns=\"http://schemas.openxmlformats.org/package/2006/content-types\"/>",
            ),
            // Include a master XML to verify it is NOT read for DOCX.
            (
                "ppt/slideMasters/slideMaster1.xml",
                MASTER_WITH_FOOTER_XML.as_bytes(),
            ),
        ]);
        let path = "template.docx";
        let loader = BrandLoader::new();
        let ctx = BrandLoadContext::for_test();

        let result = loader.load_template(path, Some(&zip_bytes), &ctx);

        let template = result.expect("DOCX must load without error");

        assert!(
            template.footer_text.is_none(),
            "DOCX must return footer_text = None regardless of any XML; \
             got: {:?}",
            template.footer_text
        );
        assert!(
            !template.footer_flags.show_footer,
            "DOCX must return footer_flags.show_footer = false"
        );
        assert!(
            !template.footer_flags.show_date,
            "DOCX must return footer_flags.show_date = false"
        );
        assert!(
            !template.footer_flags.show_slide_number,
            "DOCX must return footer_flags.show_slide_number = false"
        );
    }

    #[test]
    fn test_bc_2_01_001_v1_3_canonical_vector_ftr1_dt1_sldnum0() {
        const MASTER_CANONICAL_VECTOR_XML: &str = r#"<?xml version="1.0" encoding="UTF-8" standalone="yes"?>
<p:sldMaster xmlns:p="http://schemas.openxmlformats.org/presentationml/2006/main"
             xmlns:a="http://schemas.openxmlformats.org/drawingml/2006/main">
  <p:hf ftr="1" dt="1" sldNum="0"/>
  <p:spTree>
    <p:sp>
      <p:nvSpPr>
        <p:nvPr>
          <p:ph type="ftr" idx="11"/>
        </p:nvPr>
      </p:nvSpPr>
      <p:txBody>
        <a:bodyPr/><a:lstStyle/>
        <a:p><a:r><a:t>Test Footer</a:t></a:r></a:p>
      </p:txBody>
    </p:sp>
  </p:spTree>
</p:sldMaster>"#;

        let zip_bytes = build_pptx_zip_with_extras(&[(
            "ppt/slideMasters/slideMaster1.xml",
            MASTER_CANONICAL_VECTOR_XML.as_bytes(),
        )]);
        let detection = detect_footer(&zip_bytes, true);

        assert!(
            detection.flags.show_footer,
            " canonical vector: <p:hf ftr=\"1\"/> must yield show_footer = true; \
             got show_footer={}",
            detection.flags.show_footer
        );
        assert!(
            detection.flags.show_date,
            " canonical vector: <p:hf dt=\"1\"/> must yield show_date = true; \
             got show_date={}",
            detection.flags.show_date
        );
        assert!(
            !detection.flags.show_slide_number,
            " canonical vector: <p:hf sldNum=\"0\"/> must yield \
             show_slide_number = false (explicit numeric zero); \
             got show_slide_number={}",
            detection.flags.show_slide_number
        );
    }

#[test]
fn ooxml_booleans() {
    assert!(parse_ooxml_bool("1"));
    assert!(parse_ooxml_bool("true"));
    assert!(!parse_ooxml_bool("0"));
    assert!(!parse_ooxml_bool("false"));
    assert!(!parse_ooxml_bool("TRUE"));
    assert!(!parse_ooxml_bool(""));
}

#[test]
fn layout_text_fallback_reads_layout_part() {
    match parse_footer_text_from_xml(LAYOUT_WITH_FOOTER_XML.as_bytes()) {
        FooterText::FoundText(t) => assert!(!t.is_empty()),
        _ => panic!("layout footer text expected"),
    }
    assert!(matches!(parse_footer_text_from_xml(MASTER_NO_FOOTER_XML.as_bytes()), FooterText::NoPlaceholder));
}

#[test]
fn footer_text_entities_are_unescaped() {
    let xml = r#"<p:sldLayout xmlns:p="p" xmlns:a="a"><p:spTree><p:sp><p:nvSpPr><p:nvPr><p:ph type="ftr"/></p:nvPr></p:nvSpPr>
<p:txBody><a:p><a:r><a:t>Smith &amp; Sons &lt;2024&gt;</a:t></a:r></a:p></p:txBody></p:sp></p:spTree></p:sldLayout>"#;
    assert_eq!(
        parse_footer_text_from_xml(xml.as_bytes()),
        FooterText::FoundText("Smith & Sons <2024>".to_string())
    );
}
