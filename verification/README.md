# slideforge-brand

Brand handling for slide decks rendered to OOXML (`.pptx`): reading the
theme colors, fonts, logo and footer of a `.pptx`/`.docx` template, writing a
`brand.toml` from a template, synthesizing a complete brand (12 colors, 31
slide layouts, master and theme parts) from a `brand.toml`, and resolving
per-slide brand overlays.

## Layout

- `src/` — the library, written in Verus. Every public function states its
  result in its `ensures` over spec functions of the XML events, ZIP entries
  and strings involved; the laws of the library (12 slots in order, escaping
  round trips, layout ids, one warning per inferred slot, determinism, ...)
  are public proof functions beside the code they are about.
  - `xml.rs`, `archive.rs`: the reading and writing of XML events
    (`quick-xml`) and of ZIP entries (`zip`), behind small trusted wrappers.
  - `color.rs`, `font.rs`, `footer.rs`, `logo.rs`, `loader.rs`: reading a
    template package.
  - `extractor.rs`: the `brand.toml` text of a template.
  - `inference.rs`, `layouts.rs`, `layout_xml.rs`, `synthesizer.rs`:
    synthesizing a brand and serializing its parts.
  - `overlay.rs`: per-slide overlays.
- `app/` — plain Rust around the library: file and directory I/O, `brand.toml`
  parsing with `serde`/`toml`, installed-font probing, and the floating-point
  HSL/luminance arithmetic of color inference.
- `tests/` — tests of the library's public functions.
