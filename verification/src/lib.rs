//! Brand loading and synthesis for slideforge presentations.
//!
//! The library reads the theme of an OOXML (`.pptx` / `.docx`) template,
//! synthesizes a complete brand from a `brand.toml` configuration, and
//! describes the 31 slide layouts of a synthesized brand template.
#![allow(unused_imports)]

pub mod error;
pub mod toml_schema;
pub mod template;
pub mod layouts;
pub mod xml;
pub mod text;
pub mod archive;
pub mod footer;
pub mod color;
pub mod font;
pub mod extractor;
pub mod logo;
pub mod context;
pub mod loader;
pub mod layout_xml;
pub mod inference;
pub mod synthesizer;
pub mod overlay;
