//! The runtime context of a brand loading operation.
use vstd::prelude::*;

use crate::error::SourceSpan;

verus! {

/// Runtime context passed to [`crate::loader::BrandLoader::load_template`].
#[derive(Debug, Clone)]
pub struct BrandLoadContext {
    /// Whether the fonts of the template are checked against the fonts
    /// installed on the build host.
    pub check_font_availability: bool,
    /// The root directory of the workspace, for resolving relative paths.
    pub root_dir: String,
    /// Source location of the `brand "..."` declaration.
    pub span: SourceSpan,
}

impl BrandLoadContext {
    /// A context for tests: no font check, root directory `"."`, default span.
    pub fn for_test() -> (c: Self)
        ensures
            !c.check_font_availability,
            c.root_dir@ == "."@,
            c.span == (SourceSpan { start: 0, end: 0 }),
    {
        BrandLoadContext {
            check_font_availability: false,
            root_dir: String::from_str("."),
            span: SourceSpan { start: 0, end: 0 },
        }
    }
}

} // verus!
