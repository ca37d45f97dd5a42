use vstd::prelude::*;

use crate::diagnostics::ByteRange;

verus! {

/// A warning that a dynamic import could not be rewritten through the
/// import map when the package is published.
#[derive(Debug)]
pub enum ImportMapUnfurlDiagnostic {
    UnanalyzableDynamicImport { specifier: String, range: ByteRange },
}

impl ImportMapUnfurlDiagnostic {
    pub open spec fn spec_specifier(&self) -> Seq<char> {
        match self {
            ImportMapUnfurlDiagnostic::UnanalyzableDynamicImport { specifier, .. } => specifier@,
        }
    }

    pub open spec fn spec_range(&self) -> ByteRange {
        match self {
            ImportMapUnfurlDiagnostic::UnanalyzableDynamicImport { range, .. } => *range,
        }
    }

    /// The stable code of this kind of warning.
    pub fn code(&self) -> (r: &'static str)
        ensures
            r@ == "unanalyzable-dynamic-import"@,
    {
        match self {
            ImportMapUnfurlDiagnostic::UnanalyzableDynamicImport { .. } => "unanalyzable-dynamic-import",
        }
    }

    /// The one-line message of this kind of warning.
    pub fn message(&self) -> (r: &'static str)
        ensures
            r@ == "unable to analyze dynamic import"@,
    {
        match self {
            ImportMapUnfurlDiagnostic::UnanalyzableDynamicImport { .. } => "unable to analyze dynamic import",
        }
    }
}

} // verus!
