use vstd::prelude::*;

use crate::diagnostics::{
    clone_opt, clone_strings, opt_view, strings_view, ByteRange, DiagnosticLevel,
    DiagnosticLocation, DiagnosticSnippet, DiagnosticSnippetHighlight,
    DiagnosticSnippetHighlightStyle, DiagnosticSnippetSource, DiagnosticSourcePos,
    DiagnosticSourceRange,
};
use crate::fast_check::{FastCheckProblem, FastCheckReason};
use crate::import_map::ImportMapUnfurlDiagnostic;

verus! {

/// A problem found while checking a package for publishing, from either of
/// the two analyzers.
#[derive(Debug)]
pub enum PublishDiagnostic {
    FastCheck(FastCheckProblem),
    ImportMapUnfurl(ImportMapUnfurlDiagnostic),
}

/// The start of a range as a source position.
pub open spec fn start_pos(range: Option<ByteRange>) -> Option<DiagnosticSourcePos> {
    match range {
        Some(r) => Some(DiagnosticSourcePos { byte_index: r.start }),
        None => None,
    }
}

/// A byte range as a range of source positions, unchanged.
pub open spec fn source_range(r: ByteRange) -> DiagnosticSourceRange {
    DiagnosticSourceRange {
        start: DiagnosticSourcePos { byte_index: r.start },
        end: DiagnosticSourcePos { byte_index: r.end },
    }
}

/// Where fast-check documentation for a code lives.
pub open spec fn docs_url_of(code: Seq<char>) -> Seq<char> {
    "https://jsr.io/go/"@ + code
}

/// The notes shown with every unanalyzable dynamic import.
pub open spec fn import_map_info() -> Seq<Seq<char>> {
    seq![
        "after publishing this package, imports from the local import map do not work"@,
        "dynamic imports that can not be analyzed at publish time will not be rewritten automatically"@,
        "make sure the dynamic import is resolvable at runtime without an import map"@,
    ]
}

/// The severity of a fast-check problem: a warning for a JavaScript
/// entrypoint, an error for every other kind.
pub open spec fn fast_check_level(reason: FastCheckReason) -> DiagnosticLevel {
    match reason {
        FastCheckReason::UnsupportedJavaScriptEntrypoint => DiagnosticLevel::Warning,
        FastCheckReason::NotFoundReference
        | FastCheckReason::MissingExplicitType
        | FastCheckReason::MissingExplicitReturnType
        | FastCheckReason::UnsupportedAmbientModule
        | FastCheckReason::UnsupportedComplexReference
        | FastCheckReason::UnsupportedDefaultExportExpr
        | FastCheckReason::UnsupportedDestructuring
        | FastCheckReason::UnsupportedGlobalModule
        | FastCheckReason::UnsupportedRequire
        | FastCheckReason::UnsupportedPrivateMemberReference
        | FastCheckReason::UnsupportedSuperClassExpr
        | FastCheckReason::UnsupportedTsExportAssignment
        | FastCheckReason::UnsupportedTsNamespaceExport
        | FastCheckReason::UnsupportedUsing
        | FastCheckReason::UnsupportedNestedJavaScript
        | FastCheckReason::Emit
        | FastCheckReason::External
        | FastCheckReason::Cached
        | FastCheckReason::Unrecognized => DiagnosticLevel::Error,
    }
}

impl PublishDiagnostic {
    pub open spec fn spec_level(&self) -> DiagnosticLevel {
        match self {
            PublishDiagnostic::FastCheck(d) => fast_check_level(d.reason),
            PublishDiagnostic::ImportMapUnfurl(_) => DiagnosticLevel::Warning,
        }
    }

    pub open spec fn spec_code(&self) -> Seq<char> {
        match self {
            PublishDiagnostic::FastCheck(d) => d.code@,
            PublishDiagnostic::ImportMapUnfurl(_) => "unanalyzable-dynamic-import"@,
        }
    }

    pub open spec fn spec_message(&self) -> Seq<char> {
        match self {
            PublishDiagnostic::FastCheck(d) => d.message@,
            PublishDiagnostic::ImportMapUnfurl(_) => "unable to analyze dynamic import"@,
        }
    }

    pub open spec fn spec_specifier(&self) -> Seq<char> {
        match self {
            PublishDiagnostic::FastCheck(d) => d.specifier@,
            PublishDiagnostic::ImportMapUnfurl(d) => d.spec_specifier(),
        }
    }

    /// The source range the diagnostic carries, if any.
    pub open spec fn spec_range(&self) -> Option<ByteRange> {
        match self {
            PublishDiagnostic::FastCheck(d) => d.range,
            PublishDiagnostic::ImportMapUnfurl(d) => Some(d.spec_range()),
        }
    }

    pub open spec fn spec_highlight_style(&self) -> DiagnosticSnippetHighlightStyle {
        match self {
            PublishDiagnostic::FastCheck(_) => DiagnosticSnippetHighlightStyle::Error,
            PublishDiagnostic::ImportMapUnfurl(_) => DiagnosticSnippetHighlightStyle::Warning,
        }
    }

    pub open spec fn spec_range_description(&self) -> Option<Seq<char>> {
        match self {
            PublishDiagnostic::FastCheck(d) => opt_view(d.range_description),
            PublishDiagnostic::ImportMapUnfurl(_) => Some("the unanalyzable dynamic import"@),
        }
    }

    pub open spec fn spec_hint(&self) -> Option<Seq<char>> {
        match self {
            PublishDiagnostic::FastCheck(d) => Some(d.fix_hint@),
            PublishDiagnostic::ImportMapUnfurl(_) => None,
        }
    }

    pub open spec fn spec_info(&self) -> Seq<Seq<char>> {
        match self {
            PublishDiagnostic::FastCheck(d) => strings_view(d.additional_info@),
            PublishDiagnostic::ImportMapUnfurl(_) => import_map_info(),
        }
    }

    pub open spec fn spec_docs_url(&self) -> Option<Seq<char>> {
        match self {
            PublishDiagnostic::FastCheck(d) => Some(docs_url_of(d.code@)),
            PublishDiagnostic::ImportMapUnfurl(_) => None,
        }
    }

    /// The severity: a fast-check problem is an error unless it is about a
    /// JavaScript entrypoint; an import-map warning is always a warning.
    pub fn level(&self) -> (r: DiagnosticLevel)
        ensures
            r == self.spec_level(),
    {
        match self {
            PublishDiagnostic::FastCheck(d) => match d.reason {
                FastCheckReason::UnsupportedJavaScriptEntrypoint => DiagnosticLevel::Warning,
                FastCheckReason::NotFoundReference
                | FastCheckReason::MissingExplicitType
                | FastCheckReason::MissingExplicitReturnType
                | FastCheckReason::UnsupportedAmbientModule
                | FastCheckReason::UnsupportedComplexReference
                | FastCheckReason::UnsupportedDefaultExportExpr
                | FastCheckReason::UnsupportedDestructuring
                | FastCheckReason::UnsupportedGlobalModule
                | FastCheckReason::UnsupportedRequire
                | FastCheckReason::UnsupportedPrivateMemberReference
                | FastCheckReason::UnsupportedSuperClassExpr
                | FastCheckReason::UnsupportedTsExportAssignment
                | FastCheckReason::UnsupportedTsNamespaceExport
                | FastCheckReason::UnsupportedUsing
                | FastCheckReason::UnsupportedNestedJavaScript
                | FastCheckReason::Emit
                | FastCheckReason::External
                | FastCheckReason::Cached
                | FastCheckReason::Unrecognized => DiagnosticLevel::Error,
            },
            PublishDiagnostic::ImportMapUnfurl(_) => DiagnosticLevel::Warning,
        }
    }

    pub fn code(&self) -> (r: &str)
        ensures
            r@ == self.spec_code(),
    {
        match self {
            PublishDiagnostic::FastCheck(d) => d.code.as_str(),
            PublishDiagnostic::ImportMapUnfurl(d) => d.code(),
        }
    }

    pub fn message(&self) -> (r: &str)
        ensures
            r@ == self.spec_message(),
    {
        match self {
            PublishDiagnostic::FastCheck(d) => d.message.as_str(),
            PublishDiagnostic::ImportMapUnfurl(d) => d.message(),
        }
    }

    /// A position in the file where the diagnostic has a range (its start),
    /// else the whole file.
    pub fn location(&self) -> (r: DiagnosticLocation)
        ensures
            r.specifier_view() == self.spec_specifier(),
            r.position() == start_pos(self.spec_range()),
    {
        match self {
            PublishDiagnostic::FastCheck(d) => match d.range {
                Some(range) => DiagnosticLocation::PositionInFile {
                    specifier: d.specifier.clone(),
                    source_pos: DiagnosticSourcePos { byte_index: range.start },
                },
                None => DiagnosticLocation::File { specifier: d.specifier.clone() },
            },
            PublishDiagnostic::ImportMapUnfurl(d) => match d {
                ImportMapUnfurlDiagnostic::UnanalyzableDynamicImport { specifier, range } => {
                    DiagnosticLocation::PositionInFile {
                        specifier: specifier.clone(),
                        source_pos: DiagnosticSourcePos { byte_index: range.start },
                    }
                },
            },
        }
    }

    /// The source excerpt: present exactly when the diagnostic has a range,
    /// and then highlighting that range as it is.
    pub fn snippet(&self) -> (r: Option<DiagnosticSnippet>)
        ensures
            r.is_some() == self.spec_range().is_some(),
            match r {
                Some(s) => {
                    &&& s.source.specifier_view() == self.spec_specifier()
                    &&& s.highlight.style == self.spec_highlight_style()
                    &&& s.highlight.range == source_range(self.spec_range().unwrap())
                    &&& opt_view(s.highlight.description) == self.spec_range_description()
                },
                None => true,
            },
    {
        match self {
            PublishDiagnostic::FastCheck(d) => match d.range {
                Some(range) => Some(
                    DiagnosticSnippet {
                        source: DiagnosticSnippetSource::Specifier(d.specifier.clone()),
                        highlight: DiagnosticSnippetHighlight {
                            style: DiagnosticSnippetHighlightStyle::Error,
                            range: DiagnosticSourceRange {
                                start: DiagnosticSourcePos { byte_index: range.start },
                                end: DiagnosticSourcePos { byte_index: range.end },
                            },
                            description: clone_opt(&d.range_description),
                        },
                    },
                ),
                None => None,
            },
            PublishDiagnostic::ImportMapUnfurl(d) => match d {
                ImportMapUnfurlDiagnostic::UnanalyzableDynamicImport { specifier, range } => {
                    Some(
                        DiagnosticSnippet {
                            source: DiagnosticSnippetSource::Specifier(specifier.clone()),
                            highlight: DiagnosticSnippetHighlight {
                                style: DiagnosticSnippetHighlightStyle::Warning,
                                range: DiagnosticSourceRange {
                                    start: DiagnosticSourcePos { byte_index: range.start },
                                    end: DiagnosticSourcePos { byte_index: range.end },
                                },
                                description: Some(
                                    String::from_str("the unanalyzable dynamic import"),
                                ),
                            },
                        },
                    )
                },
            },
        }
    }

    pub fn hint(&self) -> (r: Option<String>)
        ensures
            opt_view(r) == self.spec_hint(),
    {
        match self {
            PublishDiagnostic::FastCheck(d) => Some(d.fix_hint.clone()),
            PublishDiagnostic::ImportMapUnfurl(_) => None,
        }
    }

    /// Neither analyzer offers a fixed version of the source.
    pub fn snippet_fixed(&self) -> (r: Option<DiagnosticSnippet>)
        ensures
            r.is_none(),
    {
        None
    }

    pub fn info(&self) -> (r: Vec<String>)
        ensures
            strings_view(r@) == self.spec_info(),
    {
        match self {
            PublishDiagnostic::FastCheck(d) => clone_strings(&d.additional_info),
            PublishDiagnostic::ImportMapUnfurl(_) => {
                let mut r: Vec<String> = Vec::new();
                r.push(
                    String::from_str(
                        "after publishing this package, imports from the local import map do not work",
                    ),
                );
                r.push(
                    String::from_str(
                        "dynamic imports that can not be analyzed at publish time will not be rewritten automatically",
                    ),
                );
                r.push(
                    String::from_str(
                        "make sure the dynamic import is resolvable at runtime without an import map",
                    ),
                );
                assert(strings_view(r@) =~= import_map_info());
                r
            },
        }
    }

    pub fn docs_url(&self) -> (r: Option<String>)
        ensures
            opt_view(r) == self.spec_docs_url(),
    {
        match self {
            PublishDiagnostic::FastCheck(d) => Some(
                String::from_str("https://jsr.io/go/").concat(d.code.as_str()),
            ),
            PublishDiagnostic::ImportMapUnfurl(_) => None,
        }
    }
}

} // verus!
