//! Gathers the problems found while checking a package for publishing,
//! presents the diagnostics of the fast-check analyzer and of import-map
//! rewriting through one set of accessors, and decides whether publishing
//! fails.
pub mod collector;
pub mod diagnostics;
pub mod fast_check;
pub mod import_map;
pub mod publish;

pub use collector::{decide, ProblemsFound, PublishDiagnosticsCollector};
pub use diagnostics::{
    ByteRange, DiagnosticLevel, DiagnosticLocation, DiagnosticSnippet,
    DiagnosticSnippetHighlight, DiagnosticSnippetHighlightStyle, DiagnosticSnippetSource,
    DiagnosticSourcePos, DiagnosticSourceRange,
};
pub use fast_check::{FastCheckProblem, FastCheckReason};
pub use import_map::ImportMapUnfurlDiagnostic;
pub use publish::PublishDiagnostic;
