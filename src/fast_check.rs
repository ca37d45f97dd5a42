use vstd::prelude::*;

use deno_ast::diagnostics::Diagnostic;

use crate::diagnostics::{opt_view, strings_view, ByteRange};

verus! {

#[verifier::external_type_specification]
#[verifier::external_body]
pub struct ExGraphFastCheckDiagnostic(deno_graph::FastCheckDiagnostic);

/// Why the fast-check analyzer rejected a piece of the public API: one
/// variant per kind of diagnostic the analyzer reports.
#[derive(Clone, Copy, Debug, PartialEq, Eq, Structural)]
pub enum FastCheckReason {
    NotFoundReference,
    MissingExplicitType,
    MissingExplicitReturnType,
    UnsupportedAmbientModule,
    UnsupportedComplexReference,
    UnsupportedDefaultExportExpr,
    UnsupportedDestructuring,
    UnsupportedGlobalModule,
    UnsupportedRequire,
    UnsupportedPrivateMemberReference,
    UnsupportedSuperClassExpr,
    UnsupportedTsExportAssignment,
    UnsupportedTsNamespaceExport,
    UnsupportedUsing,
    UnsupportedNestedJavaScript,
    UnsupportedJavaScriptEntrypoint,
    Emit,
    External,
    Cached,
    /// A code that none of the kinds above carries.
    Unrecognized,
}

/// The kind of fast-check diagnostic that carries a code; the analyzer gives
/// each kind its own code.
pub open spec fn reason_of_code(code: Seq<char>) -> FastCheckReason {
    if code == "not-found-reference"@ {
        FastCheckReason::NotFoundReference
    } else if code == "missing-explicit-type"@ {
        FastCheckReason::MissingExplicitType
    } else if code == "missing-explicit-return-type"@ {
        FastCheckReason::MissingExplicitReturnType
    } else if code == "unsupported-ambient-module"@ {
        FastCheckReason::UnsupportedAmbientModule
    } else if code == "unsupported-complex-reference"@ {
        FastCheckReason::UnsupportedComplexReference
    } else if code == "unsupported-default-export-expr"@ {
        FastCheckReason::UnsupportedDefaultExportExpr
    } else if code == "unsupported-destructuring"@ {
        FastCheckReason::UnsupportedDestructuring
    } else if code == "unsupported-global-module"@ {
        FastCheckReason::UnsupportedGlobalModule
    } else if code == "unsupported-require"@ {
        FastCheckReason::UnsupportedRequire
    } else if code == "unsupported-private-member-reference"@ {
        FastCheckReason::UnsupportedPrivateMemberReference
    } else if code == "unsupported-super-class-expr"@ {
        FastCheckReason::UnsupportedSuperClassExpr
    } else if code == "unsupported-ts-export-assignment"@ {
        FastCheckReason::UnsupportedTsExportAssignment
    } else if code == "unsupported-ts-namespace-export"@ {
        FastCheckReason::UnsupportedTsNamespaceExport
    } else if code == "unsupported-using"@ {
        FastCheckReason::UnsupportedUsing
    } else if code == "unsupported-nested-javascript"@ {
        FastCheckReason::UnsupportedNestedJavaScript
    } else if code == "unsupported-javascript-entrypoint"@ {
        FastCheckReason::UnsupportedJavaScriptEntrypoint
    } else if code == "emit"@ {
        FastCheckReason::Emit
    } else if code == "external"@ {
        FastCheckReason::External
    } else if code == "cached"@ {
        FastCheckReason::Cached
    } else {
        FastCheckReason::Unrecognized
    }
}

/// Reads the kind of a fast-check diagnostic from its code.
pub fn reason_from_code(code: &String) -> (r: FastCheckReason)
    ensures
        r == reason_of_code(code@),
{
    if *code == String::from_str("not-found-reference") {
        FastCheckReason::NotFoundReference
    } else if *code == String::from_str("missing-explicit-type") {
        FastCheckReason::MissingExplicitType
    } else if *code == String::from_str("missing-explicit-return-type") {
        FastCheckReason::MissingExplicitReturnType
    } else if *code == String::from_str("unsupported-ambient-module") {
        FastCheckReason::UnsupportedAmbientModule
    } else if *code == String::from_str("unsupported-complex-reference") {
        FastCheckReason::UnsupportedComplexReference
    } else if *code == String::from_str("unsupported-default-export-expr") {
        FastCheckReason::UnsupportedDefaultExportExpr
    } else if *code == String::from_str("unsupported-destructuring") {
        FastCheckReason::UnsupportedDestructuring
    } else if *code == String::from_str("unsupported-global-module") {
        FastCheckReason::UnsupportedGlobalModule
    } else if *code == String::from_str("unsupported-require") {
        FastCheckReason::UnsupportedRequire
    } else if *code == String::from_str("unsupported-private-member-reference") {
        FastCheckReason::UnsupportedPrivateMemberReference
    } else if *code == String::from_str("unsupported-super-class-expr") {
        FastCheckReason::UnsupportedSuperClassExpr
    } else if *code == String::from_str("unsupported-ts-export-assignment") {
        FastCheckReason::UnsupportedTsExportAssignment
    } else if *code == String::from_str("unsupported-ts-namespace-export") {
        FastCheckReason::UnsupportedTsNamespaceExport
    } else if *code == String::from_str("unsupported-using") {
        FastCheckReason::UnsupportedUsing
    } else if *code == String::from_str("unsupported-nested-javascript") {
        FastCheckReason::UnsupportedNestedJavaScript
    } else if *code == String::from_str("unsupported-javascript-entrypoint") {
        FastCheckReason::UnsupportedJavaScriptEntrypoint
    } else if *code == String::from_str("emit") {
        FastCheckReason::Emit
    } else if *code == String::from_str("external") {
        FastCheckReason::External
    } else if *code == String::from_str("cached") {
        FastCheckReason::Cached
    } else {
        FastCheckReason::Unrecognized
    }
}

/// Byte offsets of a range relative to the start of its text, when the range
/// lies at or after that start and does not end before it begins.
pub open spec fn relative_range(start: u32, end: u32, text_start: u32) -> Option<ByteRange> {
    if text_start <= start && start <= end {
        Some(ByteRange { start: (start - text_start) as usize, end: (end - text_start) as usize })
    } else {
        None
    }
}

/// Turns absolute positions into offsets from the start of the text; a range
/// that starts before its text or ends before it begins gives `None`.
pub fn range_in_text(start: u32, end: u32, text_start: u32) -> (r: Option<ByteRange>)
    ensures
        r == relative_range(start, end, text_start),
{
    if text_start <= start && start <= end {
        Some(ByteRange { start: (start - text_start) as usize, end: (end - text_start) as usize })
    } else {
        None
    }
}

/// A problem that the fast-check analyzer found, held as the plain values
/// that reporting reads from it.
#[derive(Debug)]
pub struct FastCheckProblem {
    pub reason: FastCheckReason,
    pub code: String,
    pub message: String,
    pub specifier: String,
    pub range: Option<ByteRange>,
    pub range_description: Option<String>,
    pub fix_hint: String,
    pub additional_info: Vec<String>,
}

/// The code of a fast-check diagnostic.
pub uninterp spec fn fast_check_code_of(d: deno_graph::FastCheckDiagnostic) -> Seq<char>;

/// The human-readable description of a fast-check diagnostic.
pub uninterp spec fn fast_check_message_of(d: deno_graph::FastCheckDiagnostic) -> Seq<char>;

/// The module a fast-check diagnostic is about, as URL text.
pub uninterp spec fn fast_check_specifier_of(d: deno_graph::FastCheckDiagnostic) -> Seq<char>;

/// The raw start, end and text-start positions of a fast-check diagnostic's
/// range, if it has one.
pub uninterp spec fn fast_check_range_of(d: deno_graph::FastCheckDiagnostic) -> Option<
    (u32, u32, u32),
>;

/// What the highlighted range of a fast-check diagnostic is.
pub uninterp spec fn fast_check_range_description_of(
    d: deno_graph::FastCheckDiagnostic,
) -> Option<Seq<char>>;

/// How to fix the problem a fast-check diagnostic reports.
pub uninterp spec fn fast_check_hint_of(d: deno_graph::FastCheckDiagnostic) -> Seq<char>;

/// The extra notes of a fast-check diagnostic, in order.
pub uninterp spec fn fast_check_info_of(d: deno_graph::FastCheckDiagnostic) -> Seq<Seq<char>>;

/// Relies on `deno_ast::diagnostics::Diagnostic::code` of deno_graph's
/// `FastCheckDiagnostic`: the diagnostic's code, always one of the codes of
/// the kinds it defines.
#[verifier::external_body]
fn graph_code(d: &deno_graph::FastCheckDiagnostic) -> (r: String)
    ensures
        r@ == fast_check_code_of(*d),
        reason_of_code(r@) != FastCheckReason::Unrecognized,
{
    d.code().into_owned()
}

/// Relies on the `Display` impl of deno_graph's `FastCheckDiagnostic`: its
/// human-readable description.
#[verifier::external_body]
fn graph_message(d: &deno_graph::FastCheckDiagnostic) -> (r: String)
    ensures
        r@ == fast_check_message_of(*d),
{
    std::string::ToString::to_string(d)
}

/// Relies on `deno_graph::FastCheckDiagnostic::specifier`: the module the
/// diagnostic is about, as URL text.
#[verifier::external_body]
fn graph_specifier(d: &deno_graph::FastCheckDiagnostic) -> (r: String)
    ensures
        r@ == fast_check_specifier_of(*d),
{
    d.specifier().to_string()
}

/// Relies on `deno_graph::FastCheckDiagnostic::range`: the range's start and
/// end and the start of the module's text, as the raw positions the analyzer
/// holds.
#[verifier::external_body]
fn graph_range(d: &deno_graph::FastCheckDiagnostic) -> (r: Option<(u32, u32, u32)>)
    ensures
        r == fast_check_range_of(*d),
{
    match d.range() {
        Some(range) => Some((
            range.range.start.as_byte_pos().0,
            range.range.end.as_byte_pos().0,
            range.text_info.range().start.as_byte_pos().0,
        )),
        None => None,
    }
}

/// Relies on `deno_graph::FastCheckDiagnostic::range_description`: what the
/// highlighted range is.
#[verifier::external_body]
fn graph_range_description(d: &deno_graph::FastCheckDiagnostic) -> (r: Option<String>)
    ensures
        opt_view(r) == fast_check_range_description_of(*d),
{
    d.range_description().map(String::from)
}

/// Relies on `deno_ast::diagnostics::Diagnostic::hint` of deno_graph's
/// `FastCheckDiagnostic`: how to fix the problem, given for every kind.
#[verifier::external_body]
fn graph_hint(d: &deno_graph::FastCheckDiagnostic) -> (r: Option<String>)
    ensures
        r is Some,
        r.unwrap()@ == fast_check_hint_of(*d),
{
    d.hint().map(|h| h.into_owned())
}

/// Relies on `deno_ast::diagnostics::Diagnostic::info` of deno_graph's
/// `FastCheckDiagnostic`: its extra notes, in order.
#[verifier::external_body]
fn graph_info(d: &deno_graph::FastCheckDiagnostic) -> (r: Vec<String>)
    ensures
        strings_view(r@) == fast_check_info_of(*d),
{
    d.info().iter().map(|s| s.to_string()).collect()
}

impl FastCheckProblem {
    /// Reads what reporting needs out of a diagnostic of the fast-check
    /// analyzer. The kind follows from the code; a range that does not lie
    /// within its module's text is dropped.
    pub fn from_graph(d: &deno_graph::FastCheckDiagnostic) -> (r: FastCheckProblem)
        ensures
            r.code@ == fast_check_code_of(*d),
            r.reason == reason_of_code(fast_check_code_of(*d)),
            r.reason != FastCheckReason::Unrecognized,
            r.message@ == fast_check_message_of(*d),
            r.specifier@ == fast_check_specifier_of(*d),
            r.range == match fast_check_range_of(*d) {
                Some((start, end, text_start)) => relative_range(start, end, text_start),
                None => None,
            },
            opt_view(r.range_description) == fast_check_range_description_of(*d),
            r.fix_hint@ == fast_check_hint_of(*d),
            strings_view(r.additional_info@) == fast_check_info_of(*d),
    {
        let code = graph_code(d);
        let reason = reason_from_code(&code);
        let range = match graph_range(d) {
            Some((start, end, text_start)) => range_in_text(start, end, text_start),
            None => None,
        };
        let fix_hint = match graph_hint(d) {
            Some(h) => h,
            None => String::new(),
        };
        FastCheckProblem {
            reason,
            code,
            message: graph_message(d),
            specifier: graph_specifier(d),
            range,
            range_description: graph_range_description(d),
            fix_hint,
            additional_info: graph_info(d),
        }
    }
}

} // verus!
