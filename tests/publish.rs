use std::sync::Arc;
use std::sync::Mutex;

use deno_ast::SourceRange;
use deno_ast::SourceTextInfo;
use deno_graph::FastCheckDiagnosticRange;
use deno_graph::ModuleSpecifier;
use publish_diagnostics::collector::decimal_string;
use publish_diagnostics::fast_check::{range_in_text, reason_from_code};
use publish_diagnostics::{
    decide, ByteRange, DiagnosticLevel, DiagnosticLocation, DiagnosticSnippetHighlightStyle,
    DiagnosticSnippetSource, DiagnosticSourcePos, FastCheckProblem, FastCheckReason,
    ImportMapUnfurlDiagnostic, ProblemsFound, PublishDiagnostic, PublishDiagnosticsCollector,
};

fn fast_check_with(reason: FastCheckReason, code: &str, range: Option<ByteRange>) -> PublishDiagnostic {
    PublishDiagnostic::FastCheck(FastCheckProblem {
        reason,
        code: code.to_string(),
        message: "missing explicit type in the public API".to_string(),
        specifier: "file:///mod.ts".to_string(),
        range,
        range_description: Some("this symbol is missing an explicit type".to_string()),
        fix_hint: "add an explicit type annotation to the symbol".to_string(),
        additional_info: vec!["all symbols in the public API must have an explicit type".to_string()],
    })
}

fn fast_check(reason: FastCheckReason, range: Option<ByteRange>) -> PublishDiagnostic {
    fast_check_with(reason, "missing-explicit-type", range)
}

fn entrypoint() -> PublishDiagnostic {
    PublishDiagnostic::FastCheck(FastCheckProblem {
        reason: FastCheckReason::UnsupportedJavaScriptEntrypoint,
        code: "unsupported-javascript-entrypoint".to_string(),
        message: "used a JavaScript module without type declarations as an entrypoint".to_string(),
        specifier: "file:///mod.js".to_string(),
        range: None,
        range_description: None,
        fix_hint: "add a type declaration (d.ts) for the JavaScript module, or rewrite it to TypeScript".to_string(),
        additional_info: vec![],
    })
}

fn unfurl(start: usize, end: usize) -> PublishDiagnostic {
    PublishDiagnostic::ImportMapUnfurl(ImportMapUnfurlDiagnostic::UnanalyzableDynamicImport {
        specifier: "file:///dyn.ts".to_string(),
        range: ByteRange { start, end },
    })
}

fn error_diag() -> PublishDiagnostic {
    fast_check(FastCheckReason::MissingExplicitType, None)
}

#[test]
fn entrypoint_is_warning_other_fast_check_is_error() {
    assert_eq!(entrypoint().level(), DiagnosticLevel::Warning);
    assert_eq!(error_diag().level(), DiagnosticLevel::Error);
    assert_eq!(unfurl(0, 4).level(), DiagnosticLevel::Warning);
}

#[test]
fn no_range_gives_file_location_and_no_snippet() {
    let d = error_diag();
    match d.location() {
        DiagnosticLocation::File { specifier } => assert_eq!(specifier, "file:///mod.ts"),
        other => panic!("unexpected location {:?}", other),
    }
    assert!(d.snippet().is_none());
    assert!(d.snippet_fixed().is_none());
}

#[test]
fn range_gives_position_and_exact_highlight() {
    let d = fast_check(FastCheckReason::MissingExplicitType, Some(ByteRange { start: 7, end: 12 }));
    match d.location() {
        DiagnosticLocation::PositionInFile { specifier, source_pos } => {
            assert_eq!(specifier, "file:///mod.ts");
            assert_eq!(source_pos, DiagnosticSourcePos { byte_index: 7 });
        }
        other => panic!("unexpected location {:?}", other),
    }
    let s = d.snippet().unwrap();
    let DiagnosticSnippetSource::Specifier(src) = &s.source;
    assert_eq!(src, "file:///mod.ts");
    assert_eq!(s.highlight.style, DiagnosticSnippetHighlightStyle::Error);
    assert_eq!(s.highlight.range.start.byte_index, 7);
    assert_eq!(s.highlight.range.end.byte_index, 12);
    assert_eq!(s.highlight.description.as_deref(), Some("this symbol is missing an explicit type"));
}

#[test]
fn unfurl_accessors() {
    let d = unfurl(3, 9);
    assert_eq!(d.code(), "unanalyzable-dynamic-import");
    assert_eq!(d.message(), "unable to analyze dynamic import");
    match d.location() {
        DiagnosticLocation::PositionInFile { specifier, source_pos } => {
            assert_eq!(specifier, "file:///dyn.ts");
            assert_eq!(source_pos.byte_index, 3);
        }
        other => panic!("unexpected location {:?}", other),
    }
    let s = d.snippet().unwrap();
    assert_eq!(s.highlight.style, DiagnosticSnippetHighlightStyle::Warning);
    assert_eq!(s.highlight.range.start.byte_index, 3);
    assert_eq!(s.highlight.range.end.byte_index, 9);
    assert_eq!(s.highlight.description.as_deref(), Some("the unanalyzable dynamic import"));
    assert!(d.hint().is_none());
    assert!(d.docs_url().is_none());
    assert_eq!(
        d.info(),
        vec![
            "after publishing this package, imports from the local import map do not work".to_string(),
            "dynamic imports that can not be analyzed at publish time will not be rewritten automatically".to_string(),
            "make sure the dynamic import is resolvable at runtime without an import map".to_string(),
        ]
    );
}

#[test]
fn fast_check_accessors() {
    let d = error_diag();
    assert_eq!(d.code(), "missing-explicit-type");
    assert_eq!(d.message(), "missing explicit type in the public API");
    assert_eq!(d.hint().as_deref(), Some("add an explicit type annotation to the symbol"));
    assert_eq!(d.info(), vec!["all symbols in the public API must have an explicit type".to_string()]);
    assert_eq!(d.docs_url().as_deref(), Some("https://jsr.io/go/missing-explicit-type"));
}

#[test]
fn warnings_only_succeed_and_errors_are_counted() {
    let mut c = PublishDiagnosticsCollector::new();
    c.push(entrypoint());
    c.push(unfurl(0, 1));
    c.push(error_diag());
    c.push(unfurl(2, 3));
    c.push(error_diag());
    c.push(error_diag());
    let (blocks, r) = c.print_and_error(|d: &PublishDiagnostic| d.code().to_string());
    assert_eq!(r, Err(ProblemsFound { count: 3 }));
    assert_eq!(r.unwrap_err().message(), "Found 3 problems");
    assert_eq!(
        blocks,
        vec![
            "unsupported-javascript-entrypoint",
            "unanalyzable-dynamic-import",
            "missing-explicit-type",
            "unanalyzable-dynamic-import",
            "missing-explicit-type",
            "missing-explicit-type",
        ]
    );
}

#[test]
fn two_errors_one_warning_give_three_blocks() {
    let mut c = PublishDiagnosticsCollector::new();
    c.push(error_diag());
    c.push(unfurl(0, 1));
    c.push(error_diag());
    let (blocks, r) = c.print_and_error(|d: &PublishDiagnostic| d.message().to_string());
    assert_eq!(blocks.len(), 3);
    assert_eq!(r.unwrap_err().message(), "Found 2 problems");
}

#[test]
fn second_call_renders_nothing_and_succeeds() {
    let mut c = PublishDiagnosticsCollector::new();
    c.push(error_diag());
    let (blocks, r) = c.print_and_error(|_d: &PublishDiagnostic| String::from("block"));
    assert_eq!(blocks.len(), 1);
    assert_eq!(r, Err(ProblemsFound { count: 1 }));
    let (blocks, r) = c.print_and_error(|_d: &PublishDiagnostic| String::from("block"));
    assert_eq!(r, Ok(()));
    assert!(blocks.is_empty());
}

#[test]
fn push_all_keeps_order() {
    let mut c = PublishDiagnosticsCollector::new();
    c.push(entrypoint());
    c.push_all(vec![unfurl(1, 2), error_diag(), unfurl(3, 4)]);
    let batch = c.take_all();
    let codes: Vec<&str> = batch.iter().map(|d| d.code()).collect();
    assert_eq!(
        codes,
        vec![
            "unsupported-javascript-entrypoint",
            "unanalyzable-dynamic-import",
            "missing-explicit-type",
            "unanalyzable-dynamic-import",
        ]
    );
    assert!(c.take_all().is_empty());
}

#[test]
fn shared_pushes_are_all_rendered() {
    let shared = Arc::new(Mutex::new(PublishDiagnosticsCollector::default()));
    for producer in 0..4usize {
        let handle = Arc::clone(&shared);
        for i in 0..5usize {
            handle.lock().unwrap().push(unfurl(producer, producer + i));
        }
    }
    let batch = shared.lock().unwrap().take_all();
    assert_eq!(batch.len(), 20);
    assert!(shared.lock().unwrap().take_all().is_empty());
    assert_eq!(decide(&batch), Ok(()));
}

#[test]
fn scenario_two_warnings_succeed() {
    let mut c = PublishDiagnosticsCollector::new();
    c.push(entrypoint());
    c.push(unfurl(10, 20));
    let (blocks, r) = c.print_and_error(|d: &PublishDiagnostic| format!("{:?} {}", d.level(), d.code()));
    assert_eq!(r, Ok(()));
    assert_eq!(
        blocks,
        vec!["Warning unsupported-javascript-entrypoint", "Warning unanalyzable-dynamic-import"]
    );
}

#[test]
fn scenario_one_error_without_range() {
    let mut c = PublishDiagnosticsCollector::new();
    c.push(error_diag());
    let (blocks, r) = c.print_and_error(|d: &PublishDiagnostic| {
        let is_file = matches!(d.location(), DiagnosticLocation::File { .. });
        format!("{:?} {} {}", d.level(), is_file, d.snippet().is_none())
    });
    assert_eq!(blocks, vec!["Error true true"]);
    let e = r.unwrap_err();
    assert_eq!(e.count, 1);
    assert_eq!(e.message(), "Found 1 problem");
}

#[test]
fn every_other_fast_check_reason_is_error() {
    let reasons = [
        (FastCheckReason::NotFoundReference, "not-found-reference"),
        (FastCheckReason::MissingExplicitReturnType, "missing-explicit-return-type"),
        (FastCheckReason::UnsupportedAmbientModule, "unsupported-ambient-module"),
        (FastCheckReason::UnsupportedNestedJavaScript, "unsupported-nested-javascript"),
        (FastCheckReason::Emit, "emit"),
        (FastCheckReason::External, "external"),
        (FastCheckReason::Cached, "cached"),
        (FastCheckReason::Unrecognized, "no-such-code"),
    ];
    for (reason, code) in reasons {
        assert_eq!(reason_from_code(&code.to_string()), reason);
        assert_eq!(fast_check_with(reason, code, None).level(), DiagnosticLevel::Error);
    }
}

#[test]
fn reason_follows_code() {
    assert_eq!(
        reason_from_code(&"unsupported-javascript-entrypoint".to_string()),
        FastCheckReason::UnsupportedJavaScriptEntrypoint
    );
    assert_eq!(reason_from_code(&"cached".to_string()), FastCheckReason::Cached);
    assert_eq!(
        reason_from_code(&"unsupported-ts-namespace-export".to_string()),
        FastCheckReason::UnsupportedTsNamespaceExport
    );
    assert_eq!(reason_from_code(&"no-such-code".to_string()), FastCheckReason::Unrecognized);
}

#[test]
fn range_offsets_are_checked() {
    assert_eq!(range_in_text(15, 20, 10), Some(ByteRange { start: 5, end: 10 }));
    assert_eq!(range_in_text(10, 10, 10), Some(ByteRange { start: 0, end: 0 }));
    assert_eq!(range_in_text(5, 20, 10), None);
    assert_eq!(range_in_text(20, 15, 10), None);
}

#[test]
fn problem_wording_and_decimal() {
    assert_eq!(ProblemsFound { count: 2 }.message(), "Found 2 problems");
    assert_eq!(ProblemsFound { count: 0 }.message(), "Found 0 problems");
    assert_eq!(ProblemsFound { count: 1234 }.message(), "Found 1234 problems");
    assert_eq!(decimal_string(0), "0");
    assert_eq!(decimal_string(907), "907");
    assert_eq!(decimal_string(usize::MAX), usize::MAX.to_string());
}

#[test]
fn empty_batch_succeeds() {
    assert_eq!(decide(&Vec::new()), Ok(()));
}

#[test]
fn graph_entrypoint_is_read() {
    let specifier = ModuleSpecifier::parse("file:///main.js").unwrap();
    let d = deno_graph::FastCheckDiagnostic::UnsupportedJavaScriptEntrypoint { specifier };
    let p = FastCheckProblem::from_graph(&d);
    assert_eq!(p.reason, FastCheckReason::UnsupportedJavaScriptEntrypoint);
    assert_eq!(p.code, "unsupported-javascript-entrypoint");
    assert_eq!(p.message, "used a JavaScript module without type declarations as an entrypoint");
    assert_eq!(p.specifier, "file:///main.js");
    assert_eq!(p.range, None);
    assert_eq!(p.range_description, None);
    assert_eq!(
        p.fix_hint,
        "add a type declaration (d.ts) for the JavaScript module, or rewrite it to TypeScript"
    );
    let pd = PublishDiagnostic::FastCheck(p);
    assert_eq!(pd.level(), DiagnosticLevel::Warning);
    assert!(pd.hint().is_some());
}

#[test]
fn graph_ranged_diagnostic_is_read() {
    let specifier = ModuleSpecifier::parse("file:///mod.ts").unwrap();
    let text_info = SourceTextInfo::from_string("export const a = 1;\n".to_string());
    let start = text_info.range().start;
    let range = FastCheckDiagnosticRange {
        specifier,
        range: SourceRange::new(start + 13, start + 14),
        text_info,
    };
    let d = deno_graph::FastCheckDiagnostic::MissingExplicitType { range };
    let p = FastCheckProblem::from_graph(&d);
    assert_eq!(p.reason, FastCheckReason::MissingExplicitType);
    assert_eq!(p.code, "missing-explicit-type");
    assert_eq!(p.message, "missing explicit type in the public API");
    assert_eq!(p.specifier, "file:///mod.ts");
    assert_eq!(p.range, Some(ByteRange { start: 13, end: 14 }));
    assert_eq!(p.range_description.as_deref(), Some("this symbol is missing an explicit type"));
    assert_eq!(p.fix_hint, "add an explicit type annotation to the symbol");
    assert_eq!(p.additional_info, vec!["all symbols in the public API must have an explicit type".to_string()]);
    let pd = PublishDiagnostic::FastCheck(p);
    assert_eq!(pd.level(), DiagnosticLevel::Error);
    assert_eq!(pd.docs_url().as_deref(), Some("https://jsr.io/go/missing-explicit-type"));
}

#[test]
fn graph_range_before_its_text_is_dropped() {
    let specifier = ModuleSpecifier::parse("file:///late.ts").unwrap();
    let origin = SourceTextInfo::from_string(String::new()).range().start;
    let text_info = SourceTextInfo::new_with_pos(
        origin + 100,
        std::sync::Arc::from("export const b = 2;\n"),
    );
    let range = FastCheckDiagnosticRange {
        specifier,
        range: SourceRange::new(origin + 3, origin + 5),
        text_info,
    };
    let d = deno_graph::FastCheckDiagnostic::MissingExplicitReturnType { range };
    let p = FastCheckProblem::from_graph(&d);
    assert_eq!(p.reason, FastCheckReason::MissingExplicitReturnType);
    assert_eq!(p.range, None);
    let pd = PublishDiagnostic::FastCheck(p);
    assert!(matches!(pd.location(), DiagnosticLocation::File { .. }));
    assert!(pd.snippet().is_none());
}
