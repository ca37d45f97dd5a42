use vstd::prelude::*;

verus! {

/// How serious a diagnostic is.
#[derive(Clone, Copy, Debug, PartialEq, Eq, Structural)]
pub enum DiagnosticLevel {
    Error,
    Warning,
}

/// A byte offset into one parsed source text.
#[derive(Clone, Copy, Debug, PartialEq, Eq, Structural)]
pub struct DiagnosticSourcePos {
    pub byte_index: usize,
}

/// A half-open range of byte offsets, as an analyzer reports it.
#[derive(Clone, Copy, Debug, PartialEq, Eq, Structural)]
pub struct ByteRange {
    pub start: usize,
    pub end: usize,
}

/// A half-open range of byte offsets into one parsed source text.
#[derive(Clone, Copy, Debug, PartialEq, Eq, Structural)]
pub struct DiagnosticSourceRange {
    pub start: DiagnosticSourcePos,
    pub end: DiagnosticSourcePos,
}

/// Where a diagnostic applies: a whole file, or a position inside it.
#[derive(Debug)]
pub enum DiagnosticLocation {
    File { specifier: String },
    PositionInFile { specifier: String, source_pos: DiagnosticSourcePos },
}

impl DiagnosticLocation {
    /// The specifier that the location names, whatever its kind.
    pub open spec fn specifier_view(&self) -> Seq<char> {
        match self {
            DiagnosticLocation::File { specifier } => specifier@,
            DiagnosticLocation::PositionInFile { specifier, .. } => specifier@,
        }
    }

    /// The byte offset of the location, absent for a whole file.
    pub open spec fn position(&self) -> Option<DiagnosticSourcePos> {
        match self {
            DiagnosticLocation::File { .. } => None,
            DiagnosticLocation::PositionInFile { source_pos, .. } => Some(*source_pos),
        }
    }
}

/// The glyph style used to underline a highlighted range.
#[derive(Clone, Copy, Debug, PartialEq, Eq, Structural)]
pub enum DiagnosticSnippetHighlightStyle {
    Error,
    Warning,
}

/// The range that a snippet underlines, with an optional one-line note.
#[derive(Debug)]
pub struct DiagnosticSnippetHighlight {
    pub style: DiagnosticSnippetHighlightStyle,
    pub range: DiagnosticSourceRange,
    pub description: Option<String>,
}

/// The text a snippet is cut from.
#[derive(Debug)]
pub enum DiagnosticSnippetSource {
    Specifier(String),
}

impl DiagnosticSnippetSource {
    pub open spec fn specifier_view(&self) -> Seq<char> {
        match self {
            DiagnosticSnippetSource::Specifier(s) => s@,
        }
    }
}

/// An excerpt of source text with one highlighted range.
#[derive(Debug)]
pub struct DiagnosticSnippet {
    pub source: DiagnosticSnippetSource,
    pub highlight: DiagnosticSnippetHighlight,
}

/// The view of an optional string.
pub open spec fn opt_view(s: Option<String>) -> Option<Seq<char>> {
    match s {
        Some(t) => Some(t@),
        None => None,
    }
}

/// The views of a list of strings.
pub open spec fn strings_view(v: Seq<String>) -> Seq<Seq<char>> {
    v.map_values(|s: String| s@)
}

/// Copies an optional string.
pub fn clone_opt(s: &Option<String>) -> (r: Option<String>)
    ensures
        opt_view(r) == opt_view(*s),
{
    match s {
        Some(t) => Some(t.clone()),
        None => None,
    }
}

/// Copies a list of strings, keeping their order.
pub fn clone_strings(v: &Vec<String>) -> (r: Vec<String>)
    ensures
        strings_view(r@) == strings_view(v@),
{
    let mut r: Vec<String> = Vec::new();
    let mut i: usize = 0;
    while i < v.len()
        invariant
            i <= v@.len(),
            strings_view(r@) == strings_view(v@.subrange(0, i as int)),
        decreases v@.len() - i,
    {
        r.push(v[i].clone());
        i += 1;
        assert(strings_view(v@.subrange(0, i as int)) =~= strings_view(
            v@.subrange(0, (i - 1) as int),
        ).push(v@[i - 1]@));
    }
    assert(v@.subrange(0, i as int) =~= v@);
    r
}

} // verus!
