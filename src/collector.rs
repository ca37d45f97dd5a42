use vstd::prelude::*;

use crate::diagnostics::DiagnosticLevel;
use crate::publish::PublishDiagnostic;

verus! {

/// How many of the diagnostics are errors.
pub open spec fn error_count(s: Seq<PublishDiagnostic>) -> nat
    decreases s.len(),
{
    if s.len() == 0 {
        0
    } else {
        error_count(s.drop_last()) + if s.last().spec_level() == DiagnosticLevel::Error {
            1nat
        } else {
            0nat
        }
    }
}

/// The decimal digits of a number, most significant first.
pub open spec fn decimal(n: nat) -> Seq<char>
    decreases n,
{
    if n < 10 {
        seq![digit_char(n)]
    } else {
        decimal(n / 10).push(digit_char(n % 10))
    }
}

pub open spec fn digit_char(d: nat) -> char {
    (('0' as nat) + d) as char
}

/// "Found 1 problem", "Found 2 problems", ...
pub open spec fn problems_message(count: nat) -> Seq<char> {
    "Found "@ + decimal(count) + " problem"@ + if count == 1 {
        ""@
    } else {
        "s"@
    }
}

/// Publishing fails: this many of the reported diagnostics were errors.
#[derive(Clone, Copy, Debug, PartialEq, Eq, Structural)]
pub struct ProblemsFound {
    pub count: usize,
}

/// What checking a batch of diagnostics decides: success when none is an
/// error, else a failure that carries the number of errors.
pub open spec fn outcome(s: Seq<PublishDiagnostic>) -> Result<(), ProblemsFound> {
    if error_count(s) == 0 {
        Ok(())
    } else {
        Err(ProblemsFound { count: error_count(s) as usize })
    }
}

proof fn lemma_error_count_bounded(s: Seq<PublishDiagnostic>)
    ensures
        error_count(s) <= s.len(),
    decreases s.len(),
{
    if s.len() > 0 {
        lemma_error_count_bounded(s.drop_last());
    }
}

/// The text of one decimal digit.
fn digit_text(d: usize) -> (r: &'static str)
    requires
        d < 10,
    ensures
        r@ == seq![digit_char(d as nat)],
{
    proof {
        reveal_strlit("0");
        reveal_strlit("1");
        reveal_strlit("2");
        reveal_strlit("3");
        reveal_strlit("4");
        reveal_strlit("5");
        reveal_strlit("6");
        reveal_strlit("7");
        reveal_strlit("8");
        reveal_strlit("9");
    }
    let r = if d == 0 {
        "0"
    } else if d == 1 {
        "1"
    } else if d == 2 {
        "2"
    } else if d == 3 {
        "3"
    } else if d == 4 {
        "4"
    } else if d == 5 {
        "5"
    } else if d == 6 {
        "6"
    } else if d == 7 {
        "7"
    } else if d == 8 {
        "8"
    } else {
        "9"
    };
    assert(r@ =~= seq![digit_char(d as nat)]);
    r
}

/// Writes a number in decimal.
pub fn decimal_string(n: usize) -> (r: String)
    ensures
        r@ == decimal(n as nat),
    decreases n,
{
    if n < 10 {
        String::from_str(digit_text(n))
    } else {
        let r = decimal_string(n / 10).concat(digit_text(n % 10));
        assert(r@ =~= decimal(n as nat));
        r
    }
}

impl ProblemsFound {
    /// The failure's message, with the count and the plural where it is not one.
    pub fn message(&self) -> (r: String)
        ensures
            r@ == problems_message(self.count as nat),
    {
        let r = String::from_str("Found ").concat(decimal_string(self.count).as_str()).concat(
            " problem",
        );
        if self.count == 1 {
            r.concat("")
        } else {
            r.concat("s")
        }
    }
}

/// Counts the errors in a batch and decides whether publishing fails.
pub fn decide(diagnostics: &Vec<PublishDiagnostic>) -> (r: Result<(), ProblemsFound>)
    ensures
        r == outcome(diagnostics@),
        match r {
            Ok(_) => error_count(diagnostics@) == 0,
            Err(e) => e.count as nat == error_count(diagnostics@) && e.count > 0,
        },
{
    let mut errors: usize = 0;
    let mut i: usize = 0;
    while i < diagnostics.len()
        invariant
            i <= diagnostics@.len(),
            errors == error_count(diagnostics@.subrange(0, i as int)),
        decreases diagnostics@.len() - i,
    {
        proof {
            let s = diagnostics@.subrange(0, i as int + 1);
            assert(s.drop_last() =~= diagnostics@.subrange(0, i as int));
            lemma_error_count_bounded(s);
        }
        if matches!(diagnostics[i].level(), DiagnosticLevel::Error) {
            errors += 1;
        }
        i += 1;
    }
    assert(diagnostics@.subrange(0, i as int) =~= diagnostics@);
    if errors > 0 {
        Err(ProblemsFound { count: errors })
    } else {
        Ok(())
    }
}

/// Whether a diagnostic counts toward failure.
pub open spec fn is_error(d: PublishDiagnostic) -> bool {
    d.spec_level() == DiagnosticLevel::Error
}

/// A batch decides success exactly when none of its diagnostics is an error.
pub proof fn lemma_success_iff_no_errors(s: Seq<PublishDiagnostic>)
    ensures
        outcome(s) is Ok <==> forall|i: int| 0 <= i < s.len() ==> !is_error(#[trigger] s[i]),
    decreases s.len(),
{
    if s.len() > 0 {
        lemma_success_iff_no_errors(s.drop_last());
        if error_count(s) == 0 {
            assert forall|i: int| 0 <= i < s.len() implies !is_error(#[trigger] s[i]) by {
                if i < s.len() - 1 {
                    assert(s[i] == s.drop_last()[i]);
                }
            }
        } else if forall|i: int| 0 <= i < s.len() ==> !is_error(#[trigger] s[i]) {
            assert forall|i: int| 0 <= i < s.drop_last().len() implies !is_error(
                #[trigger] s.drop_last()[i],
            ) by {
                assert(s.drop_last()[i] == s[i]);
            }
            assert(!is_error(s[s.len() - 1]));
        }
    }
}

/// The failure of a batch counts exactly its error-level diagnostics,
/// however many warnings stand beside them: the batch fails when there is at
/// least one, and its message names that number (`print_and_error` and
/// `decide` return a failure whose count equals `error_count`).
pub proof fn lemma_failure_counts_errors(s: Seq<PublishDiagnostic>)
    ensures
        error_count(s) == s.filter(|d: PublishDiagnostic| is_error(d)).len(),
        outcome(s) is Err <==> s.filter(|d: PublishDiagnostic| is_error(d)).len() > 0,
        problems_message(error_count(s)) == problems_message(
            s.filter(|d: PublishDiagnostic| is_error(d)).len(),
        ),
    decreases s.len(),
{
    reveal_with_fuel(Seq::filter, 1);
    if s.len() > 0 {
        lemma_failure_counts_errors(s.drop_last());
    }
}

/// The failure message names the count, in the singular for one problem
/// and in the plural otherwise.
pub proof fn lemma_problem_wording(count: nat)
    ensures
        count == 1 ==> problems_message(count) == "Found 1 problem"@,
        count != 1 ==> problems_message(count) == "Found "@ + decimal(count) + " problems"@,
{
    reveal_strlit("Found 1 problem");
    reveal_strlit("Found ");
    reveal_strlit(" problem");
    reveal_strlit(" problems");
    reveal_strlit("s");
    reveal_strlit("");
    if count == 1 {
        assert(decimal(1) =~= seq!['1']);
        assert(problems_message(count) =~= "Found 1 problem"@);
    } else {
        assert(problems_message(count) =~= "Found "@ + decimal(count) + " problems"@);
    }
}

/// Once a collector has been drained, deciding on it again reports nothing
/// and succeeds.
pub proof fn lemma_drained_decides_success()
    ensures
        outcome(Seq::<PublishDiagnostic>::empty()) == Ok::<(), ProblemsFound>(()),
        error_count(Seq::<PublishDiagnostic>::empty()) == 0,
{
}

/// Gathers the diagnostics of a publish check, in the order they are pushed,
/// until they are printed and decided on together.
#[derive(Debug)]
pub struct PublishDiagnosticsCollector {
    diagnostics: Vec<PublishDiagnostic>,
}

impl View for PublishDiagnosticsCollector {
    type V = Seq<PublishDiagnostic>;

    closed spec fn view(&self) -> Seq<PublishDiagnostic> {
        self.diagnostics@
    }
}

impl Default for PublishDiagnosticsCollector {
    fn default() -> (r: Self)
        ensures
            r@ == Seq::<PublishDiagnostic>::empty(),
    {
        PublishDiagnosticsCollector::new()
    }
}

impl PublishDiagnosticsCollector {
    /// A collector holding nothing.
    pub fn new() -> (r: Self)
        ensures
            r@ == Seq::<PublishDiagnostic>::empty(),
    {
        PublishDiagnosticsCollector { diagnostics: Vec::new() }
    }

    /// Adds a diagnostic after those already held.
    pub fn push(&mut self, diagnostic: PublishDiagnostic)
        ensures
            final(self)@ == old(self)@.push(diagnostic),
    {
        self.diagnostics.push(diagnostic);
    }

    /// Hands out everything held, in push order, and leaves the collector
    /// empty in the same step.
    pub fn take_all(&mut self) -> (r: Vec<PublishDiagnostic>)
        ensures
            r@ == old(self)@,
            final(self)@ == Seq::<PublishDiagnostic>::empty(),
    {
        let mut taken: Vec<PublishDiagnostic> = Vec::new();
        core::mem::swap(&mut self.diagnostics, &mut taken);
        taken
    }

    /// Adds the diagnostics of `ds` after those already held, in order.
    pub fn push_all(&mut self, ds: Vec<PublishDiagnostic>)
        ensures
            final(self)@ == old(self)@ + ds@,
    {
        let mut ds = ds;
        let ghost start = self@;
        let ghost all = ds@;
        let mut rest: Vec<PublishDiagnostic> = Vec::new();
        while ds.len() > 0
            invariant
                all == ds@ + rest@.reverse(),
            decreases ds@.len(),
        {
            let d = ds.pop().unwrap();
            rest.push(d);
            assert(all =~= ds@ + rest@.reverse());
        }
        while rest.len() > 0
            invariant
                self@ + rest@.reverse() == start + all,
            decreases rest@.len(),
        {
            let d = rest.pop().unwrap();
            self.push(d);
            assert(self@ + rest@.reverse() =~= start + all);
        }
        assert(self@ =~= start + all);
    }

    /// Takes everything held and renders each diagnostic once, in push
    /// order, into a text block of its own; decides on the batch: success when none
    /// was an error, else a failure with the number of errors. The collector
    /// is left empty.
    pub fn print_and_error<F: Fn(&PublishDiagnostic) -> String>(&mut self, render: F) -> (r: (
        Vec<String>,
        Result<(), ProblemsFound>,
    ))
        requires
            forall|d: &PublishDiagnostic| render.requires((d,)),
        ensures
            final(self)@ == Seq::<PublishDiagnostic>::empty(),
            r.0@.len() == old(self)@.len(),
            forall|j: int|
                0 <= j < old(self)@.len() ==> render.ensures((&old(self)@[j],), #[trigger] r.0@[j]),
            r.1 == outcome(old(self)@),
            match r.1 {
                Ok(_) => error_count(old(self)@) == 0,
                Err(e) => e.count as nat == error_count(old(self)@) && e.count > 0,
            },
    {
        let diagnostics = self.take_all();
        let mut blocks: Vec<String> = Vec::new();
        let mut i: usize = 0;
        while i < diagnostics.len()
            invariant
                i <= diagnostics@.len(),
                blocks@.len() == i,
                forall|d: &PublishDiagnostic| render.requires((d,)),
                forall|j: int| 0 <= j < i ==> render.ensures((&diagnostics@[j],), #[trigger] blocks@[j]),
            decreases diagnostics@.len() - i,
        {
            let block = render(&diagnostics[i]);
            blocks.push(block);
            i += 1;
        }
        let decision = decide(&diagnostics);
        (blocks, decision)
    }
}

} // verus!
