//! Runs an ordered list of check rules on one font and collects what they report.
use crate::diagnostic::{views_of, Diagnostic, DiagnosticView};
use crate::win_metrics::{check_win_ascent_and_descent, win_ascent_and_descent_findings};
use vstd::prelude::*;

verus! {

/// The check rules that the runner knows.
#[derive(Clone, Copy, Debug, PartialEq, Eq, Structural)]
pub enum Check {
    /// `usWinAscent` and `usWinDescent` against the `head` extents.
    WinAscentAndDescent,
}

/// What rule `check` reports of the font file `data`.
pub open spec fn check_findings(check: Check, data: Seq<u8>) -> Seq<DiagnosticView> {
    match check {
        Check::WinAscentAndDescent => win_ascent_and_descent_findings(data),
    }
}

/// What the rules `checks` report of the font file `data`: each rule's
/// findings in its own order, the rules in list order.
pub open spec fn run_findings(checks: Seq<Check>, data: Seq<u8>) -> Seq<DiagnosticView>
    decreases checks.len(),
{
    if checks.len() == 0 {
        Seq::empty()
    } else {
        run_findings(checks.drop_last(), data) + check_findings(checks.last(), data)
    }
}

impl Check {
    /// Runs this rule on the font file `font`.
    pub fn run(&self, font: &[u8]) -> (r: Vec<Diagnostic>)
        ensures
            views_of(r@) == check_findings(*self, font@),
    {
        match self {
            Check::WinAscentAndDescent => check_win_ascent_and_descent(font),
        }
    }
}

/// Runs every rule of `checks` on the font file `font`, in list order, and
/// concatenates what they report. A rule that cannot read its tables does not
/// stop the rules after it.
pub fn run_checks(font: &[u8], checks: &[Check]) -> (r: Vec<Diagnostic>)
    ensures
        views_of(r@) == run_findings(checks@, font@),
{
    let mut diagnostics: Vec<Diagnostic> = Vec::new();
    let mut i: usize = 0;
    while i < checks.len()
        invariant
            i <= checks@.len(),
            views_of(diagnostics@) == run_findings(checks@.subrange(0, i as int), font@),
        decreases checks@.len() - i,
    {
        let mut found = checks[i].run(font);
        let ghost before = diagnostics@;
        let ghost added = found@;
        diagnostics.append(&mut found);
        proof {
            let done = checks@.subrange(0, i as int + 1);
            assert(done.drop_last() =~= checks@.subrange(0, i as int));
            assert(done.last() == checks@[i as int]);
            assert(diagnostics@ == before + added);
            assert(views_of(before + added) =~= views_of(before) + views_of(added));
        }
        i = i + 1;
    }
    assert(checks@.subrange(0, checks@.len() as int) =~= checks@);
    diagnostics
}

} // verus!
