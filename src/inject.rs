use vstd::prelude::*;

verus! {

/// Pause after every submitted synthetic event, in milliseconds, so that the
/// operating system applies it before the next one is issued.
pub const SETTLE_DELAY_MS: u64 = 20;

/// What one injection comes to once the operating system has answered:
/// whether the event was refused, and how long to pause before returning.
#[derive(PartialEq, Eq, Structural, Clone, Copy, Debug)]
pub struct InjectionReport {
    pub failed: bool,
    pub settle_ms: u64,
}

/// The report owed for an answer of the operating system.
pub open spec fn report_for(accepted: bool) -> InjectionReport {
    InjectionReport { failed: !accepted, settle_ms: SETTLE_DELAY_MS }
}

/// Settles one submission. A refusal is reported in the result and never
/// raised, and the pause is owed whether the submission succeeded or not.
pub fn finish_injection(accepted: bool) -> (r: InjectionReport)
    ensures
        r == report_for(accepted),
{
    InjectionReport { failed: !accepted, settle_ms: SETTLE_DELAY_MS }
}

/// Total pause of a run of injections, in milliseconds.
pub open spec fn total_settle(rs: Seq<InjectionReport>) -> int
    decreases rs.len(),
{
    if rs.len() == 0 {
        0
    } else {
        total_settle(rs.drop_last()) + rs.last().settle_ms
    }
}

/// Settles a run of submissions, one report per answer, in order.
pub fn finish_run(answers: &Vec<bool>) -> (r: Vec<InjectionReport>)
    ensures
        r@.len() == answers@.len(),
        forall|i: int| 0 <= i < r@.len() ==> #[trigger] r@[i] == report_for(answers@[i]),
{
    let mut r: Vec<InjectionReport> = Vec::new();
    let mut i: usize = 0;
    while i < answers.len()
        invariant
            i <= answers@.len(),
            r@.len() == i,
            forall|j: int| 0 <= j < i ==> #[trigger] r@[j] == report_for(answers@[j]),
        decreases answers@.len() - i,
    {
        r.push(finish_injection(answers[i]));
        i = i + 1;
    }
    r
}

/// M injections pause for M times the settle delay in all, whatever each
/// of them came to.
pub proof fn lemma_pacing(answers: Seq<bool>, reports: Seq<InjectionReport>)
    requires
        reports.len() == answers.len(),
        forall|i: int| 0 <= i < reports.len() ==> #[trigger] reports[i] == report_for(answers[i]),
    ensures
        total_settle(reports) == reports.len() * SETTLE_DELAY_MS,
    decreases reports.len(),
{
    if reports.len() > 0 {
        let n = (reports.len() - 1) as int;
        lemma_pacing(answers.subrange(0, n), reports.drop_last());
    }
}

/// A refused injection does not change how a later one is settled: each
/// report depends on its own answer alone.
pub proof fn lemma_failure_isolated(answers: Seq<bool>, reports: Seq<InjectionReport>, i: int, j: int)
    requires
        reports.len() == answers.len(),
        forall|k: int| 0 <= k < reports.len() ==> #[trigger] reports[k] == report_for(answers[k]),
        0 <= i < j < reports.len(),
        !answers[i],
    ensures
        reports[i].failed,
        reports[j].failed == !answers[j],
        reports[j].settle_ms == SETTLE_DELAY_MS,
{
}

} // verus!
