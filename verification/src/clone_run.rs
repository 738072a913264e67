//! The sequential clone pass over a plan.
//!
//! Targets are attempted strictly in plan order. Recording an outcome —
//! success or failure — appends a report under that target's destination and
//! moves the run to the next target, so one project's failure never prevents
//! the remaining projects from being attempted. The run itself never fails:
//! after every target has been attempted it is finished, however many
//! individual clones went wrong.

use vstd::prelude::*;
use crate::namespace::CloneTarget;

verus! {

/// What one clone attempt came to: the target's destination and, on
/// failure, the error text the transport reported.
#[derive(Debug, Clone, PartialEq, Eq)]
pub struct CloneReport {
    pub destination: String,
    /// `None` on success; the reported error text otherwise.
    pub error: Option<String>,
}

/// One pass over a clone plan, target by target.
pub struct CloneRun {
    plan: Vec<CloneTarget>,
    reports: Vec<CloneReport>,
}

impl CloneRun {
    /// The targets of the run, in order.
    pub closed spec fn plan(self) -> Seq<CloneTarget> {
        self.plan@
    }

    /// One report per attempted target, in plan order.
    pub closed spec fn reports(self) -> Seq<CloneReport> {
        self.reports@
    }

    /// How many targets have been attempted.
    pub open spec fn attempted(self) -> int {
        self.reports().len() as int
    }

    /// Every attempted target is reported under its own destination, and no
    /// target is attempted twice.
    pub open spec fn wf(self) -> bool {
        &&& self.reports().len() <= self.plan().len()
        &&& forall|i: int| 0 <= i < self.reports().len()
            ==> (#[trigger] self.reports()[i]).destination == self.plan()[i].destination
    }

    /// Start a run over `plan` with nothing attempted yet.
    pub fn new(plan: Vec<CloneTarget>) -> (r: Self)
        ensures
            r.wf(),
            r.plan() == plan@,
            r.reports() == Seq::<CloneReport>::empty(),
    {
        CloneRun { plan, reports: Vec::new() }
    }

    /// The next target to attempt, if any is left.
    pub fn next_target(&self) -> (r: Option<&CloneTarget>)
        ensures
            self.attempted() < self.plan().len() ==> (r matches Some(t)
                && *t == self.plan()[self.attempted()]),
            self.attempted() >= self.plan().len() ==> r is None,
    {
        if self.reports.len() < self.plan.len() {
            Some(&self.plan[self.reports.len()])
        } else {
            None
        }
    }

    /// Record the outcome of the current target — `None` for success, the
    /// reported error text for failure — and move on to the next one.
    pub fn record(&mut self, error: Option<String>)
        requires
            old(self).wf(),
            old(self).attempted() < old(self).plan().len(),
        ensures
            final(self).wf(),
            final(self).plan() == old(self).plan(),
            final(self).reports() == old(self).reports().push(CloneReport {
                destination: old(self).plan()[old(self).attempted()].destination,
                error: error,
            }),
    {
        let dest = self.plan[self.reports.len()].destination.clone();
        self.reports.push(CloneReport { destination: dest, error });
    }

    /// Whether every target has been attempted.
    pub fn finished(&self) -> (r: bool)
        ensures
            r == (self.attempted() >= self.plan().len()),
    {
        self.reports.len() >= self.plan.len()
    }

    /// The reports of the whole run, one per attempted target.
    pub fn into_reports(self) -> (r: Vec<CloneReport>)
        ensures
            r@ == self.reports(),
    {
        self.reports
    }
}

/// Law: a clone failure is isolated. Recording a failed clone reports it
/// under exactly that target's destination, leaves every earlier report
/// untouched, and leaves every later target in the plan still to be
/// attempted — the run goes on past the failure.
pub proof fn lemma_failure_is_isolated(before: CloneRun, after: CloneRun, error: String)
    requires
        before.wf(),
        before.attempted() < before.plan().len(),
        after.plan() == before.plan(),
        after.reports() == before.reports().push(CloneReport {
            destination: before.plan()[before.attempted()].destination,
            error: Some(error),
        }),
    ensures
        after.wf(),
        after.attempted() == before.attempted() + 1,
        after.reports()[before.attempted()].destination
            == before.plan()[before.attempted()].destination,
        after.reports()[before.attempted()].error == Some(error),
        forall|k: int| 0 <= k < before.attempted()
            ==> after.reports()[k] == before.reports()[k],
        forall|k: int| after.attempted() <= k < after.plan().len()
            ==> after.plan()[k] == before.plan()[k],
{
}

} // verus!
