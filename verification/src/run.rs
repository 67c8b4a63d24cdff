//! Pipeline runner: hands the plan's actions out strictly in order and
//! stops for good at the first failure.  The surrounding binary performs
//! each action and reports whether it succeeded; no retry, no rollback.

use vstd::prelude::*;
use crate::action::{Action, ActionSpec};

verus! {

/// State of one installation run over a fixed plan.
pub struct PipelineRun {
    pub plan: Vec<Action>,
    pub next: usize,
    pub failed: bool,
}

impl PipelineRun {
    pub open spec fn wf(self) -> bool {
        self.next <= self.plan@.len()
    }

    /// The action owed next: none once an action has failed, none once
    /// the plan is exhausted.
    pub open spec fn spec_current(self) -> Option<ActionSpec> {
        if !self.failed && self.next < self.plan@.len() {
            Some(self.plan@[self.next as int]@)
        } else {
            None
        }
    }

    /// The run ended with every action performed and none failing.
    pub open spec fn completed(self) -> bool {
        !self.failed && self.next == self.plan@.len()
    }

    pub fn new(plan: Vec<Action>) -> (r: PipelineRun)
        ensures
            r.wf(),
            r.plan@ == plan@,
            r.next == 0,
            !r.failed,
    {
        PipelineRun { plan, next: 0, failed: false }
    }

    /// The next action to perform, or nothing when the run is over,
    /// whether completed or failed.
    pub fn current(&self) -> (r: Option<&Action>)
        requires
            self.wf(),
        ensures
            match r {
                Some(a) => Some(a@) == self.spec_current(),
                None => self.spec_current() is None,
            },
    {
        if !self.failed && self.next < self.plan.len() {
            Some(&self.plan[self.next])
        } else {
            None
        }
    }

    /// Whether an action has failed; a failure is surfaced here and never
    /// cleared.
    pub fn has_failed(&self) -> (b: bool)
        ensures
            b == self.failed,
    {
        self.failed
    }

    /// Record the outcome of the action last handed out.
    pub fn advance(&mut self, success: bool)
        requires
            old(self).wf(),
            old(self).spec_current() is Some,
        ensures
            final(self).wf(),
            final(self).plan@ == old(self).plan@,
            final(self).next == old(self).next + 1,
            final(self).failed == !success,
    {
        let n = self.plan.len();
        self.next = self.next + 1;
        self.failed = !success;
        proof {
            assert(self.next <= n);
        }
    }
}

/// Law: a failed run never yields another action, so a failure at any
/// phase prevents every later action — the reboot included — from being
/// handed out, while the failure itself stays surfaced.
pub proof fn lemma_failure_halts(r: PipelineRun)
    requires
        r.wf(),
        r.failed,
    ensures
        r.spec_current() is None,
{
}

/// Law: the actions a run hands out are exactly the plan's prefix up to
/// and including the first failing action: `advance` moves one step at a
/// time and `current` always yields the plan entry at that position.
pub proof fn lemma_run_is_prefix(r: PipelineRun)
    requires
        r.wf(),
        r.spec_current() is Some,
    ensures
        r.spec_current() == Some(r.plan@[r.next as int]@),
        !r.failed,
{
}

} // verus!
