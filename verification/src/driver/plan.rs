//! Plans: the ordered requests of one operation, and what a failure of each means.
//!
//! An operation hands back what it makes together with the plan that makes
//! it real. Where the executor reports that the plan failed, what was
//! handed back is dropped: the plan itself says what must be given back to
//! the driver on the way.

use vstd::prelude::*;
use crate::driver::call::DriverCall;

verus! {

/// What the executor does when the driver refuses a request.
#[derive(Clone, Copy, Debug, PartialEq, Eq, Structural)]
pub enum OnFailure {
    /// Nothing sensible is left to do: the executor stops the program.
    Abort,
    /// The executor skips the rest of the plan and hands the driver's error
    /// to its caller.
    Surface,
    /// As `Surface`, after the executor has made the last so many requests
    /// of the plan's `release`, each of which must succeed: they give back
    /// what the steps before this one acquired.
    Release(usize),
}

/// One request of a plan.
#[derive(Clone, Copy, Debug, PartialEq, Eq, Structural)]
pub struct Step {
    pub call: DriverCall,
    pub on_failure: OnFailure,
}

/// The requests of one operation, in the order in which they are made.
#[derive(Clone, Debug, PartialEq, Eq)]
pub struct Plan {
    /// The requests, first to last.
    pub steps: Vec<Step>,
    /// The requests that give back what the plan acquires, the latest
    /// acquisition first; what the first steps acquire is given back by the
    /// last of them.
    pub release: Vec<DriverCall>,
}

/// The mathematical content of a [`Plan`].
pub struct PlanView {
    pub steps: Seq<Step>,
    pub release: Seq<DriverCall>,
}

impl PlanView {
    /// The requests of the plan without their failure marks: what reaches
    /// the driver when every step succeeds.
    pub open spec fn calls(self) -> Seq<DriverCall> {
        Seq::new(self.steps.len(), |i: int| self.steps[i].call)
    }

    /// The requests that are made when a step marked `OnFailure::Release(n)`
    /// fails: the last `n` of `release`, or all of them where there are fewer.
    pub open spec fn unwinding(self, n: usize) -> Seq<DriverCall> {
        if n <= self.release.len() {
            self.release.subrange(self.release.len() - n, self.release.len() as int)
        } else {
            self.release
        }
    }

    /// What the executor does when the driver refuses the step at `at`:
    /// `None` where it must stop the program, else the requests that it
    /// makes before it reports the error.
    pub open spec fn recovery(self, at: int) -> Option<Seq<DriverCall>> {
        if 0 <= at < self.steps.len() {
            match self.steps[at].on_failure {
                OnFailure::Abort => None,
                OnFailure::Surface => Some(Seq::empty()),
                OnFailure::Release(n) => Some(self.unwinding(n)),
            }
        } else {
            Some(Seq::empty())
        }
    }

    /// The requests that reach the driver when the plan is carried out:
    /// all of them where `refused` is `None`, else the steps up to the one
    /// at `refused`, which the driver refuses, and then what gives back
    /// what they acquired.
    pub open spec fn requests(self, refused: Option<int>) -> Seq<DriverCall> {
        match refused {
            None => self.calls(),
            Some(at) => self.calls().take(at + 1) + match self.recovery(at) {
                Some(release) => release,
                None => Seq::empty(),
            },
        }
    }

    /// A plan whose every step has the same failure mark and that releases nothing.
    pub open spec fn uniform(calls: Seq<DriverCall>, on_failure: OnFailure) -> PlanView {
        PlanView {
            steps: Seq::new(calls.len(), |i: int| Step { call: calls[i], on_failure }),
            release: Seq::empty(),
        }
    }
}

impl View for Plan {
    type V = PlanView;

    open spec fn view(&self) -> PlanView {
        PlanView { steps: self.steps@, release: self.release@ }
    }
}

impl Plan {
    /// The plan that asks nothing of the driver.
    pub fn empty() -> (plan: Plan)
        ensures
            plan@.steps == Seq::<Step>::empty(),
            plan@.release == Seq::<DriverCall>::empty(),
    {
        Plan { steps: Vec::new(), release: Vec::new() }
    }

    /// The requests to make when a step marked `OnFailure::Release(n)` fails.
    pub fn unwind(&self, n: usize) -> (calls: Vec<DriverCall>)
        ensures
            calls@ == self@.unwinding(n),
    {
        let len: usize = self.release.len();
        let mut i: usize = if n <= len {
            len - n
        } else {
            0
        };
        let ghost first = i;
        let mut calls: Vec<DriverCall> = Vec::new();
        while i < len
            invariant
                first <= i <= len,
                len == self.release@.len(),
                calls@ == self.release@.subrange(first as int, i as int),
            decreases len - i,
        {
            calls.push(self.release[i]);
            proof {
                assert(calls@ =~= self.release@.subrange(first as int, i + 1));
            }
            i += 1;
        }
        proof {
            assert(self.release@.subrange(0, len as int) =~= self.release@);
        }
        calls
    }

    /// What to do when the driver refuses the step at `at`: `None` where
    /// the program must stop, else the requests to make before the error
    /// is reported. A step that the plan does not have leaves nothing to do.
    pub fn recovery(&self, at: usize) -> (r: Option<Vec<DriverCall>>)
        ensures
            match r {
                Some(calls) => self@.recovery(at as int) == Some(calls@),
                None => self@.recovery(at as int) is None,
            },
    {
        if at >= self.steps.len() {
            return Some(Vec::new());
        }
        match self.steps[at].on_failure {
            OnFailure::Abort => None,
            OnFailure::Surface => Some(Vec::new()),
            OnFailure::Release(n) => Some(self.unwind(n)),
        }
    }

    /// Adds one request at the end of the plan.
    pub fn push(&mut self, call: DriverCall, on_failure: OnFailure)
        ensures
            final(self)@.steps == old(self)@.steps.push(Step { call, on_failure }),
            final(self)@.release == old(self)@.release,
    {
        self.steps.push(Step { call, on_failure });
    }
}

} // verus!
