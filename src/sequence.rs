use vstd::prelude::*;
use crate::os_call::{ensure_success, OsCall, OsError, Step};

verus! {

/// The result of an operation whose steps reported `results`, one per step
/// attempted, in order: the first failed required step names the error.
pub open spec fn outcome(steps: Seq<Step>, results: Seq<bool>) -> Result<(), OsError>
    decreases results.len(),
{
    if results.len() == 0 {
        Ok(())
    } else {
        let i = results.len() - 1;
        match outcome(steps, results.drop_last()) {
            Err(e) => Err(e),
            Ok(()) => if !results[i] && steps[i].on_failure is Some {
                Err(OsError { primitive: steps[i].on_failure->Some_0 })
            } else {
                Ok(())
            },
        }
    }
}

/// A sequence of operating-system calls run one at a time by the host: the
/// host asks for the next call, performs it and reports whether it
/// succeeded. The first failed required step ends the sequence; earlier steps
/// are not rolled back.
pub struct CallSequence {
    steps: Vec<Step>,
    next: usize,
    error: Option<OsError>,
    results: Ghost<Seq<bool>>,
}

impl CallSequence {
    /// The planned steps.
    pub closed spec fn steps(&self) -> Seq<Step> {
        self.steps@
    }

    /// The success flags reported so far, one per attempted step.
    pub closed spec fn results(&self) -> Seq<bool> {
        self.results@
    }

    pub closed spec fn wf(&self) -> bool {
        &&& self.next == self.results@.len()
        &&& self.next <= self.steps@.len()
        &&& self.error == match outcome(self.steps@, self.results@) {
            Ok(()) => None::<OsError>,
            Err(e) => Some(e),
        }
    }

    /// No call is left to make: every step ran, or a required one failed.
    pub open spec fn done(&self) -> bool {
        self.results().len() == self.steps().len() || outcome(self.steps(), self.results()) is Err
    }

    /// Starts a run of `steps`.
    pub fn new(steps: Vec<Step>) -> (r: CallSequence)
        ensures
            r.wf(),
            r.steps() == steps@,
            r.results() == Seq::<bool>::empty(),
    {
        CallSequence { steps, next: 0, error: None, results: Ghost(Seq::empty()) }
    }

    /// Whether no call is left to make.
    pub fn is_done(&self) -> (r: bool)
        requires
            self.wf(),
        ensures
            r == self.done(),
    {
        self.error.is_some() || self.next == self.steps.len()
    }

    /// The call the host has to make next, if any.
    pub fn next_call(&self) -> (r: Option<OsCall>)
        requires
            self.wf(),
        ensures
            self.done() ==> r is None,
            !self.done() ==> r == Some(self.steps()[self.results().len() as int].call),
    {
        if self.error.is_some() || self.next == self.steps.len() {
            None
        } else {
            Some(self.steps[self.next].call)
        }
    }

    /// Records whether the call given by `next_call` succeeded.
    pub fn report(&mut self, ok: bool)
        requires
            old(self).wf(),
            !old(self).done(),
        ensures
            final(self).wf(),
            final(self).steps() == old(self).steps(),
            final(self).results() == old(self).results().push(ok),
    {
        let ghost before = self.results@;
        let n = self.next;
        assert(n < self.steps.len());
        let step = self.steps[n];
        self.results = Ghost(self.results@.push(ok));
        assert(self.results@.drop_last() == before);
        match step.on_failure {
            Some(p) => {
                let flag: i32 = if ok { 1 } else { 0 };
                if let Err(e) = ensure_success(flag, p) {
                    self.error = Some(e);
                }
            },
            None => {},
        }
        self.next = n + 1;
    }

    /// The result of the run so far: the error of the first failed required
    /// step, or success.
    pub fn finish(&self) -> (r: Result<(), OsError>)
        requires
            self.wf(),
        ensures
            r == outcome(self.steps(), self.results()),
    {
        match self.error {
            Some(e) => Err(e),
            None => Ok(()),
        }
    }
}

/// A run in which every call succeeded ends in success.
pub proof fn lemma_all_succeed(steps: Seq<Step>, results: Seq<bool>)
    requires
        forall|i: int| 0 <= i < results.len() ==> results[i],
    ensures
        outcome(steps, results) is Ok,
    decreases results.len(),
{
    if results.len() > 0 {
        lemma_all_succeed(steps, results.drop_last());
    }
}

/// A failed best-effort step never fails the run: an error always names a
/// required step that was reported as failed.
pub proof fn lemma_error_names_failed_required_step(steps: Seq<Step>, results: Seq<bool>)
    requires
        results.len() <= steps.len(),
        outcome(steps, results) is Err,
    ensures
        exists|i: int|
            0 <= i < results.len() && !results[i] && #[trigger] steps[i].on_failure
                == Some(outcome(steps, results)->Err_0.primitive),
    decreases results.len(),
{
    let i = results.len() - 1;
    if outcome(steps, results.drop_last()) is Err {
        lemma_error_names_failed_required_step(steps, results.drop_last());
        let j = choose|j: int|
            0 <= j < results.drop_last().len() && !results.drop_last()[j] && #[trigger] steps[j].on_failure
                == Some(outcome(steps, results.drop_last())->Err_0.primitive);
        assert(results[j] == results.drop_last()[j]);
    } else {
        assert(steps[i].on_failure == Some(outcome(steps, results)->Err_0.primitive));
    }
}

} // verus!
