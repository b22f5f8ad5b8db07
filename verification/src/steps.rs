//! The step runner: executes a resolved script one command at a time, in
//! order, stopping at the first failure or at cancellation.
//!
//! The runner itself never spawns a process.  It hands out the index of the
//! next command to start and consumes the result the driver observed, so
//! every decision — which step runs next, when the run halts — is verified
//! here, whatever the driver does with the commands.

use crate::outcome::{
    ExecutionOutcome,
    FailReason,
    StepResult,
    spec_fail_reason,
    status_passes,
    fail_reason_for,
    step_ok,
};
use vstd::prelude::*;

verus! {

/// One entry of a run's recorded timeline: step `index` was started, or its
/// result became known.
pub enum StepEvent {
    Started { index: usize },
    Finished { index: usize },
}

/// A timeline alternates strictly: step 0 starts, step 0 finishes, step 1
/// starts, and so on.  Every prefix of such a sequence is one too.
pub open spec fn timeline_ok(t: Seq<StepEvent>) -> bool {
    forall|k: int|
        0 <= k < t.len() ==> #[trigger] t[k] == (if k % 2 == 0 {
            StepEvent::Started { index: (k / 2) as usize }
        } else {
            StepEvent::Finished { index: (k / 2) as usize }
        })
}

/// The in-order execution of one job's resolved script.
pub struct StepRun {
    steps: Vec<Vec<String>>,
    results: Vec<StepResult>,
    pending: bool,
    halted: Option<ExecutionOutcome>,
    timeline: Ghost<Seq<StepEvent>>,
}

impl StepRun {
    /// The resolved commands, in declared order.
    pub closed spec fn steps(&self) -> Seq<Vec<String>> {
        self.steps@
    }

    /// The results recorded so far, in step order.
    pub closed spec fn results(&self) -> Seq<StepResult> {
        self.results@
    }

    /// Whether a step has been started whose result is not yet known.
    pub closed spec fn pending(&self) -> bool {
        self.pending
    }

    /// The run's verdict, once it has one; `None` while steps may still run.
    pub closed spec fn halted(&self) -> Option<ExecutionOutcome> {
        self.halted
    }

    /// The recorded timeline of start and finish events.
    pub closed spec fn events(&self) -> Seq<StepEvent> {
        self.timeline@
    }

    /// How many steps have been started.
    pub open spec fn started_count(&self) -> int {
        self.results().len() + if self.pending() {
            1int
        } else {
            0int
        }
    }

    /// The runner's invariant: results are a prefix of the script, the
    /// timeline alternates in order, every recorded result before a halt
    /// passed, and a halt describes the results exactly.
    pub closed spec fn wf(&self) -> bool {
        &&& self.results@.len() <= self.steps@.len()
        &&& timeline_ok(self.timeline@)
        &&& self.timeline@.len() == 2 * self.results@.len() + if self.pending {
            1int
        } else {
            0int
        }
        &&& self.pending ==> self.results@.len() < self.steps@.len()
        &&& match self.halted {
            None => forall|k: int| 0 <= k < self.results@.len() ==> step_ok(#[trigger] self.results@[k]),
            Some(o) => match o {
                ExecutionOutcome::Success => !self.pending && self.results@.len()
                    == self.steps@.len() && forall|k: int|
                    0 <= k < self.results@.len() ==> step_ok(#[trigger] self.results@[k]),
                ExecutionOutcome::Failed { index, reason } => !self.pending && index + 1
                    == self.results@.len() && !step_ok(self.results@[index as int]) && reason
                    == spec_fail_reason(self.results@[index as int].status) && forall|k: int|
                    0 <= k < index ==> step_ok(#[trigger] self.results@[k]),
                ExecutionOutcome::Canceled => forall|k: int|
                    0 <= k < self.results@.len() ==> step_ok(#[trigger] self.results@[k]),
                ExecutionOutcome::SetupError { .. } => false,
            },
        }
    }

    /// Starts a run over a resolved script; nothing has happened yet.
    pub fn new(steps: Vec<Vec<String>>) -> (r: Self)
        ensures
            r.wf(),
            r.steps() == steps@,
            r.results() == Seq::<StepResult>::empty(),
            !r.pending(),
            r.halted() is None,
            r.events() == Seq::<StepEvent>::empty(),
    {
        StepRun {
            steps,
            results: Vec::new(),
            pending: false,
            halted: None,
            timeline: Ghost(Seq::empty()),
        }
    }

    /// Hands out the next step to start, in declared order; when every step
    /// has passed, halts the run with `Success` instead.
    pub fn next_step(&mut self) -> (r: Option<usize>)
        requires
            old(self).wf(),
            old(self).halted() is None,
            !old(self).pending(),
        ensures
            final(self).wf(),
            final(self).steps() == old(self).steps(),
            final(self).results() == old(self).results(),
            match r {
                Some(i) => {
                    &&& i == old(self).results().len()
                    &&& i < old(self).steps().len()
                    &&& final(self).pending()
                    &&& final(self).halted() is None
                    &&& final(self).events() == old(self).events().push(
                        StepEvent::Started { index: i },
                    )
                },
                None => {
                    &&& old(self).results().len() == old(self).steps().len()
                    &&& !final(self).pending()
                    &&& final(self).halted() == Some(ExecutionOutcome::Success)
                    &&& final(self).events() == old(self).events()
                },
            },
    {
        if self.results.len() < self.steps.len() {
            let i = self.results.len();
            self.pending = true;
            self.timeline = Ghost(self.timeline@.push(StepEvent::Started { index: i }));
            Some(i)
        } else {
            self.halted = Some(ExecutionOutcome::Success);
            None
        }
    }

    /// Records the result of the step most recently started.  A failing
    /// result halts the run; no later step will be handed out.
    pub fn record_result(&mut self, r: StepResult) -> (halted_now: bool)
        requires
            old(self).wf(),
            old(self).halted() is None,
            old(self).pending(),
        ensures
            final(self).wf(),
            final(self).steps() == old(self).steps(),
            final(self).results() == old(self).results().push(r),
            !final(self).pending(),
            final(self).events() == old(self).events().push(
                StepEvent::Finished { index: old(self).results().len() as usize },
            ),
            halted_now == !step_ok(r),
            step_ok(r) ==> final(self).halted() is None,
            !step_ok(r) ==> final(self).halted() == Some(
                ExecutionOutcome::Failed {
                    index: old(self).results().len() as usize,
                    reason: spec_fail_reason(r.status),
                },
            ),
    {
        let i = self.results.len();
        let ok = status_passes(&r.status);
        let reason = fail_reason_for(&r.status);
        self.timeline = Ghost(self.timeline@.push(StepEvent::Finished { index: i }));
        self.results.push(r);
        self.pending = false;
        if ok {
            false
        } else {
            self.halted = Some(ExecutionOutcome::Failed { index: i, reason });
            true
        }
    }

    /// Cancels the run.  Tells the caller whether a child process is in
    /// flight and must be terminated.
    pub fn cancel(&mut self) -> (kill: bool)
        requires
            old(self).wf(),
            old(self).halted() is None,
        ensures
            final(self).wf(),
            final(self).steps() == old(self).steps(),
            final(self).results() == old(self).results(),
            final(self).pending() == old(self).pending(),
            final(self).events() == old(self).events(),
            final(self).halted() == Some(ExecutionOutcome::Canceled),
            kill == old(self).pending(),
    {
        self.halted = Some(ExecutionOutcome::Canceled);
        self.pending
    }

    /// The command of step `i`.
    pub fn command(&self, i: usize) -> (c: &Vec<String>)
        requires
            i < self.steps().len(),
        ensures
            *c == self.steps()[i as int],
    {
        &self.steps[i]
    }

    /// Bounds that the invariant keeps: results are a prefix of the steps,
    /// strictly so while one is outstanding, and the timeline records two
    /// events per result plus the outstanding start.
    pub proof fn lemma_wf_bounds(&self)
        requires
            self.wf(),
        ensures
            self.results().len() <= self.steps().len(),
            self.pending() ==> self.results().len() < self.steps().len(),
            self.events().len() == 2 * self.results().len() + if self.pending() {
                1int
            } else {
                0int
            },
    {
    }

    /// Whether a started step's result is still outstanding.
    pub fn has_pending(&self) -> (b: bool)
        ensures
            b == self.pending(),
    {
        self.pending
    }

    /// How many results have been recorded.
    pub fn result_count(&self) -> (n: usize)
        ensures
            n == self.results().len(),
    {
        self.results.len()
    }

    /// Gives up the run and hands back the recorded results, in step order.
    pub fn into_results(self) -> (v: Vec<StepResult>)
        ensures
            v@ == self.results(),
    {
        self.results
    }
}

/// Steps run strictly in declared order: every start event stands at twice
/// its step index, of two start events the earlier starts the lower index,
/// and a step other than the first starts only after the previous step's
/// result was recorded earlier in the timeline.
pub proof fn lemma_steps_sequential(run: StepRun)
    requires
        run.wf(),
    ensures
        forall|k: int|
            0 <= k < run.events().len() && (#[trigger] run.events()[k]) is Started ==> k == 2 * (
            run.events()[k]->Started_index as int),
        forall|k1: int, k2: int|
            0 <= k1 < k2 < run.events().len() && (#[trigger] run.events()[k1]) is Started && (
            #[trigger] run.events()[k2]) is Started ==> (run.events()[k1]->Started_index as int) < (
            run.events()[k2]->Started_index as int),
        forall|k: int|
            0 <= k < run.events().len() && (#[trigger] run.events()[k]) is Started
                && run.events()[k]->Started_index as int > 0 ==> 0 <= 2 * (
            run.events()[k]->Started_index as int) - 1 < k && run.events()[2 * (
            run.events()[k]->Started_index as int) - 1] == (StepEvent::Finished {
                index: (run.events()[k]->Started_index - 1) as usize,
            }),
{
    let t = run.events();
    assert(run.results@.len() == run.results.len());
    assert forall|k: int| 0 <= k < t.len() && (#[trigger] t[k]) is Started implies k == 2 * (
    t[k]->Started_index as int) by {
        assert(t[k] == (if k % 2 == 0 {
            StepEvent::Started { index: (k / 2) as usize }
        } else {
            StepEvent::Finished { index: (k / 2) as usize }
        }));
        assert(k % 2 == 0);
        assert(0 <= k / 2 <= run.results@.len());
        assert(t[k]->Started_index as int == k / 2);
    }
    assert forall|k: int|
        0 <= k < t.len() && (#[trigger] t[k]) is Started && t[k]->Started_index as int
            > 0 implies 0 <= 2 * (t[k]->Started_index as int) - 1 < k && t[2 * (
    t[k]->Started_index as int) - 1] == (StepEvent::Finished {
        index: (t[k]->Started_index - 1) as usize,
    }) by {
        let i = t[k]->Started_index as int;
        assert(k == 2 * i);
        assert(t[k - 1] == (if (k - 1) % 2 == 0 {
            StepEvent::Started { index: ((k - 1) / 2) as usize }
        } else {
            StepEvent::Finished { index: ((k - 1) / 2) as usize }
        }));
        assert((k - 1) % 2 == 1);
        assert((k - 1) / 2 == i - 1);
    }
}

/// Short-circuit: once step `index` has failed, no step with a higher index
/// has been started; the run is halted, so none ever will be.
pub proof fn lemma_short_circuit(run: StepRun, index: usize, reason: FailReason)
    requires
        run.wf(),
        run.halted() == Some(ExecutionOutcome::Failed { index, reason }),
    ensures
        forall|k: int|
            0 <= k < run.events().len() && (#[trigger] run.events()[k]) is Started ==> run.events(
            )[k]->Started_index <= index,
{
    let t = run.events();
    lemma_steps_sequential(run);
    assert forall|k: int| 0 <= k < t.len() && (#[trigger] t[k]) is Started implies
        t[k]->Started_index <= index by {
        let i = t[k]->Started_index as int;
        assert(k == 2 * i);
        assert(t.len() == 2 * (index + 1));
    }
}

} // verus!
