//! The job executor: one job's one-way state machine.
//!
//! A job moves through `Provisioning -> Running -> Finalizing -> Releasing
//! -> Reporting`.  Provisioning failure and setup errors jump straight to
//! the terminal path; a failing or cancelled step skips finalizing.  The
//! workspace is always released before the report is handed out, whatever
//! the outcome.  The driver performs the outside work (make the directory,
//! spawn the process, remove the directory) and feeds the observations back
//! in; every decision in between is verified here.

use crate::job::{Job, command_resolved};
use crate::outcome::{
    ExecutionOutcome,
    FailReason,
    SetupFault,
    StepResult,
    spec_fail_reason,
    step_ok,
    fail_reason_for,
};
use crate::steps::{StepEvent, StepRun, lemma_short_circuit};
use crate::workspace::WorkspaceTag;
use vstd::prelude::*;

verus! {

/// The states of a job's execution, in the order they are passed.
#[derive(Clone, Copy, Debug, PartialEq, Eq, Structural)]
pub enum ExecPhase {
    /// Waiting for a workspace.
    Provisioning,
    /// Steps are being executed.
    Running,
    /// All steps passed; the outcome is being assembled.
    Finalizing,
    /// The outcome is decided; the workspace must still be released.
    Releasing,
    /// The workspace is settled; the report may be taken.
    Reporting,
}

/// The position of a phase along the one-way order of phases.
pub open spec fn phase_rank(p: ExecPhase) -> int {
    match p {
        ExecPhase::Provisioning => 0,
        ExecPhase::Running => 1,
        ExecPhase::Finalizing => 2,
        ExecPhase::Releasing => 3,
        ExecPhase::Reporting => 4,
    }
}

/// What a finished job reports: its identity, its terminal outcome, and the
/// recorded step results as the log transcript, in step order.
pub struct Report {
    pub job_id: u64,
    pub outcome: ExecutionOutcome,
    pub transcript: Vec<StepResult>,
}

/// The sum of the durations recorded in `s`, in milliseconds.
pub open spec fn spec_duration_sum(s: Seq<StepResult>) -> int
    decreases s.len(),
{
    if s.len() == 0 {
        0
    } else {
        spec_duration_sum(s.drop_last()) + s.last().duration_ms
    }
}

proof fn lemma_duration_sum_nonneg(s: Seq<StepResult>)
    ensures
        spec_duration_sum(s) >= 0,
    decreases s.len(),
{
    if s.len() > 0 {
        lemma_duration_sum_nonneg(s.drop_last());
    }
}

impl Report {
    /// The job's total duration: the sum of the recorded step durations,
    /// saturating at the largest representable value.
    pub fn total_duration_ms(&self) -> (d: u64)
        ensures
            spec_duration_sum(self.transcript@) <= u64::MAX ==> d == spec_duration_sum(
                self.transcript@,
            ),
            spec_duration_sum(self.transcript@) > u64::MAX ==> d == u64::MAX,
    {
        let n = self.transcript.len();
        let mut acc: u64 = 0;
        let mut i: usize = 0;
        while i < n
            invariant
                n == self.transcript@.len(),
                0 <= i <= n,
                spec_duration_sum(self.transcript@.take(i as int)) <= u64::MAX ==> acc
                    == spec_duration_sum(self.transcript@.take(i as int)),
                spec_duration_sum(self.transcript@.take(i as int)) > u64::MAX ==> acc == u64::MAX,
            decreases n - i,
        {
            let d = self.transcript[i].duration_ms;
            proof {
                let t = self.transcript@;
                assert(t.take(i + 1).drop_last() =~= t.take(i as int));
                assert(t.take(i + 1).last() == t[i as int]);
                lemma_duration_sum_nonneg(t.take(i as int));
            }
            if acc > u64::MAX - d {
                acc = u64::MAX;
            } else {
                acc = acc + d;
            }
            i += 1;
        }
        proof {
            assert(self.transcript@.take(n as int) =~= self.transcript@);
        }
        acc
    }
}

/// Drives one job from admission to its report.
pub struct JobExecutor {
    job: Job,
    phase: ExecPhase,
    run: Option<StepRun>,
    outcome: Option<ExecutionOutcome>,
    workspace: Option<WorkspaceTag>,
    released: bool,
}

impl JobExecutor {
    /// The job being executed, unchanged for the executor's lifetime.
    pub closed spec fn job(&self) -> Job {
        self.job
    }

    /// The current phase.
    pub closed spec fn phase(&self) -> ExecPhase {
        self.phase
    }

    /// The step run, once the job has one.
    pub closed spec fn step_run(&self) -> Option<StepRun> {
        self.run
    }

    /// The terminal outcome, once decided.
    pub closed spec fn outcome(&self) -> Option<ExecutionOutcome> {
        self.outcome
    }

    /// The workspace acquired for this job, if one was.
    pub closed spec fn workspace(&self) -> Option<WorkspaceTag> {
        self.workspace
    }

    /// Whether the acquired workspace has been released again.
    pub closed spec fn released(&self) -> bool {
        self.released
    }

    /// How many steps have been started on behalf of this job.
    pub open spec fn spawn_count(&self) -> int {
        match self.step_run() {
            Some(r) => r.started_count(),
            None => 0,
        }
    }

    /// Whether a started step's result is still outstanding.
    pub open spec fn awaiting_result(&self) -> bool {
        match self.step_run() {
            Some(r) => r.pending(),
            None => false,
        }
    }

    /// The executor's invariant: the run matches the job's resolved script,
    /// the outcome matches the run's verdict, a setup error precludes any
    /// run, and the workspace is released exactly once on the way out.
    pub closed spec fn wf(&self) -> bool {
        &&& self.released ==> self.workspace is Some
        &&& match self.run {
            Some(r) => {
                &&& r.wf()
                &&& r.steps().len() == self.job.script@.len()
                &&& forall|i: int|
                    0 <= i < self.job.script@.len() ==> command_resolved(
                        #[trigger] r.steps()[i],
                        self.job.script@[i],
                        self.job.vars_map(),
                    )
            },
            None => true,
        }
        &&& match self.outcome {
            None => true,
            Some(o) => match o {
                ExecutionOutcome::SetupError { .. } => self.run is None,
                _ => self.run matches Some(r) && r.halted() == self.outcome,
            },
        }
        &&& match self.phase {
            ExecPhase::Provisioning => self.workspace is None && !self.released && self.outcome
                is None && self.run is None,
            ExecPhase::Running => self.workspace is Some && !self.released && self.outcome is None
                && (self.run matches Some(r) && r.halted() is None),
            ExecPhase::Finalizing => self.workspace is Some && !self.released && self.outcome
                is None && (self.run matches Some(r) && r.halted() == Some(
                ExecutionOutcome::Success,
            )),
            ExecPhase::Releasing => self.workspace is Some && !self.released && self.outcome
                is Some,
            ExecPhase::Reporting => self.outcome is Some && self.released == (self.workspace
                is Some),
        }
    }

    /// Takes ownership of a job; nothing has happened yet.
    pub fn new(job: Job) -> (e: Self)
        ensures
            e.wf(),
            e.phase() == ExecPhase::Provisioning,
            e.job() == job,
            e.spawn_count() == 0,
            e.workspace() is None,
            !e.released(),
    {
        JobExecutor {
            job,
            phase: ExecPhase::Provisioning,
            run: None,
            outcome: None,
            workspace: None,
            released: false,
        }
    }

    /// A workspace was acquired.  Resolves the script: a missing variable is
    /// a setup error decided here, before any step can start; otherwise the
    /// job starts running its resolved script.
    pub fn on_workspace_ready(&mut self, tag: WorkspaceTag)
        requires
            old(self).wf(),
            old(self).phase() == ExecPhase::Provisioning,
        ensures
            final(self).wf(),
            final(self).job() == old(self).job(),
            final(self).workspace() == Some(tag),
            !final(self).released(),
            final(self).spawn_count() == 0,
            phase_rank(final(self).phase()) >= phase_rank(old(self).phase()),
            match old(self).job().missing_var() {
                Some(name) => {
                    &&& final(self).phase() == ExecPhase::Releasing
                    &&& final(self).outcome() matches Some(
                        ExecutionOutcome::SetupError { fault },
                    ) && fault matches SetupFault::MissingVariable { name: n } && n@ == name
                    &&& final(self).step_run() is None
                },
                None => {
                    &&& final(self).phase() == ExecPhase::Running
                    &&& final(self).outcome() is None
                    &&& final(self).step_run() matches Some(r) && r.results()
                        == Seq::<StepResult>::empty() && r.halted() is None && r.events()
                        == Seq::<StepEvent>::empty()
                },
            },
    {
        self.workspace = Some(tag);
        match self.job.resolve_script() {
            Ok(cmds) => {
                self.run = Some(StepRun::new(cmds));
                self.phase = ExecPhase::Running;
            },
            Err(name) => {
                self.outcome = Some(
                    ExecutionOutcome::SetupError { fault: SetupFault::MissingVariable { name } },
                );
                self.phase = ExecPhase::Releasing;
            },
        }
    }

    /// No workspace could be acquired: a setup error, fatal to this job
    /// only.  Nothing was acquired, so nothing is to release.
    pub fn on_workspace_failed(&mut self)
        requires
            old(self).wf(),
            old(self).phase() == ExecPhase::Provisioning,
        ensures
            final(self).wf(),
            final(self).job() == old(self).job(),
            final(self).phase() == ExecPhase::Reporting,
            final(self).outcome() == Some(
                ExecutionOutcome::SetupError { fault: SetupFault::WorkspaceUnavailable },
            ),
            final(self).spawn_count() == 0,
            final(self).workspace() is None,
            !final(self).released(),
            phase_rank(final(self).phase()) >= phase_rank(old(self).phase()),
    {
        self.outcome = Some(ExecutionOutcome::SetupError { fault: SetupFault::WorkspaceUnavailable });
        self.phase = ExecPhase::Reporting;
    }

    /// Hands out the next step to start, in declared order; after the last
    /// step has passed the job moves on to finalizing instead.
    pub fn poll_step(&mut self) -> (r: Option<usize>)
        requires
            old(self).wf(),
            old(self).phase() == ExecPhase::Running,
            !old(self).awaiting_result(),
        ensures
            final(self).wf(),
            final(self).job() == old(self).job(),
            final(self).workspace() == old(self).workspace(),
            final(self).released() == old(self).released(),
            phase_rank(final(self).phase()) >= phase_rank(old(self).phase()),
            match r {
                Some(i) => {
                    &&& i == old(self).step_run().unwrap().results().len()
                    &&& i < old(self).job().script@.len()
                    &&& final(self).phase() == ExecPhase::Running
                    &&& final(self).outcome() is None
                    &&& final(self).awaiting_result()
                    &&& final(self).spawn_count() == old(self).spawn_count() + 1
                    &&& final(self).step_run() matches Some(run) && run.results() == old(
                        self,
                    ).step_run().unwrap().results() && run.events() == old(
                        self,
                    ).step_run().unwrap().events().push(StepEvent::Started { index: i })
                },
                None => {
                    &&& old(self).step_run().unwrap().results().len() == old(
                        self,
                    ).job().script@.len()
                    &&& final(self).phase() == ExecPhase::Finalizing
                    &&& final(self).outcome() is None
                    &&& final(self).spawn_count() == old(self).spawn_count()
                    &&& final(self).step_run() matches Some(run) && run.results() == old(
                        self,
                    ).step_run().unwrap().results() && run.events() == old(
                        self,
                    ).step_run().unwrap().events()
                },
            },
    {
        let mut run = self.run.take().unwrap();
        let r = run.next_step();
        match r {
            Some(i) => {
                self.run = Some(run);
                Some(i)
            },
            None => {
                self.run = Some(run);
                self.phase = ExecPhase::Finalizing;
                None
            },
        }
    }

    /// The command of step `i`: the declared command with the job's
    /// variables substituted.
    pub fn step_command(&self, i: usize) -> (c: &Vec<String>)
        requires
            self.wf(),
            self.step_run() is Some,
            i < self.job().script@.len(),
        ensures
            *c == self.step_run().unwrap().steps()[i as int],
            command_resolved(*c, self.job().script@[i as int], self.job().vars_map()),
    {
        self.run.as_ref().unwrap().command(i)
    }

    /// Records what the driver observed for the step most recently started.
    /// A failing step decides the outcome at once; no later step will run.
    pub fn on_step_result(&mut self, r: StepResult)
        requires
            old(self).wf(),
            old(self).phase() == ExecPhase::Running,
            old(self).awaiting_result(),
        ensures
            final(self).wf(),
            final(self).job() == old(self).job(),
            final(self).workspace() == old(self).workspace(),
            final(self).released() == old(self).released(),
            final(self).spawn_count() == old(self).spawn_count(),
            !final(self).awaiting_result(),
            phase_rank(final(self).phase()) >= phase_rank(old(self).phase()),
            final(self).step_run() matches Some(run) && run.results() == old(
                self,
            ).step_run().unwrap().results().push(r) && run.events() == old(
                self,
            ).step_run().unwrap().events().push(
                StepEvent::Finished {
                    index: old(self).step_run().unwrap().results().len() as usize,
                },
            ),
            step_ok(r) ==> final(self).phase() == ExecPhase::Running && final(self).outcome()
                is None,
            !step_ok(r) ==> final(self).phase() == ExecPhase::Releasing && final(self).outcome()
                == Some(
                ExecutionOutcome::Failed {
                    index: old(self).step_run().unwrap().results().len() as usize,
                    reason: spec_fail_reason(r.status),
                },
            ),
    {
        let mut run = self.run.take().unwrap();
        let i = run.result_count();
        let st = r.status;
        let failed = run.record_result(r);
        self.run = Some(run);
        if failed {
            self.outcome = Some(
                ExecutionOutcome::Failed { index: i, reason: fail_reason_for(&st) },
            );
            self.phase = ExecPhase::Releasing;
        }
    }

    /// Cancels a running job: the outcome is `Canceled`, the cleanup path
    /// is still taken, and the caller is told whether a child process is in
    /// flight and must be terminated.  No other executor is touched.
    pub fn cancel(&mut self) -> (kill: bool)
        requires
            old(self).wf(),
            old(self).phase() == ExecPhase::Running,
        ensures
            final(self).wf(),
            final(self).job() == old(self).job(),
            final(self).workspace() == old(self).workspace(),
            final(self).released() == old(self).released(),
            final(self).spawn_count() == old(self).spawn_count(),
            final(self).phase() == ExecPhase::Releasing,
            final(self).outcome() == Some(ExecutionOutcome::Canceled),
            kill == old(self).awaiting_result(),
            phase_rank(final(self).phase()) >= phase_rank(old(self).phase()),
            final(self).step_run() matches Some(run) && run.results() == old(
                self,
            ).step_run().unwrap().results() && run.events() == old(self).step_run().unwrap().events(),
    {
        let mut run = self.run.take().unwrap();
        let kill = run.cancel();
        self.run = Some(run);
        self.outcome = Some(ExecutionOutcome::Canceled);
        self.phase = ExecPhase::Releasing;
        kill
    }

    /// Every step passed: the outcome becomes `Success` and the job moves
    /// on to releasing its workspace.
    pub fn finalize(&mut self)
        requires
            old(self).wf(),
            old(self).phase() == ExecPhase::Finalizing,
        ensures
            final(self).wf(),
            final(self).job() == old(self).job(),
            final(self).workspace() == old(self).workspace(),
            final(self).released() == old(self).released(),
            final(self).spawn_count() == old(self).spawn_count(),
            final(self).phase() == ExecPhase::Releasing,
            final(self).outcome() == Some(ExecutionOutcome::Success),
            phase_rank(final(self).phase()) >= phase_rank(old(self).phase()),
            final(self).step_run() == old(self).step_run(),
    {
        self.outcome = Some(ExecutionOutcome::Success);
        self.phase = ExecPhase::Releasing;
    }

    /// The workspace was removed — or its removal failed, which is a
    /// cleanup warning only: either way the job is settled and its outcome
    /// stands unchanged.
    pub fn on_released(&mut self)
        requires
            old(self).wf(),
            old(self).phase() == ExecPhase::Releasing,
        ensures
            final(self).wf(),
            final(self).job() == old(self).job(),
            final(self).workspace() == old(self).workspace(),
            final(self).released(),
            final(self).phase() == ExecPhase::Reporting,
            final(self).outcome() == old(self).outcome(),
            final(self).spawn_count() == old(self).spawn_count(),
            final(self).step_run() == old(self).step_run(),
            phase_rank(final(self).phase()) >= phase_rank(old(self).phase()),
    {
        self.released = true;
        self.phase = ExecPhase::Reporting;
    }

    /// Hands out the report, exactly once: taking it consumes the executor.
    /// Reachable only after the workspace question is settled.
    pub fn into_report(self) -> (r: Report)
        requires
            self.wf(),
            self.phase() == ExecPhase::Reporting,
        ensures
            r.job_id == self.job().id,
            Some(r.outcome) == self.outcome(),
            r.transcript@ == (match self.step_run() {
                Some(run) => run.results(),
                None => Seq::<StepResult>::empty(),
            }),
    {
        let JobExecutor { job, run, outcome, .. } = self;
        let transcript = match run {
            Some(rn) => rn.into_results(),
            None => Vec::new(),
        };
        Report { job_id: job.id, outcome: outcome.unwrap(), transcript }
    }

    /// The current phase, for the driver.
    pub fn phase_now(&self) -> (p: ExecPhase)
        ensures
            p == self.phase(),
    {
        self.phase
    }

    /// The acquired workspace, for the driver that must create and remove
    /// the directory it names.
    pub fn current_workspace(&self) -> (w: Option<WorkspaceTag>)
        ensures
            w == self.workspace(),
    {
        self.workspace
    }

    /// The job under execution.
    pub fn job_ref(&self) -> (j: &Job)
        ensures
            *j == self.job(),
    {
        &self.job
    }

    /// How many steps have been started on behalf of this job.
    pub fn started_steps(&self) -> (n: usize)
        requires
            self.wf(),
        ensures
            n == self.spawn_count(),
    {
        match &self.run {
            Some(r) => {
                let n = r.result_count();
                if r.has_pending() {
                    proof {
                        r.lemma_wf_bounds();
                        assert(self.job.script@.len() == self.job.script.len());
                    }
                    n + 1
                } else {
                    n
                }
            },
            None => 0,
        }
    }
}

/// Pairing of acquisition and release: by the time a job may report — and
/// so by the time it has reported — the workspace was released exactly when
/// one was acquired, whatever the outcome was.
pub proof fn lemma_acquire_release_paired(e: JobExecutor)
    requires
        e.wf(),
        e.phase() == ExecPhase::Reporting,
    ensures
        e.released() == (e.workspace() is Some),
{
}

/// A setup error precludes execution: an executor whose outcome is a setup
/// error — a missing variable or an unavailable workspace — has started
/// zero steps.
pub proof fn lemma_setup_error_spawns_nothing(e: JobExecutor)
    requires
        e.wf(),
        e.outcome() matches Some(ExecutionOutcome::SetupError { .. }),
    ensures
        e.spawn_count() == 0,
{
}

/// The step run of a well-formed executor is well-formed itself, so the
/// step-ordering lemmas apply to it as it stands at any point.
pub proof fn lemma_step_run_wf(e: JobExecutor)
    requires
        e.wf(),
        e.step_run() is Some,
    ensures
        e.step_run().unwrap().wf(),
{
}

/// Short-circuit at the job level: when a job's outcome says step `index`
/// failed, no step with a higher index was ever started on its behalf.
pub proof fn lemma_failed_job_short_circuits(e: JobExecutor, index: usize, reason: FailReason)
    requires
        e.wf(),
        e.outcome() == Some(ExecutionOutcome::Failed { index, reason }),
    ensures
        e.step_run() matches Some(r) && forall|k: int|
            0 <= k < r.events().len() && (#[trigger] r.events()[k]) is Started
                ==> r.events()[k]->Started_index <= index,
{
    lemma_short_circuit(e.step_run().unwrap(), index, reason);
}

} // verus!
