//! The worker pool: bounded-concurrency dispatch of jobs to executors.
//!
//! The pool is the one admission point.  It owns every in-flight executor,
//! takes a new job only into a free slot, and frees the slot exactly when
//! the job's report is collected — so the number of jobs between admission
//! and their terminal report never exceeds the configured ceiling.  Events
//! are applied to one job at a time and leave every sibling untouched.
//! A failing poll of the job source is only ever retried: it never becomes
//! a job's outcome and never stops the pool.

use crate::executor::{ExecPhase, JobExecutor, Report, phase_rank};
use crate::job::Job;
use crate::outcome::{ExecutionOutcome, SetupFault, StepResult, spec_fail_reason, step_ok};
use crate::workspace::WorkspaceTag;
use vstd::prelude::*;

verus! {

/// What one poll of the job source yielded.
pub enum SourceResponse {
    /// A job to execute.
    Available { job: Job },
    /// No job is waiting right now.
    Empty,
    /// The source could not be reached; the poll — and only the poll —
    /// failed.
    TransientError,
}

/// What the pool does next after a poll.  No directive stops the pool.
#[derive(Debug)]
pub enum PoolDirective {
    /// Hand the job to a fresh executor on a free slot.
    Dispatch { job: Job },
    /// Nothing is waiting; ask again when the source may have work.
    WaitForJob,
    /// The poll failed; retry it and keep the pool running.
    RetryPoll,
}

/// An observation or command the driver feeds to one in-flight job.
pub enum JobEvent {
    /// The job's workspace was created.
    WorkspaceReady { tag: WorkspaceTag },
    /// The job's workspace could not be created.
    WorkspaceFailed,
    /// Ask for the next step to start.
    PollStep,
    /// The started step's process ended as recorded.
    StepFinished { result: StepResult },
    /// Cancel the job.
    Cancel,
    /// Assemble the successful outcome after the last step passed.
    Finalize,
    /// The workspace was removed — or removal failed, a warning only.
    Released,
}

/// What the driver must do right after an event was applied to a job.
#[derive(Clone, Copy, Debug, PartialEq, Eq, Structural)]
pub enum DriverTask {
    /// Spawn the job's command of step `index` in the job's workspace.
    StartStep { index: usize },
    /// Terminate the job's active child process.
    KillProcess,
    /// Nothing; the job's next need shows in its phase.
    Nothing,
}

/// Which events the executor `e` can take in its current phase.
pub open spec fn event_fits(e: JobExecutor, ev: JobEvent) -> bool {
    match ev {
        JobEvent::WorkspaceReady { .. } => e.phase() == ExecPhase::Provisioning,
        JobEvent::WorkspaceFailed => e.phase() == ExecPhase::Provisioning,
        JobEvent::PollStep => e.phase() == ExecPhase::Running && !e.awaiting_result(),
        JobEvent::StepFinished { .. } => e.phase() == ExecPhase::Running && e.awaiting_result(),
        JobEvent::Cancel => e.phase() == ExecPhase::Running,
        JobEvent::Finalize => e.phase() == ExecPhase::Finalizing,
        JobEvent::Released => e.phase() == ExecPhase::Releasing,
    }
}

/// The bounded worker pool: it owns the executors of every job between
/// admission and report, at most `capacity` of them at once.
pub struct WorkerPool {
    capacity: usize,
    jobs: Vec<JobExecutor>,
    admitted: u64,
    completed: u64,
}

impl WorkerPool {
    /// The configured concurrency ceiling.
    pub closed spec fn capacity(&self) -> int {
        self.capacity as int
    }

    /// The executors of the jobs in flight, in admission order.
    pub closed spec fn executors(&self) -> Seq<JobExecutor> {
        self.jobs@
    }

    /// How many jobs have ever been admitted.
    pub closed spec fn admitted(&self) -> int {
        self.admitted as int
    }

    /// How many jobs have reached their report.
    pub closed spec fn completed(&self) -> int {
        self.completed as int
    }

    /// The pool's invariant: the ceiling is at least one and holds over the
    /// jobs in flight, every in-flight executor is well-formed, and every
    /// job ever admitted is either in flight or completed.
    pub closed spec fn wf(&self) -> bool {
        &&& 1 <= self.capacity
        &&& self.jobs@.len() <= self.capacity
        &&& forall|j: int| 0 <= j < self.jobs@.len() ==> (#[trigger] self.jobs@[j]).wf()
        &&& self.admitted == self.completed + self.jobs@.len()
    }

    /// A pool with `capacity` slots, none taken.
    pub fn new(capacity: usize) -> (p: Self)
        requires
            capacity >= 1,
        ensures
            p.wf(),
            p.capacity() == capacity,
            p.executors() == Seq::<JobExecutor>::empty(),
            p.admitted() == 0,
            p.completed() == 0,
    {
        WorkerPool { capacity, jobs: Vec::new(), admitted: 0, completed: 0 }
    }

    /// Whether a slot is free.  While none is, the pool must not poll for
    /// new jobs: that is the backpressure on the source.
    pub fn has_slot(&self) -> (b: bool)
        ensures
            b == (self.executors().len() < self.capacity()),
    {
        self.jobs.len() < self.capacity
    }

    /// The number of jobs in flight.
    pub fn in_flight(&self) -> (n: usize)
        ensures
            n == self.executors().len(),
    {
        self.jobs.len()
    }

    /// The number of jobs whose report has been collected.
    pub fn done_count(&self) -> (n: u64)
        ensures
            n == self.completed(),
    {
        self.completed
    }

    /// The executor of the job in slot `i`, for the driver to read.
    pub fn job_at(&self, i: usize) -> (e: &JobExecutor)
        requires
            i < self.executors().len(),
        ensures
            *e == self.executors()[i as int],
    {
        &self.jobs[i]
    }

    /// Takes one job into a free slot: a fresh executor, owning the job,
    /// with nothing acquired and nothing started.  Every sibling keeps its
    /// slot and its state.
    pub fn accept(&mut self, job: Job) -> (i: usize)
        requires
            old(self).wf(),
            old(self).executors().len() < old(self).capacity(),
            old(self).admitted() < u64::MAX,
        ensures
            final(self).wf(),
            final(self).capacity() == old(self).capacity(),
            final(self).admitted() == old(self).admitted() + 1,
            final(self).completed() == old(self).completed(),
            i == old(self).executors().len(),
            final(self).executors().len() == old(self).executors().len() + 1,
            forall|j: int|
                0 <= j < old(self).executors().len() ==> final(self).executors()[j] == old(
                    self,
                ).executors()[j],
            final(self).executors()[i as int].phase() == ExecPhase::Provisioning,
            final(self).executors()[i as int].job() == job,
            final(self).executors()[i as int].spawn_count() == 0,
            final(self).executors()[i as int].workspace() is None,
            !final(self).executors()[i as int].released(),
    {
        let i = self.jobs.len();
        self.jobs.push(JobExecutor::new(job));
        self.admitted = self.admitted + 1;
        i
    }

    /// Applies one event to the job in slot `i` and says what the driver
    /// must do for it.  Only that job moves: every other executor — its
    /// state, its outcome, its timing — is left exactly as it was.
    pub fn dispatch_event(&mut self, i: usize, ev: JobEvent) -> (task: DriverTask)
        requires
            old(self).wf(),
            i < old(self).executors().len(),
            event_fits(old(self).executors()[i as int], ev),
        ensures
            final(self).wf(),
            final(self).capacity() == old(self).capacity(),
            final(self).admitted() == old(self).admitted(),
            final(self).completed() == old(self).completed(),
            final(self).executors().len() == old(self).executors().len(),
            forall|j: int|
                0 <= j < old(self).executors().len() && j != i ==> final(self).executors()[j]
                    == old(self).executors()[j],
            ({
                let before = old(self).executors()[i as int];
                let after = final(self).executors()[i as int];
                &&& after.wf()
                &&& after.job() == before.job()
                &&& phase_rank(after.phase()) >= phase_rank(before.phase())
                &&& match ev {
                    JobEvent::WorkspaceReady { tag } => {
                        &&& after.workspace() == Some(tag)
                        &&& after.spawn_count() == 0
                        &&& task == DriverTask::Nothing
                        &&& match before.job().missing_var() {
                            Some(name) => after.phase() == ExecPhase::Releasing && (
                            after.outcome() matches Some(ExecutionOutcome::SetupError { fault }) && (
                            fault matches SetupFault::MissingVariable { name: n } && n@ == name)),
                            None => after.phase() == ExecPhase::Running && after.outcome() is None,
                        }
                    },
                    JobEvent::WorkspaceFailed => {
                        &&& after.phase() == ExecPhase::Reporting
                        &&& after.outcome() == Some(
                            ExecutionOutcome::SetupError {
                                fault: SetupFault::WorkspaceUnavailable,
                            },
                        )
                        &&& after.spawn_count() == 0
                        &&& task == DriverTask::Nothing
                    },
                    JobEvent::PollStep => match task {
                        DriverTask::StartStep { index } => {
                            &&& index == before.step_run().unwrap().results().len()
                            &&& index < before.job().script@.len()
                            &&& after.phase() == ExecPhase::Running
                            &&& after.awaiting_result()
                            &&& after.spawn_count() == before.spawn_count() + 1
                        },
                        DriverTask::Nothing => {
                            &&& after.phase() == ExecPhase::Finalizing
                            &&& after.spawn_count() == before.spawn_count()
                        },
                        DriverTask::KillProcess => false,
                    },
                    JobEvent::StepFinished { result } => {
                        &&& task == DriverTask::Nothing
                        &&& after.spawn_count() == before.spawn_count()
                        &&& (after.step_run() matches Some(run) && run.results() == before.step_run(
                        ).unwrap().results().push(result))
                        &&& (step_ok(result) ==> after.phase() == ExecPhase::Running
                            && after.outcome() is None)
                        &&& (!step_ok(result) ==> after.phase() == ExecPhase::Releasing
                            && after.outcome() == Some(
                            ExecutionOutcome::Failed {
                                index: before.step_run().unwrap().results().len() as usize,
                                reason: spec_fail_reason(result.status),
                            },
                        ))
                    },
                    JobEvent::Cancel => {
                        &&& after.phase() == ExecPhase::Releasing
                        &&& after.outcome() == Some(ExecutionOutcome::Canceled)
                        &&& after.spawn_count() == before.spawn_count()
                        &&& task == (if before.awaiting_result() {
                            DriverTask::KillProcess
                        } else {
                            DriverTask::Nothing
                        })
                    },
                    JobEvent::Finalize => {
                        &&& after.phase() == ExecPhase::Releasing
                        &&& after.outcome() == Some(ExecutionOutcome::Success)
                        &&& task == DriverTask::Nothing
                    },
                    JobEvent::Released => {
                        &&& after.phase() == ExecPhase::Reporting
                        &&& after.released()
                        &&& after.outcome() == before.outcome()
                        &&& task == DriverTask::Nothing
                    },
                }
            }),
    {
        let mut e = self.jobs.remove(i);
        let task = match ev {
            JobEvent::WorkspaceReady { tag } => {
                e.on_workspace_ready(tag);
                DriverTask::Nothing
            },
            JobEvent::WorkspaceFailed => {
                e.on_workspace_failed();
                DriverTask::Nothing
            },
            JobEvent::PollStep => match e.poll_step() {
                Some(index) => DriverTask::StartStep { index },
                None => DriverTask::Nothing,
            },
            JobEvent::StepFinished { result } => {
                e.on_step_result(result);
                DriverTask::Nothing
            },
            JobEvent::Cancel => {
                if e.cancel() {
                    DriverTask::KillProcess
                } else {
                    DriverTask::Nothing
                }
            },
            JobEvent::Finalize => {
                e.finalize();
                DriverTask::Nothing
            },
            JobEvent::Released => {
                e.on_released();
                DriverTask::Nothing
            },
        };
        self.jobs.insert(i, e);
        proof {
            assert forall|j: int| 0 <= j < old(self).jobs@.len() && j != i implies self.jobs@[j]
                == old(self).jobs@[j] by {
                if j < i {
                } else {
                    assert(self.jobs@[j] == old(self).jobs@.remove(i as int)[j - 1]);
                }
            }
        }
        task
    }

    /// Collects the report of the job in slot `i`, exactly once, and frees
    /// its slot; the siblings close ranks in order.  Reachable only after
    /// the job's workspace question is settled.
    pub fn collect_report(&mut self, i: usize) -> (r: Report)
        requires
            old(self).wf(),
            i < old(self).executors().len(),
            old(self).executors()[i as int].phase() == ExecPhase::Reporting,
        ensures
            final(self).wf(),
            final(self).capacity() == old(self).capacity(),
            final(self).admitted() == old(self).admitted(),
            final(self).completed() == old(self).completed() + 1,
            final(self).executors() == old(self).executors().remove(i as int),
            r.job_id == old(self).executors()[i as int].job().id,
            Some(r.outcome) == old(self).executors()[i as int].outcome(),
            r.transcript@ == (match old(self).executors()[i as int].step_run() {
                Some(run) => run.results(),
                None => Seq::<StepResult>::empty(),
            }),
    {
        let e = self.jobs.remove(i);
        self.completed = self.completed + 1;
        e.into_report()
    }
}

/// The concurrency ceiling: in every state the pool's transitions can
/// reach, the jobs in flight never exceed the configured capacity.
pub proof fn lemma_bounded_concurrency(p: WorkerPool)
    requires
        p.wf(),
    ensures
        p.executors().len() <= p.capacity(),
{
}

/// Every in-flight executor of a well-formed pool is well-formed itself,
/// so the executor-level laws apply to each of them.
pub proof fn lemma_pool_jobs_wf(p: WorkerPool, i: int)
    requires
        p.wf(),
        0 <= i < p.executors().len(),
    ensures
        p.executors()[i].wf(),
{
}

/// Decides the pool's next move from one poll of the job source.  An
/// available job is dispatched as it came; an idle source is waited on, a
/// failing source retried — neither ends the pool nor touches any job.
pub fn classify_response(resp: SourceResponse) -> (d: PoolDirective)
    ensures
        match resp {
            SourceResponse::Available { job } => d == (PoolDirective::Dispatch { job }),
            SourceResponse::Empty => d == PoolDirective::WaitForJob,
            SourceResponse::TransientError => d == PoolDirective::RetryPoll,
        },
{
    match resp {
        SourceResponse::Available { job } => PoolDirective::Dispatch { job },
        SourceResponse::Empty => PoolDirective::WaitForJob,
        SourceResponse::TransientError => PoolDirective::RetryPoll,
    }
}

} // verus!
