//! Tests of the worker pool's bounded dispatch and of workspace naming.

use ci_engine::executor::ExecPhase;
use ci_engine::job::{Arg, Job};
use ci_engine::outcome::{ExecutionOutcome, StepResult, StepStatus};
use ci_engine::pool::{
    classify_response, DriverTask, JobEvent, PoolDirective, SourceResponse, WorkerPool,
};
use ci_engine::workspace::{WorkspaceNamer, WorkspaceTag};

fn trivial_job(id: u64) -> Job {
    Job {
        id,
        vars: vec![],
        script: vec![vec![Arg::Lit { text: "check".to_owned() }]],
        phase_tag: "run".to_owned(),
    }
}

fn ok_result() -> StepResult {
    StepResult {
        status: StepStatus::Exited { code: 0 },
        stdout: String::new(),
        stderr: String::new(),
        duration_ms: 1,
    }
}

/// Admits what fits, then moves every in-flight job one transition forward,
/// collecting reports as they appear.  Returns the reports of this round.
fn one_round(
    pool: &mut WorkerPool,
    pending: &mut Vec<Job>,
    namer: &mut WorkspaceNamer,
) -> Vec<ExecutionOutcome> {
    // Admission: take new work only while a slot is free.
    while pool.has_slot() {
        match pending.pop() {
            Some(job) => {
                let tag = namer.fresh(job.id);
                let i = pool.accept(job);
                pool.dispatch_event(i, JobEvent::WorkspaceReady { tag });
            }
            None => break,
        }
    }
    assert!(pool.in_flight() <= 2);

    let mut outcomes = Vec::new();
    let mut i = 0;
    while i < pool.in_flight() {
        match pool.job_at(i).phase_now() {
            ExecPhase::Provisioning => unreachable!("provisioned at admission"),
            ExecPhase::Running => {
                match pool.dispatch_event(i, JobEvent::PollStep) {
                    DriverTask::StartStep { .. } => {
                        pool.dispatch_event(i, JobEvent::StepFinished { result: ok_result() });
                    }
                    DriverTask::Nothing => {}
                    DriverTask::KillProcess => unreachable!("polling never kills"),
                }
                i += 1;
            }
            ExecPhase::Finalizing => {
                pool.dispatch_event(i, JobEvent::Finalize);
                i += 1;
            }
            ExecPhase::Releasing => {
                pool.dispatch_event(i, JobEvent::Released);
                i += 1;
            }
            ExecPhase::Reporting => {
                // Frees the slot; the next job keeps index i.
                outcomes.push(pool.collect_report(i).outcome);
            }
        }
        assert!(pool.in_flight() <= 2);
    }
    outcomes
}

#[test]
fn five_jobs_through_two_slots() {
    let mut pool = WorkerPool::new(2);
    let mut pending: Vec<Job> = (0..5).map(trivial_job).collect();
    let mut namer = WorkspaceNamer::new();
    let mut finished = 0u64;

    let mut rounds = 0;
    while pool.done_count() < 5 {
        for outcome in one_round(&mut pool, &mut pending, &mut namer) {
            assert_eq!(outcome, ExecutionOutcome::Success);
            finished += 1;
        }
        rounds += 1;
        assert!(rounds < 100, "the pool must make progress");
    }
    assert_eq!(finished, 5);
    assert_eq!(pool.done_count(), 5);
    assert_eq!(pool.in_flight(), 0);
    assert!(pending.is_empty());
}

#[test]
fn cancelling_one_job_leaves_its_sibling_running() {
    let mut pool = WorkerPool::new(2);
    let a = pool.accept(trivial_job(1));
    pool.dispatch_event(a, JobEvent::WorkspaceReady { tag: WorkspaceTag { job_id: 1, serial: 0 } });
    let b = pool.accept(trivial_job(2));
    pool.dispatch_event(b, JobEvent::WorkspaceReady { tag: WorkspaceTag { job_id: 2, serial: 1 } });

    // Job a has a step in flight; job b does not.
    assert!(matches!(
        pool.dispatch_event(a, JobEvent::PollStep),
        DriverTask::StartStep { index: 0 }
    ));
    let task = pool.dispatch_event(a, JobEvent::Cancel);
    assert_eq!(task, DriverTask::KillProcess);

    // The sibling is exactly where it was.
    assert_eq!(pool.job_at(b).phase_now(), ExecPhase::Running);
    assert_eq!(pool.job_at(b).started_steps(), 0);

    // Job a still releases its workspace and reports `Canceled`.
    pool.dispatch_event(a, JobEvent::Released);
    let report = pool.collect_report(a);
    assert_eq!(report.outcome, ExecutionOutcome::Canceled);

    // The sibling, now in slot 0, runs to success untouched.
    assert_eq!(pool.job_at(0).phase_now(), ExecPhase::Running);
    assert!(matches!(
        pool.dispatch_event(0, JobEvent::PollStep),
        DriverTask::StartStep { index: 0 }
    ));
    pool.dispatch_event(0, JobEvent::StepFinished { result: ok_result() });
    assert!(matches!(pool.dispatch_event(0, JobEvent::PollStep), DriverTask::Nothing));
    pool.dispatch_event(0, JobEvent::Finalize);
    pool.dispatch_event(0, JobEvent::Released);
    assert_eq!(pool.collect_report(0).outcome, ExecutionOutcome::Success);
}

#[test]
fn source_responses_map_to_their_directives() {
    let job = trivial_job(9);
    match classify_response(SourceResponse::Available { job }) {
        PoolDirective::Dispatch { job } => assert_eq!(job.id, 9),
        other => panic!("expected a dispatch, got {:?}", other),
    }
    assert!(matches!(
        classify_response(SourceResponse::Empty),
        PoolDirective::WaitForJob
    ));
    // A transient source failure is retried; it never stops the pool.
    assert!(matches!(
        classify_response(SourceResponse::TransientError),
        PoolDirective::RetryPoll
    ));
}

#[test]
fn workspace_serials_never_repeat() {
    let mut namer = WorkspaceNamer::new();
    let a = namer.fresh(1);
    let b = namer.fresh(1);
    let c = namer.fresh(2);
    assert_eq!(a.job_id, 1);
    assert_eq!(c.job_id, 2);
    assert_ne!(a.serial, b.serial);
    assert_ne!(a.serial, c.serial);
    assert_ne!(b.serial, c.serial);
}

#[test]
fn freed_slot_admits_the_next_job() {
    let mut pool = WorkerPool::new(1);
    assert!(pool.has_slot());
    let i = pool.accept(trivial_job(1));
    assert!(!pool.has_slot());
    // No workspace could be made: the job reports a setup error and its
    // slot frees for the next job.
    pool.dispatch_event(i, JobEvent::WorkspaceFailed);
    assert_eq!(pool.job_at(i).phase_now(), ExecPhase::Reporting);
    let report = pool.collect_report(i);
    assert!(matches!(report.outcome, ExecutionOutcome::SetupError { .. }));
    assert!(pool.has_slot());
    pool.accept(trivial_job(2));
    assert!(!pool.has_slot());
}
