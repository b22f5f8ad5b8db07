//! Scenario tests driving one job executor end to end.

use ci_engine::executor::{ExecPhase, JobExecutor, Report};
use ci_engine::job::{Arg, Job};
use ci_engine::outcome::{ExecutionOutcome, FailReason, SetupFault, StepResult, StepStatus};
use ci_engine::workspace::WorkspaceTag;

fn lit(text: &str) -> Arg {
    Arg::Lit { text: text.to_owned() }
}

fn var(name: &str) -> Arg {
    Arg::Var { name: name.to_owned() }
}

fn demo_job() -> Job {
    Job {
        id: 7,
        vars: vec![
            ("URL".to_owned(), "https://x/y.git".to_owned()),
            ("SHA".to_owned(), "abc123".to_owned()),
            ("TITLE".to_owned(), "y".to_owned()),
        ],
        script: vec![
            vec![lit("clone"), var("URL")],
            vec![lit("reset"), lit("--hard"), var("SHA"), lit("in"), var("TITLE")],
            vec![lit("test"), lit("in"), var("TITLE")],
        ],
        phase_tag: "run".to_owned(),
    }
}

fn result_with(code: i32, stdout: &str, ms: u64) -> StepResult {
    StepResult {
        status: StepStatus::Exited { code },
        stdout: stdout.to_owned(),
        stderr: String::new(),
        duration_ms: ms,
    }
}

fn tag(job_id: u64, serial: u64) -> WorkspaceTag {
    WorkspaceTag { job_id, serial }
}

/// Runs a provisioned executor to its report, answering every handed-out
/// step from `codes` in order.
fn drive(mut e: JobExecutor, codes: &[i32]) -> Report {
    let mut fed = 0;
    loop {
        match e.phase_now() {
            ExecPhase::Running => match e.poll_step() {
                Some(i) => {
                    assert_eq!(i, fed);
                    let out = format!("step {} output", i);
                    e.on_step_result(result_with(codes[fed], &out, 10));
                    fed += 1;
                }
                None => {}
            },
            ExecPhase::Finalizing => e.finalize(),
            ExecPhase::Releasing => e.on_released(),
            ExecPhase::Reporting => return e.into_report(),
            ExecPhase::Provisioning => unreachable!(),
        }
    }
}

#[test]
fn all_steps_pass_in_order() {
    let mut e = JobExecutor::new(demo_job());
    e.on_workspace_ready(tag(7, 0));
    assert_eq!(e.phase_now(), ExecPhase::Running);

    let i = e.poll_step().expect("a first step");
    assert_eq!(i, 0);
    let cmd = e.step_command(0).clone();
    assert_eq!(cmd, vec!["clone".to_owned(), "https://x/y.git".to_owned()]);
    e.on_step_result(result_with(0, "step 0 output", 5));

    let i = e.poll_step().expect("a second step");
    assert_eq!(i, 1);
    let cmd = e.step_command(1).clone();
    assert_eq!(
        cmd,
        vec![
            "reset".to_owned(),
            "--hard".to_owned(),
            "abc123".to_owned(),
            "in".to_owned(),
            "y".to_owned(),
        ]
    );
    e.on_step_result(result_with(0, "step 1 output", 7));

    let i = e.poll_step().expect("a third step");
    assert_eq!(i, 2);
    let cmd = e.step_command(2).clone();
    assert_eq!(cmd, vec!["test".to_owned(), "in".to_owned(), "y".to_owned()]);
    e.on_step_result(result_with(0, "step 2 output", 11));

    assert!(e.poll_step().is_none());
    assert_eq!(e.phase_now(), ExecPhase::Finalizing);
    e.finalize();
    e.on_released();
    let report = e.into_report();
    assert_eq!(report.job_id, 7);
    assert_eq!(report.outcome, ExecutionOutcome::Success);
    assert_eq!(report.transcript.len(), 3);
    for (k, r) in report.transcript.iter().enumerate() {
        assert_eq!(r.stdout, format!("step {} output", k));
    }
    assert_eq!(report.total_duration_ms(), 5 + 7 + 11);
}

#[test]
fn failing_second_step_short_circuits() {
    let mut e = JobExecutor::new(demo_job());
    e.on_workspace_ready(tag(7, 1));
    let report = drive(e, &[0, 1, 0]);
    assert_eq!(
        report.outcome,
        ExecutionOutcome::Failed { index: 1, reason: FailReason::NonZeroExit { code: 1 } }
    );
    // The failing step is recorded; the third step never ran.
    assert_eq!(report.transcript.len(), 2);
    assert_eq!(report.transcript[1].stdout, "step 1 output");
}

#[test]
fn missing_variable_is_setup_error_before_any_spawn() {
    let mut job = demo_job();
    job.vars.remove(1); // drop SHA, which step 2 references
    let mut e = JobExecutor::new(job);
    e.on_workspace_ready(tag(7, 2));
    // The outcome is decided at once; no step was ever handed out.
    assert_eq!(e.phase_now(), ExecPhase::Releasing);
    assert_eq!(e.started_steps(), 0);
    // The workspace is still released before the report.
    e.on_released();
    let report = e.into_report();
    assert_eq!(
        report.outcome,
        ExecutionOutcome::SetupError {
            fault: SetupFault::MissingVariable { name: "SHA".to_owned() }
        }
    );
    assert_eq!(report.transcript.len(), 0);
}

#[test]
fn workspace_failure_is_setup_error_with_nothing_to_release() {
    let mut e = JobExecutor::new(demo_job());
    e.on_workspace_failed();
    assert_eq!(e.phase_now(), ExecPhase::Reporting);
    assert_eq!(e.started_steps(), 0);
    assert!(e.current_workspace().is_none());
    let report = e.into_report();
    assert_eq!(
        report.outcome,
        ExecutionOutcome::SetupError { fault: SetupFault::WorkspaceUnavailable }
    );
}

#[test]
fn launch_failure_fails_the_step() {
    let mut e = JobExecutor::new(demo_job());
    e.on_workspace_ready(tag(7, 3));
    let i = e.poll_step().expect("a first step");
    assert_eq!(i, 0);
    e.on_step_result(StepResult {
        status: StepStatus::LaunchFailed,
        stdout: String::new(),
        stderr: "no such program".to_owned(),
        duration_ms: 0,
    });
    e.on_released();
    let report = e.into_report();
    assert_eq!(
        report.outcome,
        ExecutionOutcome::Failed { index: 0, reason: FailReason::LaunchError }
    );
}

#[test]
fn cancel_kills_the_active_process_and_still_releases() {
    let mut e = JobExecutor::new(demo_job());
    e.on_workspace_ready(tag(7, 4));
    let i = e.poll_step().expect("a first step");
    assert_eq!(i, 0);
    e.on_step_result(result_with(0, "step 0 output", 3));
    let _ = e.poll_step().expect("a second step");
    // Step 1 is in flight: cancellation must ask for its termination.
    let kill = e.cancel();
    assert!(kill);
    assert_eq!(e.phase_now(), ExecPhase::Releasing);
    e.on_released();
    let report = e.into_report();
    assert_eq!(report.outcome, ExecutionOutcome::Canceled);
    // Only the finished step is in the transcript.
    assert_eq!(report.transcript.len(), 1);
}

#[test]
fn cancel_between_steps_needs_no_kill() {
    let mut e = JobExecutor::new(demo_job());
    e.on_workspace_ready(tag(7, 5));
    let _ = e.poll_step().expect("a first step");
    e.on_step_result(result_with(0, "step 0 output", 3));
    // No step is in flight right now.
    let kill = e.cancel();
    assert!(!kill);
    e.on_released();
    assert_eq!(e.into_report().outcome, ExecutionOutcome::Canceled);
}

#[test]
fn empty_script_succeeds_with_empty_transcript() {
    let mut job = demo_job();
    job.script.clear();
    let mut e = JobExecutor::new(job);
    e.on_workspace_ready(tag(7, 6));
    let report = drive(e, &[]);
    assert_eq!(report.outcome, ExecutionOutcome::Success);
    assert_eq!(report.transcript.len(), 0);
    assert_eq!(report.total_duration_ms(), 0);
}

#[test]
fn duration_sum_saturates() {
    let report = Report {
        job_id: 1,
        outcome: ExecutionOutcome::Success,
        transcript: vec![result_with(0, "", u64::MAX), result_with(0, "", 2)],
    };
    assert_eq!(report.total_duration_ms(), u64::MAX);
}
