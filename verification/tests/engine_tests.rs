use merel::build_message::{BuildMessage, CancelBuildMessage, NewBuildMessage};
use merel::dispatch::{DispatchOutcome, Dispatcher};
use merel::pipeline::{ContainerMethod, Job, Pipeline, PipelineStatus};
use merel::runner::{PipelineRun, RunnerAction, StepOutcome};
use merel::workspace_context::WorkspaceContext;

fn job(name: &str, steps: &[&str]) -> Job {
    Job {
        name: name.to_string(),
        image: "ubuntu:latest".to_string(),
        steps: steps.iter().map(|s| s.to_string()).collect(),
    }
}

fn pipeline(jobs: Vec<Job>) -> Pipeline {
    Pipeline {
        trigger_branches: vec!["main".to_string()],
        container_method: ContainerMethod::Docker,
        jobs,
    }
}

fn context(id: &str) -> WorkspaceContext {
    WorkspaceContext {
        id: id.to_string(),
        commit_id: "abc123".to_string(),
        repo_url: "https://example.invalid/repo.git".to_string(),
        repo_dir: "/tmp/merel/repositories/repo-abc123".to_string(),
    }
}

fn submit(dispatcher: &mut Dispatcher, id: &str, p: Pipeline) -> DispatchOutcome {
    dispatcher.handle(BuildMessage::NewBuild(NewBuildMessage {
        context: context(id),
        pipeline: p,
    }))
}

/// Drives an admitted run to completion, treating every step as a process
/// that exits with code zero and prints nothing; appends each produced log
/// line to the hub. Returns the terminal status.
fn drive_all_passing(
    dispatcher: &mut Dispatcher,
    id: &str,
    slot: usize,
    run: &mut PipelineRun,
) -> PipelineStatus {
    let id = id.to_string();
    loop {
        let cancel = dispatcher.pool.is_cancel_requested(slot);
        match run.next(cancel) {
            RunnerAction::RunStep { command: _, log_line } => {
                dispatcher.hub.send_log(&id, &log_line);
                let lines = run.complete_step(StepOutcome::Exited {
                    code: 0,
                    output: String::new(),
                });
                for line in lines {
                    dispatcher.hub.send_log(&id, &line);
                }
            }
            RunnerAction::Finished { status, log_line } => {
                dispatcher.hub.send_log(&id, &log_line);
                return status;
            }
        }
    }
}

#[test]
fn scenario_passing_build_runs_logs_and_frees_its_slot() {
    let mut dispatcher = Dispatcher::new(5);
    let p = pipeline(vec![job("test", &["true"])]);
    assert!(p.should_trigger("main"));

    let (slot, mut run) = match submit(&mut dispatcher, "build-a", p) {
        DispatchOutcome::Started { slot, context, run } => {
            assert_eq!(context.id, "build-a");
            (slot, run)
        }
        other => panic!("expected the build to start, got {:?}", outcome_name(&other)),
    };
    assert_eq!(slot, 0);

    let status = drive_all_passing(&mut dispatcher, "build-a", slot, &mut run);
    assert_eq!(status, PipelineStatus::Passed);

    let build = dispatcher.finish(slot).unwrap();
    assert_eq!(build.logs, vec!["run: true", "Pipeline passed"]);
    assert_eq!(build.render_logs(), "run: true\nPipeline passed\n");
    assert_eq!(
        build.log_path("/tmp/merel/logs"),
        "/tmp/merel/logs/build-a-logs.txt"
    );
    assert!(dispatcher.pool.executors[0].is_available());
    assert!(!dispatcher.hub.contains("build-a"));
}

#[test]
fn scenario_failing_step_skips_the_rest_of_the_pipeline() {
    let mut dispatcher = Dispatcher::new(5);
    let p = pipeline(vec![job("test", &["true", "false", "true"])]);

    let (slot, mut run) = match submit(&mut dispatcher, "build-b", p) {
        DispatchOutcome::Started { slot, run, .. } => (slot, run),
        other => panic!("expected the build to start, got {:?}", outcome_name(&other)),
    };

    let id = "build-b".to_string();
    let mut executed = vec![];
    let status = loop {
        let cancel = dispatcher.pool.is_cancel_requested(slot);
        match run.next(cancel) {
            RunnerAction::RunStep { command, log_line } => {
                dispatcher.hub.send_log(&id, &log_line);
                executed.push(command.clone());
                let code = if command == "false" { 1 } else { 0 };
                let lines = run.complete_step(StepOutcome::Exited {
                    code,
                    output: String::new(),
                });
                for line in lines {
                    dispatcher.hub.send_log(&id, &line);
                }
                if run.is_finished() {
                    break run.status.clone().unwrap();
                }
            }
            RunnerAction::Finished { status, log_line } => {
                dispatcher.hub.send_log(&id, &log_line);
                break status;
            }
        }
    };

    assert_eq!(executed, vec!["true", "false"]);
    assert_eq!(
        status,
        PipelineStatus::Failed("Could not execute command false, got ".to_string())
    );

    let build = dispatcher.finish(slot).unwrap();
    assert_eq!(
        build.logs,
        vec![
            "run: true",
            "run: false",
            "Could not execute command false, got ",
        ]
    );
}

#[test]
fn scenario_cancellation_stops_before_the_second_job() {
    let mut dispatcher = Dispatcher::new(5);
    let p = pipeline(vec![job("build", &["true"]), job("deploy", &["true"])]);

    let (slot, mut run) = match submit(&mut dispatcher, "build-c", p) {
        DispatchOutcome::Started { slot, run, .. } => (slot, run),
        other => panic!("expected the build to start, got {:?}", outcome_name(&other)),
    };

    let id = "build-c".to_string();

    // First job's only step runs.
    let cancel = dispatcher.pool.is_cancel_requested(slot);
    assert!(!cancel);
    match run.next(cancel) {
        RunnerAction::RunStep { command, log_line } => {
            assert_eq!(command, "true");
            dispatcher.hub.send_log(&id, &log_line);
            run.complete_step(StepOutcome::Exited { code: 0, output: String::new() });
        }
        RunnerAction::Finished { .. } => panic!("the first step should run"),
    }

    // A cancellation arrives before the second job starts.
    let outcome = dispatcher.handle(BuildMessage::CancelBuild(CancelBuildMessage(id.clone())));
    assert!(matches!(outcome, DispatchOutcome::CancelRouted { found: true }));

    let cancel = dispatcher.pool.is_cancel_requested(slot);
    assert!(cancel);
    match run.next(cancel) {
        RunnerAction::Finished { status, log_line } => {
            assert_eq!(status, PipelineStatus::Cancelled);
            dispatcher.hub.send_log(&id, &log_line);
        }
        RunnerAction::RunStep { .. } => panic!("no job may start after cancellation"),
    }

    let build = dispatcher.finish(slot).unwrap();
    assert_eq!(build.logs, vec!["run: true", "Pipeline was cancelled"]);
}

#[test]
fn scenario_second_build_waits_for_the_single_slot() {
    let mut dispatcher = Dispatcher::new(1);

    let (slot, mut run) = match submit(&mut dispatcher, "build-d1", pipeline(vec![job("j", &["true"])])) {
        DispatchOutcome::Started { slot, run, .. } => (slot, run),
        other => panic!("expected the build to start, got {:?}", outcome_name(&other)),
    };

    // While the first build holds the slot, the second is handed back.
    let deferred = match submit(&mut dispatcher, "build-d2", pipeline(vec![job("j", &["true"])])) {
        DispatchOutcome::Deferred { message } => message,
        other => panic!("expected no capacity, got {:?}", outcome_name(&other)),
    };
    assert_eq!(deferred.context.id, "build-d2");

    let status = drive_all_passing(&mut dispatcher, "build-d1", slot, &mut run);
    assert_eq!(status, PipelineStatus::Passed);
    dispatcher.finish(slot).unwrap();

    // Only after the release is the deferred build admitted.
    match dispatcher.handle(BuildMessage::NewBuild(deferred)) {
        DispatchOutcome::Started { slot, context, .. } => {
            assert_eq!(slot, 0);
            assert_eq!(context.id, "build-d2");
        }
        other => panic!("expected the deferred build to start, got {:?}", outcome_name(&other)),
    }
}

#[test]
fn builds_up_to_pool_size_run_concurrently() {
    let mut dispatcher = Dispatcher::new(3);
    let mut slots = vec![];
    for id in ["b1", "b2", "b3"] {
        match submit(&mut dispatcher, id, pipeline(vec![job("j", &["true"])])) {
            DispatchOutcome::Started { slot, .. } => slots.push(slot),
            other => panic!("expected the build to start, got {:?}", outcome_name(&other)),
        }
    }
    slots.sort();
    assert_eq!(slots, vec![0, 1, 2]);

    // The fourth does not start while all three run.
    assert!(matches!(
        submit(&mut dispatcher, "b4", pipeline(vec![job("j", &["true"])])),
        DispatchOutcome::Deferred { .. }
    ));
}

#[test]
fn duplicate_build_id_is_rejected() {
    let mut dispatcher = Dispatcher::new(2);
    match submit(&mut dispatcher, "dup", pipeline(vec![job("j", &["true"])])) {
        DispatchOutcome::Started { .. } => {}
        other => panic!("expected the build to start, got {:?}", outcome_name(&other)),
    }
    assert!(matches!(
        submit(&mut dispatcher, "dup", pipeline(vec![job("j", &["true"])])),
        DispatchOutcome::Rejected { .. }
    ));
}

#[test]
fn cancel_twice_equals_cancel_once() {
    let mut dispatcher = Dispatcher::new(2);
    let slot = match submit(&mut dispatcher, "build-e", pipeline(vec![job("j", &["true"])])) {
        DispatchOutcome::Started { slot, .. } => slot,
        other => panic!("expected the build to start, got {:?}", outcome_name(&other)),
    };

    let first = dispatcher.handle(BuildMessage::CancelBuild(CancelBuildMessage(
        "build-e".to_string(),
    )));
    assert!(matches!(first, DispatchOutcome::CancelRouted { found: true }));
    assert!(dispatcher.pool.is_cancel_requested(slot));

    let second = dispatcher.handle(BuildMessage::CancelBuild(CancelBuildMessage(
        "build-e".to_string(),
    )));
    assert!(matches!(second, DispatchOutcome::CancelRouted { found: true }));
    assert!(dispatcher.pool.is_cancel_requested(slot));
    assert!(!dispatcher.pool.executors[slot].is_available());
}

#[test]
fn cancel_after_finish_is_a_no_op() {
    let mut dispatcher = Dispatcher::new(2);
    let (slot, mut run) = match submit(&mut dispatcher, "build-f", pipeline(vec![job("j", &["true"])])) {
        DispatchOutcome::Started { slot, run, .. } => (slot, run),
        other => panic!("expected the build to start, got {:?}", outcome_name(&other)),
    };
    drive_all_passing(&mut dispatcher, "build-f", slot, &mut run);
    dispatcher.finish(slot).unwrap();

    let outcome = dispatcher.handle(BuildMessage::CancelBuild(CancelBuildMessage(
        "build-f".to_string(),
    )));
    assert!(matches!(outcome, DispatchOutcome::CancelRouted { found: false }));
    assert!(dispatcher.pool.executors[slot].is_available());
    assert!(!dispatcher.pool.is_cancel_requested(slot));
}

#[test]
fn a_job_with_no_steps_passes_immediately() {
    let mut dispatcher = Dispatcher::new(1);
    let p = pipeline(vec![job("empty", &[]), job("real", &["true"])]);
    let (slot, mut run) = match submit(&mut dispatcher, "build-g", p) {
        DispatchOutcome::Started { slot, run, .. } => (slot, run),
        other => panic!("expected the build to start, got {:?}", outcome_name(&other)),
    };
    let status = drive_all_passing(&mut dispatcher, "build-g", slot, &mut run);
    assert_eq!(status, PipelineStatus::Passed);
    let build = dispatcher.finish(slot).unwrap();
    assert_eq!(build.logs, vec!["run: true", "Pipeline passed"]);
}

#[test]
fn step_output_is_logged_when_not_empty() {
    let p = pipeline(vec![job("j", &["echo hello"])]);
    let mut run = PipelineRun::new(p);
    match run.next(false) {
        RunnerAction::RunStep { command, log_line } => {
            assert_eq!(command, "echo hello");
            assert_eq!(log_line, "run: echo hello");
        }
        RunnerAction::Finished { .. } => panic!("the step should run"),
    }
    let lines = run.complete_step(StepOutcome::Exited {
        code: 0,
        output: "hello\n".to_string(),
    });
    assert_eq!(lines, vec!["hello\n"]);
}

#[test]
fn spawn_failure_fails_the_pipeline() {
    let p = pipeline(vec![job("j", &["definitely-missing"])]);
    let mut run = PipelineRun::new(p);
    run.next(false);
    let lines = run.complete_step(StepOutcome::SpawnFailed {
        message: "No such file or directory".to_string(),
    });
    assert_eq!(
        lines,
        vec!["Could not execute command definitely-missing, got No such file or directory"]
    );
    assert_eq!(
        run.status,
        Some(PipelineStatus::Failed(
            "Could not execute command definitely-missing, got No such file or directory"
                .to_string()
        ))
    );
}

#[test]
fn undecodable_output_fails_the_pipeline() {
    let p = pipeline(vec![job("j", &["true"])]);
    let mut run = PipelineRun::new(p);
    run.next(false);
    run.complete_step(StepOutcome::OutputInvalid {
        message: "invalid utf-8 sequence".to_string(),
    });
    assert!(matches!(run.status, Some(PipelineStatus::Failed(_))));
}

fn outcome_name(outcome: &DispatchOutcome) -> &'static str {
    match outcome {
        DispatchOutcome::Started { .. } => "Started",
        DispatchOutcome::Deferred { .. } => "Deferred",
        DispatchOutcome::Rejected { .. } => "Rejected",
        DispatchOutcome::CancelRouted { .. } => "CancelRouted",
    }
}
