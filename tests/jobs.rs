use moldock_jobs::launch::{
    after_start_step, after_watcher_poll, conclude_launch, plan_launch, worker_finished,
    GraceAction, LaunchError, LaunchStep, LaunchTarget, StartDecision, WatcherPoll, GRACE_POLLS,
};
use moldock_jobs::registry::{JobRegistry, RunJobStatus};
use moldock_jobs::signal::{
    decimal_text, recorded_exit_code, stop_signal_for, stop_signal_payload, StopPhase, WorkerExit,
};

fn strings(items: &[&str]) -> Vec<String> {
    items.iter().map(|s| s.to_string()).collect()
}

#[test]
fn registered_job_reads_running() {
    let mut reg = JobRegistry::new();
    let id = reg.register().unwrap();
    assert_eq!(id, 1);
    assert_eq!(
        reg.get_run_job_status(id),
        RunJobStatus { found: true, running: true, exit_code: None }
    );
    let second = reg.register().unwrap();
    assert_eq!(second, 2);
    assert_eq!(reg.job_status_map().len(), 2);
}

#[test]
fn clean_exit_codes_complete() {
    for code in [0, 2] {
        let sig = stop_signal_for(WorkerExit::Exited(Some(code)));
        assert_eq!(sig.phase, StopPhase::Completed);
        assert_eq!(sig.message, "");
        assert_eq!(sig.encode(), "completed");
    }
}

#[test]
fn other_exit_codes_fail_with_code() {
    let sig = stop_signal_for(WorkerExit::Exited(Some(1)));
    assert_eq!(sig.phase, StopPhase::Failed);
    assert_eq!(sig.message, "runner_exit_code=1");
    assert_eq!(sig.encode(), "failed|runner_exit_code=1");
    let sig = stop_signal_for(WorkerExit::Exited(Some(137)));
    assert_eq!(sig.encode(), "failed|runner_exit_code=137");
    let sig = stop_signal_for(WorkerExit::Exited(Some(-1073741819)));
    assert_eq!(sig.encode(), "failed|runner_exit_code=-1073741819");
}

#[test]
fn exit_without_code_counts_as_one() {
    let sig = stop_signal_for(WorkerExit::Exited(None));
    assert_eq!(sig.encode(), "failed|runner_exit_code=1");
    assert_eq!(recorded_exit_code(WorkerExit::Exited(None)), 1);
}

#[test]
fn wait_failure_fails() {
    let sig = stop_signal_for(WorkerExit::WaitFailed);
    assert_eq!(sig.phase, StopPhase::Failed);
    assert_eq!(sig.encode(), "failed|runner_wait_failed");
    assert_eq!(recorded_exit_code(WorkerExit::WaitFailed), 1);
}

#[test]
fn payload_drops_blank_message() {
    assert_eq!(stop_signal_payload("completed", ""), "completed");
    assert_eq!(stop_signal_payload("completed", "  \t"), "completed");
    assert_eq!(stop_signal_payload("failed", "boom"), "failed|boom");
}

#[test]
fn decimal_text_values() {
    assert_eq!(decimal_text(0), "0");
    assert_eq!(decimal_text(7), "7");
    assert_eq!(decimal_text(1234), "1234");
    assert_eq!(decimal_text(-42), "-42");
    assert_eq!(decimal_text(i32::MAX), "2147483647");
    assert_eq!(decimal_text(i32::MIN), "-2147483648");
}

#[test]
fn unissued_ids_not_found() {
    let mut reg = JobRegistry::new();
    let none = RunJobStatus { found: false, running: false, exit_code: None };
    assert_eq!(reg.get_run_job_status(0), none);
    assert_eq!(reg.get_run_job_status(1), none);
    assert_eq!(reg.get_run_job_status(u64::MAX), none);
    reg.register().unwrap();
    assert_eq!(reg.get_run_job_status(2), none);
}

#[test]
fn exit_is_recorded_once() {
    let mut reg = JobRegistry::new();
    let id = reg.register().unwrap();
    reg.record_exit(id, 3);
    let exited = RunJobStatus { found: true, running: false, exit_code: Some(3) };
    assert_eq!(reg.get_run_job_status(id), exited);
    reg.record_exit(id, 5);
    assert_eq!(reg.get_run_job_status(id), exited);
    reg.register().unwrap();
    assert_eq!(reg.get_run_job_status(id), exited);
    reg.record_exit(99, 4);
    assert_eq!(reg.get_run_job_status(99).found, false);
}

#[test]
fn paired_job_clears_signal_before_watcher() {
    let plan = plan_launch(&strings(&["run", "C:/proj"]), None, None, 1).ok().unwrap();
    assert!(plan.is_paired());
    assert_eq!(
        plan.launch_steps(),
        vec![LaunchStep::ClearStopSignal, LaunchStep::StartWatcher, LaunchStep::StartWorker]
    );
    let plan = plan_launch(&strings(&["status"]), None, None, 1).ok().unwrap();
    assert!(!plan.is_paired());
    assert_eq!(plan.launch_steps(), vec![LaunchStep::StartWorker]);
}

#[test]
fn unresponsive_watcher_is_terminated() {
    let mut polls: u32 = 0;
    loop {
        match after_watcher_poll(polls, WatcherPoll::Running) {
            GraceAction::Wait => polls += 1,
            action => {
                assert_eq!(action, GraceAction::Terminate);
                break;
            }
        }
        assert!(polls <= GRACE_POLLS);
    }
    assert_eq!(polls, 20);
    assert_eq!(after_watcher_poll(3, WatcherPoll::Exited), GraceAction::Release);
    assert_eq!(after_watcher_poll(0, WatcherPoll::Unknown), GraceAction::Terminate);
}

#[test]
fn run_command_completes_cleanly() {
    let args = strings(&["run", "<project>"]);
    let mut reg = JobRegistry::new();
    let plan = plan_launch(&args, None, None, 1).ok().unwrap();
    let watcher = plan.watcher.as_ref().unwrap();
    assert_eq!(watcher.project_dir, "<project>");
    let id = reg.register().unwrap();
    assert_eq!(
        reg.get_run_job_status(id),
        RunJobStatus { found: true, running: true, exit_code: None }
    );
    let payload = worker_finished(&mut reg, id, WorkerExit::Exited(Some(0)), true);
    assert_eq!(payload.unwrap(), "completed");
    assert_eq!(
        reg.get_run_job_status(id),
        RunJobStatus { found: true, running: false, exit_code: Some(0) }
    );
}

#[test]
fn unstartable_worker_issues_no_id() {
    let mut reg = JobRegistry::new();
    let plan = plan_launch(&strings(&["list"]), None, Some("Z:/no/such/python.exe".to_string()), 1);
    assert!(plan.is_ok());
    let err = LaunchError::LaunchFailure {
        target: LaunchTarget::Worker,
        detail: "program not found".to_string(),
    };
    assert_eq!(
        err.message(),
        "Could not launch Python CLI. Verify Python path and module availability (moldockpipe.cli). Details: program not found"
    );
    assert_eq!(reg.get_run_job_status(1).found, false);
    assert_eq!(reg.register(), Some(1));
}

#[test]
fn unpaired_job_writes_no_signal() {
    let mut reg = JobRegistry::new();
    let id = reg.register().unwrap();
    let payload = worker_finished(&mut reg, id, WorkerExit::Exited(Some(4)), false);
    assert!(payload.is_none());
    assert_eq!(reg.get_run_job_status(id).exit_code, Some(4));
}

#[test]
fn worker_spawn_failure_registers_nothing() {
    let mut reg = JobRegistry::new();
    let r = conclude_launch(&mut reg, Err("not found".to_string()), Some(77));
    match r {
        Err(LaunchError::LaunchFailure { target, detail }) => {
            assert_eq!(target, LaunchTarget::Worker);
            assert_eq!(detail, "not found");
        }
        _ => panic!("expected a launch failure"),
    }
    assert_eq!(reg.next_job_id(), 1);
    assert!(reg.job_status_map().is_empty());
    assert_eq!(reg.get_run_job_status(1).found, false);
}

#[test]
fn started_worker_is_registered() {
    let mut reg = JobRegistry::new();
    let job = conclude_launch(&mut reg, Ok(4242), Some(77)).ok().unwrap();
    assert_eq!(job.job_id, 1);
    assert_eq!(job.pid, Some(4242));
    assert_eq!(job.watcher_pid, Some(77));
    assert_eq!(
        reg.get_run_job_status(1),
        RunJobStatus { found: true, running: true, exit_code: None }
    );
    assert_eq!(reg.next_job_id(), 2);
}

#[test]
fn start_step_decisions() {
    assert_eq!(after_start_step(LaunchStep::ClearStopSignal, false, false), StartDecision::Continue);
    assert_eq!(after_start_step(LaunchStep::StartWatcher, true, true), StartDecision::Continue);
    assert_eq!(
        after_start_step(LaunchStep::StartWatcher, false, false),
        StartDecision::Fail { terminate_watcher: false }
    );
    assert_eq!(after_start_step(LaunchStep::StartWorker, true, true), StartDecision::Register);
    assert_eq!(
        after_start_step(LaunchStep::StartWorker, false, true),
        StartDecision::Fail { terminate_watcher: true }
    );
    assert_eq!(
        after_start_step(LaunchStep::StartWorker, false, false),
        StartDecision::Fail { terminate_watcher: false }
    );
    assert_eq!(LaunchError::IdsExhausted.message(), "No job identifier is left to issue.");
}
