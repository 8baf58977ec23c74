use setup_engine::orchestrator::{Orchestrator, OrchestratorError};
use setup_engine::phase::{PhaseAction, PhaseKind};
use setup_engine::status::PhaseStatus;
use setup_engine::stepper::{ProgressStepper, ProgressStepperBuilder};

fn completed_single_step_stepper() -> ProgressStepper {
    let mut stepper = ProgressStepperBuilder::new().add_step("done".to_string()).build();
    stepper.resolve_step(&"done".to_string()).unwrap();
    stepper
}

#[test]
fn registration_rejects_duplicates_and_unknown_dependencies() {
    let mut orch = Orchestrator::new();
    assert_eq!(orch.register_phase(PhaseKind::Core, &vec![], 1000), Ok(()));
    assert_eq!(
        orch.register_phase(PhaseKind::Core, &vec![], 1000),
        Err(OrchestratorError::DuplicatePhase)
    );
    assert_eq!(
        orch.register_phase(PhaseKind::Wallet, &vec![PhaseKind::Node], 1000),
        Err(OrchestratorError::UnknownDependency)
    );
    // A phase cannot name itself: it is not registered yet when checked.
    assert_eq!(
        orch.register_phase(PhaseKind::Node, &vec![PhaseKind::Node], 1000),
        Err(OrchestratorError::UnknownDependency)
    );

    orch.start().unwrap();
    assert_eq!(
        orch.register_phase(PhaseKind::Mining, &vec![], 1000),
        Err(OrchestratorError::AlreadyStarted)
    );
    assert!(matches!(orch.start(), Err(OrchestratorError::AlreadyStarted)));
}

#[test]
fn dependent_phase_starts_only_after_upstream_success() {
    // Phase A: no dependencies, three steps, succeeds.
    // Phase B: depends on A, two steps.
    let mut orch = Orchestrator::new();
    orch.register_phase(PhaseKind::Core, &vec![], 1000).unwrap();
    orch.register_phase(PhaseKind::Hardware, &vec![PhaseKind::Core], 1000).unwrap();

    let actions = orch.start().unwrap();
    assert_eq!(actions, vec![PhaseAction::RunBody, PhaseAction::AwaitDependency]);

    let mut stepper_a = ProgressStepperBuilder::new()
        .add_step("a-one".to_string())
        .add_step("a-two".to_string())
        .add_step("a-done".to_string())
        .build();
    let mut stepper_b = ProgressStepperBuilder::new()
        .add_step("b-one".to_string())
        .add_step("b-done".to_string())
        .build();

    // B cannot leave its dependency wait while A is pending, so B's first
    // step stays unresolved.
    assert_eq!(orch.poll_dependency(1), PhaseAction::AwaitDependency);
    assert_eq!(stepper_b.resolved(), 0);
    assert_eq!(orch.phase_status(0), PhaseStatus::Pending);

    // A's body runs its steps and succeeds; nothing is published yet.
    stepper_a.resolve_step(&"a-one".to_string()).unwrap();
    stepper_a.resolve_step(&"a-two".to_string()).unwrap();
    let (action, report) = orch.notify_body_result(0, Ok(()));
    assert_eq!(action, PhaseAction::FinalizeSuccess);
    assert!(report.is_none());
    assert_eq!(orch.phase_status(0), PhaseStatus::Pending);

    // Even now B cannot start: A's final step has not resolved, so its
    // success has not been published.
    assert_eq!(orch.poll_dependency(1), PhaseAction::AwaitDependency);
    assert_eq!(stepper_b.resolved(), 0);

    // Publication is refused while A's checklist is incomplete.
    assert!(!orch.confirm_finalized(0, &stepper_a));
    let done_a = stepper_a.resolve_step(&"a-done".to_string()).unwrap();
    assert_eq!(done_a.percentage, 100);
    assert!(orch.confirm_finalized(0, &stepper_a));
    assert_eq!(orch.phase_status(0), PhaseStatus::Success);

    // Only now does B's wait resolve and its body — and first step — run.
    assert_eq!(orch.poll_dependency(1), PhaseAction::RunBody);
    stepper_b.resolve_step(&"b-one".to_string()).unwrap();
    let (action, _) = orch.notify_body_result(1, Ok(()));
    assert_eq!(action, PhaseAction::FinalizeSuccess);
    let done_b = stepper_b.resolve_step(&"b-done".to_string()).unwrap();
    assert_eq!(done_b.percentage, 100);
    assert!(orch.confirm_finalized(1, &stepper_b));

    assert_eq!(orch.phase_status(1), PhaseStatus::Success);
    assert!(orch.all_phases_succeeded());
}

#[test]
fn timed_out_phase_reports_once_and_never_succeeds() {
    // Phase A's body never completes; its timeout budget is 50ms.
    let mut orch = Orchestrator::new();
    orch.register_phase(PhaseKind::Hardware, &vec![], 50).unwrap();
    orch.start().unwrap();

    let mut reports = 0;
    let (action, report) = orch.notify_timeout(0);
    if action == PhaseAction::ReportCriticalProblem {
        reports += 1;
        // The report carries the phase's static metadata and says what ran
        // out.
        let report = report.unwrap();
        assert_eq!(report.title, "Hardware phase setup failed");
        assert_eq!(report.detail, "setup timed out");
    }
    // A second timeout observation, or the body finally finishing, asks for
    // nothing more: exactly one report.
    let (_, report) = orch.notify_timeout(0);
    if report.is_some() {
        reports += 1;
    }
    let (_, report) = orch.notify_body_result(0, Ok(()));
    if report.is_some() {
        reports += 1;
    }
    assert_eq!(reports, 1);
    assert_eq!(orch.notify_body_result(0, Ok(())).0, PhaseAction::NoAction);

    // The status channel never reaches Success, and a late confirmation
    // attempt publishes nothing.
    assert!(!orch.confirm_finalized(0, &completed_single_step_stepper()));
    assert_eq!(orch.phase_status(0), PhaseStatus::Pending);
    assert!(!orch.all_phases_succeeded());
}

#[test]
fn body_error_report_carries_the_error_detail() {
    let mut orch = Orchestrator::new();
    orch.register_phase(PhaseKind::Node, &vec![], 1000).unwrap();
    orch.start().unwrap();

    let (action, report) = orch.notify_body_result(0, Err("binary download failed".to_string()));
    assert_eq!(action, PhaseAction::ReportCriticalProblem);
    let report = report.unwrap();
    assert_eq!(report.title, "Node phase setup failed");
    assert_eq!(
        report.description,
        "The phase did not complete and the application may not be fully functional"
    );
    assert_eq!(report.detail, "binary download failed");

    // A failed phase publishes nothing.
    assert_eq!(orch.phase_status(0), PhaseStatus::Pending);
}

#[test]
fn construction_failure_is_fatal_and_reported_immediately() {
    let mut orch = Orchestrator::new();
    orch.register_phase(PhaseKind::Core, &vec![], 1000).unwrap();
    orch.register_phase(PhaseKind::Wallet, &vec![PhaseKind::Core], 1000).unwrap();
    orch.start().unwrap();

    // The wallet phase is still waiting on its dependency when its
    // configuration turns out to be unavailable: no silent default, the
    // phase fails at once and the report says why.
    let (action, report) =
        orch.notify_construction_failed(1, "configuration unavailable".to_string());
    assert_eq!(action, PhaseAction::ReportCriticalProblem);
    let report = report.unwrap();
    assert_eq!(report.title, "Wallet phase setup failed");
    assert_eq!(report.detail, "configuration unavailable");

    // The phase is done: it never becomes ready and ignores later events.
    assert_eq!(orch.phase_status(1), PhaseStatus::Pending);
    assert_eq!(orch.poll_dependency(1), PhaseAction::NoAction);
    assert_eq!(orch.notify_body_result(1, Ok(())).0, PhaseAction::NoAction);
    assert!(!orch.confirm_finalized(1, &completed_single_step_stepper()));

    // A second construction-failure observation reports nothing more.
    let (action, report) = orch.notify_construction_failed(1, "again".to_string());
    assert_eq!(action, PhaseAction::NoAction);
    assert!(report.is_none());
}

#[test]
fn global_shutdown_mid_body_exits_quietly() {
    let mut orch = Orchestrator::new();
    orch.register_phase(PhaseKind::Core, &vec![], 1000).unwrap();
    let actions = orch.start().unwrap();
    assert_eq!(actions[0], PhaseAction::RunBody);

    // Nothing to observe before the signal fires.
    assert_eq!(orch.observe_shutdown(0), PhaseAction::NoAction);

    orch.signal_global_shutdown();

    // The next suspension-point check sees the signal: quiet exit, no
    // critical-problem report, no status write.
    assert_eq!(orch.observe_shutdown(0), PhaseAction::ExitQuietly);
    assert_eq!(orch.phase_status(0), PhaseStatus::Pending);

    // The task's exit is acknowledged once and teardown can finish.
    assert!(!orch.teardown_complete());
    assert!(orch.acknowledge_exit(0));
    assert!(!orch.acknowledge_exit(0));
    assert!(orch.teardown_complete());
}

#[test]
fn phase_groups_are_independent() {
    let mut orch = Orchestrator::new();
    orch.register_phase(PhaseKind::Core, &vec![], 1000).unwrap();
    orch.register_phase(PhaseKind::Node, &vec![], 1000).unwrap();
    orch.start().unwrap();

    orch.signal_phase_shutdown(0);
    assert_eq!(orch.observe_shutdown(0), PhaseAction::ExitQuietly);
    // The other phase's group is untouched and keeps running to success.
    assert_eq!(orch.observe_shutdown(1), PhaseAction::NoAction);
    let (action, _) = orch.notify_body_result(1, Ok(()));
    assert_eq!(action, PhaseAction::FinalizeSuccess);
    assert!(orch.confirm_finalized(1, &completed_single_step_stepper()));
    assert_eq!(orch.phase_status(1), PhaseStatus::Success);
}

#[test]
fn shutdown_during_dependency_wait_cancels_without_report() {
    let mut orch = Orchestrator::new();
    orch.register_phase(PhaseKind::Core, &vec![], 1000).unwrap();
    orch.register_phase(PhaseKind::Wallet, &vec![PhaseKind::Core], 1000).unwrap();
    orch.start().unwrap();

    assert_eq!(orch.poll_dependency(1), PhaseAction::AwaitDependency);
    orch.signal_global_shutdown();
    assert_eq!(orch.observe_shutdown(1), PhaseAction::ExitQuietly);
    assert_eq!(orch.phase_status(1), PhaseStatus::Pending);

    // Polling again changes nothing: the phase is done.
    assert_eq!(orch.poll_dependency(1), PhaseAction::NoAction);
}

#[test]
fn common_background_work_is_tracked_for_teardown() {
    let mut orch = Orchestrator::new();
    orch.register_phase(PhaseKind::Core, &vec![], 1000).unwrap();
    orch.start().unwrap();

    // The hourly update loop runs under the common group: teardown is not
    // complete until it exits too.
    assert!(orch.spawn_common_task());
    let (action, _) = orch.notify_body_result(0, Ok(()));
    assert_eq!(action, PhaseAction::FinalizeSuccess);
    assert!(orch.acknowledge_exit(0));
    assert!(!orch.teardown_complete());
    orch.common_task_exited();
    assert!(orch.teardown_complete());

    // Once the common group is shut down, no further work may be spawned.
    orch.signal_global_shutdown();
    assert!(!orch.spawn_common_task());
}
