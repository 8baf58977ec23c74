use setup_engine::cancel::CancellationGroup;
use setup_engine::phase::{DriverState, PhaseAction, PhaseDriver, PhaseEvent, PhaseKind, PhaseOutcome};
use setup_engine::status::{PhaseStatus, PhaseStatusChannel};
use setup_engine::stepper::{ProgressStepperBuilder, StepError};

fn three_step_stepper() -> setup_engine::stepper::ProgressStepper {
    ProgressStepperBuilder::new()
        .add_step("first".to_string())
        .add_step("second".to_string())
        .add_step("third".to_string())
        .build()
}

#[test]
fn stepper_resolves_in_declared_order() {
    let mut stepper = three_step_stepper();
    assert_eq!(stepper.resolved(), 0);
    assert!(!stepper.is_complete());

    let ev = stepper.resolve_step(&"first".to_string()).unwrap();
    assert_eq!(ev.step_name, "first");
    assert_eq!(ev.percentage, 33);

    let ev = stepper.resolve_step(&"second".to_string()).unwrap();
    assert_eq!(ev.step_name, "second");
    assert_eq!(ev.percentage, 66);

    let ev = stepper.resolve_step(&"third".to_string()).unwrap();
    assert_eq!(ev.step_name, "third");
    assert_eq!(ev.percentage, 100);
    assert!(stepper.is_complete());
}

#[test]
fn stepper_rejects_out_of_order_resolution() {
    let mut stepper = three_step_stepper();

    // Naming a later step than the cursor stands on is rejected.
    assert!(matches!(
        stepper.resolve_step(&"second".to_string()),
        Err(StepError::OutOfOrder)
    ));
    assert_eq!(stepper.resolved(), 0);

    // Resolving the same step twice is rejected the second time.
    stepper.resolve_step(&"first".to_string()).unwrap();
    assert!(matches!(
        stepper.resolve_step(&"first".to_string()),
        Err(StepError::OutOfOrder)
    ));
    assert_eq!(stepper.resolved(), 1);

    // A name that is not a step at all is rejected.
    assert!(matches!(
        stepper.resolve_step(&"elsewhere".to_string()),
        Err(StepError::OutOfOrder)
    ));
    assert_eq!(stepper.resolved(), 1);
}

#[test]
fn stepper_rejects_past_the_end() {
    let mut stepper = ProgressStepperBuilder::new().add_step("only".to_string()).build();
    let ev = stepper.resolve_step(&"only".to_string()).unwrap();
    assert_eq!(ev.percentage, 100);
    assert!(matches!(
        stepper.resolve_step(&"only".to_string()),
        Err(StepError::OutOfOrder)
    ));
}

#[test]
fn status_channel_first_terminal_write_wins() {
    let mut channel = PhaseStatusChannel::new();
    assert_eq!(channel.get(), PhaseStatus::Pending);
    assert!(!channel.get().is_terminal());

    // Writing Pending is not a terminal write and is rejected.
    assert!(!channel.send(PhaseStatus::Pending));
    assert_eq!(channel.get(), PhaseStatus::Pending);

    assert!(channel.send(PhaseStatus::Success));
    assert_eq!(channel.get(), PhaseStatus::Success);
    assert!(channel.get().is_success());

    // The value is terminal now: no later write moves it.
    assert!(!channel.send(PhaseStatus::Failed));
    assert_eq!(channel.get(), PhaseStatus::Success);
    assert!(!channel.send(PhaseStatus::Success));
    assert_eq!(channel.get(), PhaseStatus::Success);
}

#[test]
fn shutdown_signal_is_idempotent() {
    let mut group = CancellationGroup::new();
    group.spawn_task();
    group.signal_shutdown();
    let after_once = (group.check_shutdown(), group.all_tasks_exited());

    group.signal_shutdown();
    let after_twice = (group.check_shutdown(), group.all_tasks_exited());
    assert_eq!(after_once, after_twice);
    assert!(group.check_shutdown());
}

#[test]
fn cancellation_group_tracks_tasks() {
    let mut group = CancellationGroup::new();
    assert!(group.all_tasks_exited());
    assert!(group.spawn_task());
    assert!(group.spawn_task());
    assert!(!group.all_tasks_exited());
    group.task_exited();
    group.task_exited();
    assert!(group.all_tasks_exited());

    // A group is never reused after its signal: spawning is refused.
    group.signal_shutdown();
    assert!(!group.spawn_task());
    assert!(group.all_tasks_exited());
}

#[test]
fn driver_waits_for_every_dependency_before_the_body() {
    let mut driver = PhaseDriver::new(PhaseKind::Node, 2, 1000);
    assert_eq!(driver.state(), DriverState::Constructed);

    assert_eq!(driver.launch(), PhaseAction::AwaitDependency);
    assert_eq!(driver.state(), DriverState::WaitingOnDeps);

    assert_eq!(
        driver.on_event(PhaseEvent::DependencySucceeded),
        PhaseAction::AwaitDependency
    );
    assert_eq!(driver.state(), DriverState::WaitingOnDeps);

    assert_eq!(
        driver.on_event(PhaseEvent::DependencySucceeded),
        PhaseAction::RunBody
    );
    assert_eq!(driver.state(), DriverState::RunningBody);

    assert_eq!(
        driver.on_event(PhaseEvent::BodyFinishedOk),
        PhaseAction::FinalizeSuccess
    );
    assert_eq!(driver.state(), DriverState::Done(PhaseOutcome::Succeeded));
}

#[test]
fn driver_with_no_dependencies_runs_at_once() {
    let mut driver = PhaseDriver::new(PhaseKind::Core, 0, 1000);
    assert_eq!(driver.launch(), PhaseAction::RunBody);
    assert_eq!(driver.state(), DriverState::RunningBody);
}

#[test]
fn driver_timeout_excludes_later_success() {
    let mut driver = PhaseDriver::new(PhaseKind::Wallet, 0, 50);
    assert_eq!(driver.timeout_millis(), 50);
    driver.launch();

    assert_eq!(
        driver.on_event(PhaseEvent::TimeoutFired),
        PhaseAction::ReportCriticalProblem
    );
    assert_eq!(driver.state(), DriverState::Done(PhaseOutcome::TimedOut));

    // The body finishing afterwards must not finalize success.
    assert_eq!(driver.on_event(PhaseEvent::BodyFinishedOk), PhaseAction::NoAction);
    assert_eq!(driver.state(), DriverState::Done(PhaseOutcome::TimedOut));
}

#[test]
fn driver_body_error_reports_a_critical_problem() {
    let mut driver = PhaseDriver::new(PhaseKind::Mining, 0, 1000);
    driver.launch();
    assert_eq!(
        driver.on_event(PhaseEvent::BodyFinishedErr),
        PhaseAction::ReportCriticalProblem
    );
    assert_eq!(driver.state(), DriverState::Done(PhaseOutcome::Failed));
}

#[test]
fn driver_shutdown_while_waiting_exits_quietly() {
    let mut driver = PhaseDriver::new(PhaseKind::Wallet, 1, 1000);
    driver.launch();
    assert_eq!(driver.state(), DriverState::WaitingOnDeps);

    assert_eq!(driver.on_event(PhaseEvent::ShutdownFired), PhaseAction::ExitQuietly);
    assert_eq!(driver.state(), DriverState::Done(PhaseOutcome::Cancelled));
}

#[test]
fn driver_construction_failure_is_fatal_before_the_body() {
    // Freshly constructed: an unavailable configuration fails the phase at
    // once, with a report and no fallback.
    let mut driver = PhaseDriver::new(PhaseKind::Node, 0, 1000);
    assert_eq!(
        driver.on_event(PhaseEvent::ConstructionFailed),
        PhaseAction::ReportCriticalProblem
    );
    assert_eq!(driver.state(), DriverState::Done(PhaseOutcome::Failed));

    // The same holds while the phase is still waiting on dependencies.
    let mut driver = PhaseDriver::new(PhaseKind::Wallet, 1, 1000);
    driver.launch();
    assert_eq!(
        driver.on_event(PhaseEvent::ConstructionFailed),
        PhaseAction::ReportCriticalProblem
    );
    assert_eq!(driver.state(), DriverState::Done(PhaseOutcome::Failed));

    // A finished driver ignores it.
    assert_eq!(driver.on_event(PhaseEvent::ConstructionFailed), PhaseAction::NoAction);
}

#[test]
fn critical_problem_report_carries_detail() {
    let report = PhaseKind::Mining.critical_problem_report("engine missing".to_string());
    assert_eq!(report.title, "Mining phase setup failed");
    assert_eq!(
        report.description,
        "The phase did not complete and the application may not be fully functional"
    );
    assert_eq!(report.detail, "engine missing");
}

#[test]
fn phase_kind_metadata_names_the_phase() {
    assert_eq!(PhaseKind::Hardware.name(), "Hardware");
    assert_eq!(
        PhaseKind::Hardware.critical_problem_title(),
        "Hardware phase setup failed"
    );
    assert_eq!(
        PhaseKind::Core.critical_problem_description(),
        "The phase did not complete and the application may not be fully functional"
    );
}
