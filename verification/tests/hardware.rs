use setup_engine::phase_hardware::{
    EngineType, HardwareBodyTask, HardwareSetupPhase, HardwareSetupPhaseAppConfiguration,
    HardwareSetupPhaseOutput, HARDWARE_SETUP_TIMEOUT_MILLIS,
};
use setup_engine::status::{PhaseStatus, PhaseStatusChannel};
use setup_engine::stepper::StepError;

#[test]
fn hardware_configuration_defaults_to_opencl() {
    let config = HardwareSetupPhaseAppConfiguration::default();
    assert_eq!(config.gpu_engine(), EngineType::OpenCl);
    assert_eq!(EngineType::default(), EngineType::OpenCl);
    let _output = HardwareSetupPhaseOutput::default();
    assert_eq!(HARDWARE_SETUP_TIMEOUT_MILLIS, 600000);
}

#[test]
fn hardware_body_hands_out_tasks_in_order() {
    let config = HardwareSetupPhaseAppConfiguration { gpu_engine: EngineType::Cuda };
    let mut phase = HardwareSetupPhase::new(config);
    assert_eq!(phase.gpu_engine(), EngineType::Cuda);

    let (task, ev) = phase.advance_body().unwrap();
    assert_eq!(task, HardwareBodyTask::InstallGpuMinerBinary);
    assert_eq!(ev.step_name, "BinariesGpuMiner");
    assert_eq!(ev.percentage, 20);

    let (task, ev) = phase.advance_body().unwrap();
    assert_eq!(task, HardwareBodyTask::InstallCpuMinerBinary);
    assert_eq!(ev.step_name, "BinariesCpuMiner");
    assert_eq!(ev.percentage, 40);

    let (task, ev) = phase.advance_body().unwrap();
    assert_eq!(task, HardwareBodyTask::DetectGpu);
    assert_eq!(ev.step_name, "DetectGPU");
    assert_eq!(ev.percentage, 60);

    let (task, ev) = phase.advance_body().unwrap();
    assert_eq!(task, HardwareBodyTask::RunCpuBenchmark);
    assert_eq!(ev.step_name, "RunCpuBenchmark");
    assert_eq!(ev.percentage, 80);

    // The body is complete: nothing further to perform.
    assert!(phase.advance_body().is_none());
}

#[test]
fn only_the_gpu_detection_probe_may_fail_harmlessly() {
    assert!(HardwareBodyTask::InstallGpuMinerBinary.failure_is_fatal());
    assert!(HardwareBodyTask::InstallCpuMinerBinary.failure_is_fatal());
    assert!(!HardwareBodyTask::DetectGpu.failure_is_fatal());
    assert!(HardwareBodyTask::RunCpuBenchmark.failure_is_fatal());
}

#[test]
fn done_step_resolves_before_any_publication() {
    let mut phase = HardwareSetupPhase::new(HardwareSetupPhaseAppConfiguration::default());
    for _ in 0..4 {
        phase.advance_body().unwrap();
    }
    let ev = phase.resolve_done_step();
    assert_eq!(ev.step_name, "Done");
    assert_eq!(ev.percentage, 100);
    assert_eq!(phase.progress_stepper.resolved(), 5);
}

#[test]
fn hardware_finalize_publishes_success_and_resolves_done() {
    let mut phase = HardwareSetupPhase::new(HardwareSetupPhaseAppConfiguration::default());
    for _ in 0..4 {
        phase.advance_body().unwrap();
    }
    let mut channel = PhaseStatusChannel::new();
    let ev = phase.finalize_setup(&mut channel);
    assert_eq!(ev.step_name, "Done");
    assert_eq!(ev.percentage, 100);
    assert_eq!(channel.get(), PhaseStatus::Success);
}

#[test]
fn hardware_stepper_enforces_the_declared_order() {
    let mut stepper = HardwareSetupPhase::create_progress_stepper();
    assert!(matches!(
        stepper.resolve_step(&"DetectGPU".to_string()),
        Err(StepError::OutOfOrder)
    ));
    let ev = stepper.resolve_step(&"BinariesGpuMiner".to_string()).unwrap();
    assert_eq!(ev.percentage, 20);
}
