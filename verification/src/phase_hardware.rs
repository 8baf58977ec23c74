//! The hardware bring-up phase: steps, configuration and body plan.
//!
//! This phase installs the miner binaries, detects the GPU and benchmarks
//! the CPU, reporting each milestone on its progress stepper. The external
//! work itself — downloads, probes, benchmarks — is the caller's: the phase
//! hands out one [`HardwareBodyTask`] at a time, in the fixed order its step
//! list declares, and resolves the matching step as it does so. The
//! configuration snapshot is read once at construction and never re-read
//! mid-run.

use vstd::prelude::*;

use crate::status::{PhaseStatus, PhaseStatusChannel};
use crate::stepper::{percentage_of, ProgressEvent, ProgressStepper, ProgressStepperBuilder};

verus! {

/// How long the hardware phase may run before it is declared timed out:
/// ten minutes, in milliseconds.
pub const HARDWARE_SETUP_TIMEOUT_MILLIS: u64 = 600000;

/// Which engine the GPU miner should use.
#[derive(Clone, Copy, Debug, PartialEq, Eq, Structural)]
pub enum EngineType {
    OpenCl,
    Cuda,
    Metal,
}

impl Default for EngineType {
    /// The engine assumed when no configuration says otherwise.
    fn default() -> (r: EngineType)
        ensures
            r == EngineType::OpenCl,
    {
        EngineType::OpenCl
    }
}

/// What the hardware phase hands back when its body completes. The phase
/// reports everything it learns through side channels (progress events and
/// its status channel), so the output carries no data.
#[derive(Clone, Copy, Debug, PartialEq, Eq, Structural)]
pub struct HardwareSetupPhaseOutput {}

impl Default for HardwareSetupPhaseOutput {
    fn default() -> (r: HardwareSetupPhaseOutput)
        ensures
            r == (HardwareSetupPhaseOutput {  }),
    {
        HardwareSetupPhaseOutput {  }
    }
}

/// The configuration snapshot the hardware phase reads once at
/// construction: which GPU engine to hand the detection work.
#[derive(Clone, Copy, Debug, PartialEq, Eq, Structural)]
pub struct HardwareSetupPhaseAppConfiguration {
    pub gpu_engine: EngineType,
}

impl HardwareSetupPhaseAppConfiguration {
    /// The configured GPU engine.
    pub fn gpu_engine(&self) -> (r: EngineType)
        ensures
            r == self.gpu_engine,
    {
        self.gpu_engine
    }
}

impl Default for HardwareSetupPhaseAppConfiguration {
    /// The baseline snapshot: the OpenCL engine. It is a starting point for
    /// building a configuration, never a stand-in for one that could not be
    /// read — an unavailable configuration store is fatal to the phase and
    /// is reported as failed immediately.
    fn default() -> (r: HardwareSetupPhaseAppConfiguration)
        ensures
            r.gpu_engine == EngineType::OpenCl,
    {
        HardwareSetupPhaseAppConfiguration { gpu_engine: EngineType::OpenCl }
    }
}

/// One unit of external body work, in the order the phase performs them.
#[derive(Clone, Copy, Debug, PartialEq, Eq, Structural)]
pub enum HardwareBodyTask {
    /// Make sure the GPU miner binary is installed.
    InstallGpuMinerBinary,
    /// Make sure the CPU miner binary is installed.
    InstallCpuMinerBinary,
    /// Probe for GPUs with the configured engine.
    DetectGpu,
    /// Run the CPU benchmark.
    RunCpuBenchmark,
}

impl HardwareBodyTask {
    /// Whether a failure of this unit of work is fatal to the phase.
    ///
    /// A failed GPU-detection probe is logged and ignored — a machine
    /// without a usable GPU still mines on the CPU — while a failed binary
    /// install or CPU benchmark aborts the body. The hardware-status
    /// monitor initialization that follows the probe is separate work of
    /// the same step, and its failure does abort: only the probe itself is
    /// forgiven.
    pub fn failure_is_fatal(&self) -> (r: bool)
        ensures
            r == (*self !is DetectGpu),
    {
        !matches!(self, HardwareBodyTask::DetectGpu)
    }
}

/// The hardware phase's step names, in resolution order. The first four
/// each announce one unit of body work; `Done` resolves at finalization.
pub open spec fn hardware_step_names() -> Seq<Seq<char>> {
    seq![
        "BinariesGpuMiner"@,
        "BinariesCpuMiner"@,
        "DetectGPU"@,
        "RunCpuBenchmark"@,
        "Done"@,
    ]
}

/// The body task announced by the step at position `k`.
pub open spec fn hardware_task_at(k: int) -> HardwareBodyTask {
    if k == 0 {
        HardwareBodyTask::InstallGpuMinerBinary
    } else if k == 1 {
        HardwareBodyTask::InstallCpuMinerBinary
    } else if k == 2 {
        HardwareBodyTask::DetectGpu
    } else {
        HardwareBodyTask::RunCpuBenchmark
    }
}

/// The hardware phase: its progress stepper and its configuration
/// snapshot, both exclusively owned by the phase for its whole run.
pub struct HardwareSetupPhase {
    pub progress_stepper: ProgressStepper,
    pub app_configuration: HardwareSetupPhaseAppConfiguration,
}

impl HardwareSetupPhase {
    /// The phase's stepper carries exactly the declared hardware steps.
    pub open spec fn wf(self) -> bool {
        &&& self.progress_stepper.wf()
        &&& self.progress_stepper.step_names() == hardware_step_names()
    }

    /// Whether every unit of body work has been announced and performed,
    /// so that only the final `Done` step remains.
    pub open spec fn body_complete(self) -> bool {
        self.progress_stepper.resolved_count() == hardware_step_names().len() - 1
    }

    /// The sealed hardware step list, nothing resolved yet.
    pub fn create_progress_stepper() -> (r: ProgressStepper)
        ensures
            r.wf(),
            r.step_names() == hardware_step_names(),
            r.resolved_count() == 0,
    {
        let r = ProgressStepperBuilder::new().add_step("BinariesGpuMiner".to_owned()).add_step(
            "BinariesCpuMiner".to_owned(),
        ).add_step("DetectGPU".to_owned()).add_step("RunCpuBenchmark".to_owned()).add_step(
            "Done".to_owned(),
        ).build();
        proof {
            assert(r.step_names() =~= hardware_step_names());
        }
        r
    }

    /// Build the phase around a configuration snapshot, read once from the
    /// configuration store for the phase's whole lifetime. A store that
    /// cannot be read yields no snapshot to build with: that failure is
    /// fatal to the phase and must be reported as failed immediately, not
    /// papered over with a default.
    pub fn new(app_configuration: HardwareSetupPhaseAppConfiguration) -> (r: HardwareSetupPhase)
        ensures
            r.wf(),
            r.progress_stepper.resolved_count() == 0,
            r.app_configuration == app_configuration,
    {
        HardwareSetupPhase {
            progress_stepper: Self::create_progress_stepper(),
            app_configuration,
        }
    }

    /// The configured GPU engine, as the detection work needs it.
    pub fn gpu_engine(&self) -> (r: EngineType)
        ensures
            r == self.app_configuration.gpu_engine,
    {
        self.app_configuration.gpu_engine
    }

    /// Announce and hand out the next unit of body work.
    ///
    /// While body steps remain, resolves the next step in order and returns
    /// the matching task together with the emitted progress event; the
    /// caller performs the task, then calls again. Once all four units are
    /// done the body is complete and `None` comes back, leaving only
    /// finalization.
    pub fn advance_body(&mut self) -> (r: Option<(HardwareBodyTask, ProgressEvent)>)
        requires
            old(self).wf(),
            old(self).progress_stepper.resolved_count() < hardware_step_names().len(),
        ensures
            final(self).wf(),
            final(self).app_configuration == old(self).app_configuration,
            r is Some <==> old(self).progress_stepper.resolved_count() < hardware_step_names().len()
                - 1,
            r matches Some(p) ==> {
                &&& p.0 == hardware_task_at(old(self).progress_stepper.resolved_count())
                &&& final(self).progress_stepper.resolved_count() == old(
                    self,
                ).progress_stepper.resolved_count() + 1
                &&& p.1.step_name@ == hardware_step_names()[old(
                    self,
                ).progress_stepper.resolved_count()]
                &&& p.1.percentage as int == percentage_of(
                    final(self).progress_stepper.resolved_count(),
                    hardware_step_names().len() as int,
                )
            },
            r is None ==> *final(self) == *old(self) && old(self).body_complete(),
    {
        let k = self.progress_stepper.resolved();
        if k >= 4 {
            return None;
        }
        let step_name: String = if k == 0 {
            "BinariesGpuMiner".to_owned()
        } else if k == 1 {
            "BinariesCpuMiner".to_owned()
        } else if k == 2 {
            "DetectGPU".to_owned()
        } else {
            "RunCpuBenchmark".to_owned()
        };
        let task = if k == 0 {
            HardwareBodyTask::InstallGpuMinerBinary
        } else if k == 1 {
            HardwareBodyTask::InstallCpuMinerBinary
        } else if k == 2 {
            HardwareBodyTask::DetectGpu
        } else {
            HardwareBodyTask::RunCpuBenchmark
        };
        match self.progress_stepper.resolve_step(&step_name) {
            Ok(ev) => Some((task, ev)),
            Err(_) => None,
        }
    }

    /// Resolve the final `Done` step of a successfully completed body; its
    /// event reports one hundred percent. Under an orchestrator this comes
    /// first, and success is published only afterwards through the finalize
    /// confirmation, so a dependent never observes the phase ready while
    /// its final step is still pending.
    pub fn resolve_done_step(&mut self) -> (ev: ProgressEvent)
        requires
            old(self).wf(),
            old(self).body_complete(),
        ensures
            final(self).wf(),
            final(self).app_configuration == old(self).app_configuration,
            final(self).progress_stepper.resolved_count() == hardware_step_names().len(),
            ev.step_name@ == "Done"@,
            ev.percentage == 100,
    {
        let resolved = self.progress_stepper.resolve_step(&"Done".to_owned());
        proof {
            assert(hardware_step_names().len() == 5);
            assert(percentage_of(5, 5) == 100);
        }
        match resolved {
            Ok(ev) => ev,
            Err(_) => ProgressEvent { step_name: String::new(), percentage: 0 },
        }
    }

    /// Finalize a successfully completed body on the phase's own status
    /// channel: resolve the final `Done` step, and only then publish
    /// `Success` — waking every dependent, none of whom can have seen the
    /// phase ready before its checklist was complete.
    pub fn finalize_setup(&mut self, status_channel: &mut PhaseStatusChannel) -> (ev: ProgressEvent)
        requires
            old(self).wf(),
            old(self).body_complete(),
        ensures
            final(self).wf(),
            final(self).app_configuration == old(self).app_configuration,
            final(self).progress_stepper.resolved_count() == hardware_step_names().len(),
            final(status_channel).current() == old(status_channel).sent(PhaseStatus::Success),
            ev.step_name@ == "Done"@,
            ev.percentage == 100,
    {
        let ev = self.resolve_done_step();
        let _accepted = status_channel.send(PhaseStatus::Success);
        ev
    }
}

} // verus!
