//! Per-phase lifecycle driver.
//!
//! One driver tracks one phase instance through
//! `Constructed -> WaitingOnDeps -> RunningBody -> Done(outcome)`. The
//! driver is a pure state machine: the caller owns the real timers, the
//! dependency subscriptions and the body task, observes which of them fires
//! first, feeds that observation in as a [`PhaseEvent`], and performs the
//! [`PhaseAction`] handed back. The contracts pin the whole transition
//! relation, so the ordering, timeout-versus-completion and
//! cancellation-precedence rules are facts about the driver, not about any
//! particular runtime.

use vstd::prelude::*;

verus! {

/// Identity of a phase, from the closed set of subsystems the bring-up
/// sequence knows about. Used for logging, dependency lookup and
/// critical-problem messages.
#[derive(Clone, Copy, Debug, Hash, PartialEq, Eq, Structural)]
pub enum PhaseKind {
    Core,
    Hardware,
    Node,
    Wallet,
    Mining,
}

impl PhaseKind {
    /// Display name of the phase.
    pub fn name(&self) -> (r: String)
        ensures
            *self is Core ==> r@ == "Core"@,
            *self is Hardware ==> r@ == "Hardware"@,
            *self is Node ==> r@ == "Node"@,
            *self is Wallet ==> r@ == "Wallet"@,
            *self is Mining ==> r@ == "Mining"@,
    {
        match self {
            PhaseKind::Core => "Core".to_owned(),
            PhaseKind::Hardware => "Hardware".to_owned(),
            PhaseKind::Node => "Node".to_owned(),
            PhaseKind::Wallet => "Wallet".to_owned(),
            PhaseKind::Mining => "Mining".to_owned(),
        }
    }

    /// Title of this phase's critical-problem notifications, part of its
    /// static metadata.
    pub open spec fn spec_critical_problem_title(&self) -> Seq<char> {
        match *self {
            PhaseKind::Core => "Core phase setup failed"@,
            PhaseKind::Hardware => "Hardware phase setup failed"@,
            PhaseKind::Node => "Node phase setup failed"@,
            PhaseKind::Wallet => "Wallet phase setup failed"@,
            PhaseKind::Mining => "Mining phase setup failed"@,
        }
    }

    /// Description of this phase's critical-problem notifications.
    pub open spec fn spec_critical_problem_description(&self) -> Seq<char> {
        "The phase did not complete and the application may not be fully functional"@
    }

    /// Title of the critical-problem notification raised when this phase
    /// fails unrecoverably or times out.
    pub fn critical_problem_title(&self) -> (r: String)
        ensures
            r@ == self.spec_critical_problem_title(),
    {
        match self {
            PhaseKind::Core => "Core phase setup failed".to_owned(),
            PhaseKind::Hardware => "Hardware phase setup failed".to_owned(),
            PhaseKind::Node => "Node phase setup failed".to_owned(),
            PhaseKind::Wallet => "Wallet phase setup failed".to_owned(),
            PhaseKind::Mining => "Mining phase setup failed".to_owned(),
        }
    }

    /// Description of the critical-problem notification for this phase.
    pub fn critical_problem_description(&self) -> (r: String)
        ensures
            r@ == self.spec_critical_problem_description(),
    {
        "The phase did not complete and the application may not be fully functional".to_owned()
    }

    /// The full content of one critical-problem notification for this
    /// phase: the static title and description, and the detail of what
    /// went wrong — an error's text, or what budget ran out.
    pub fn critical_problem_report(&self, detail: String) -> (r: CriticalProblemReport)
        ensures
            r.title@ == self.spec_critical_problem_title(),
            r.description@ == self.spec_critical_problem_description(),
            r.detail@ == detail@,
    {
        CriticalProblemReport {
            title: self.critical_problem_title(),
            description: self.critical_problem_description(),
            detail,
        }
    }
}

/// What the critical-problem reporter is handed when a phase fails
/// unrecoverably or times out: the phase's static title and description,
/// and the detail of this particular failure.
#[derive(Clone, Debug)]
pub struct CriticalProblemReport {
    pub title: String,
    pub description: String,
    pub detail: String,
}

/// Terminal disposition of a phase run. Only `Succeeded` is ever reflected as
/// `Success` on the phase's status channel; the other three leave the channel
/// `Pending`, which dependents read as "never ready".
#[derive(Clone, Copy, Debug, PartialEq, Eq, Structural)]
pub enum PhaseOutcome {
    Succeeded,
    Failed,
    TimedOut,
    Cancelled,
}

/// Where a phase stands in its lifecycle.
#[derive(Clone, Copy, Debug, PartialEq, Eq, Structural)]
pub enum DriverState {
    /// Built, not yet launched.
    Constructed,
    /// Launched; waiting for each declared upstream phase to report success.
    WaitingOnDeps,
    /// All dependencies satisfied; the phase body is executing.
    RunningBody,
    /// Finished, one way or another. Final: no event moves the driver again.
    Done(PhaseOutcome),
}

/// An observation the caller feeds into the driver: whichever of the raced
/// futures — next dependency, shutdown signal, timeout timer, body —
/// resolved first.
#[derive(Clone, Copy, Debug, PartialEq, Eq, Structural)]
pub enum PhaseEvent {
    /// The upstream channel currently waited on has reported success.
    DependencySucceeded,
    /// The owning cancellation group's shutdown signal fired.
    ShutdownFired,
    /// The per-phase timeout elapsed.
    TimeoutFired,
    /// The phase body completed without error.
    BodyFinishedOk,
    /// The phase body completed with an error.
    BodyFinishedErr,
    /// The phase could not even be built — its configuration snapshot was
    /// unavailable. Fatal to the phase, before any dependency wait or body.
    ConstructionFailed,
}

/// What the caller must do next, as dictated by a transition.
#[derive(Clone, Copy, Debug, PartialEq, Eq, Structural)]
pub enum PhaseAction {
    /// Suspend on the next unmet dependency's status channel (racing the
    /// shutdown signal and the timeout).
    AwaitDependency,
    /// Start the phase body (racing the shutdown signal and the timeout).
    RunBody,
    /// Notify the critical-problem reporter with this phase's title and
    /// description, then stop; no success is published.
    ReportCriticalProblem,
    /// Publish success on the phase's own status channel, resolve the final
    /// step and push the phase-finished event.
    FinalizeSuccess,
    /// Stop silently: an intentional shutdown is not a fault, so nothing is
    /// reported and no status is published.
    ExitQuietly,
    /// Nothing: the event does not apply to the current state.
    NoAction,
}

/// Lifecycle state machine for one phase instance.
#[derive(Clone, Copy, Debug, PartialEq, Eq, Structural)]
pub struct PhaseDriver {
    pub kind: PhaseKind,
    pub dep_count: usize,
    pub deps_met: usize,
    pub timeout_millis: u64,
    pub state: DriverState,
}

impl PhaseDriver {
    /// Which phase this driver runs.
    pub open spec fn spec_kind(&self) -> PhaseKind {
        self.kind
    }

    /// How many upstream dependencies the phase declared.
    pub open spec fn spec_dep_count(&self) -> int {
        self.dep_count as int
    }

    /// How many of them have been observed successful so far.
    pub open spec fn spec_deps_met(&self) -> int {
        self.deps_met as int
    }

    /// The per-phase timeout budget, in milliseconds.
    pub open spec fn spec_timeout_millis(&self) -> u64 {
        self.timeout_millis
    }

    /// Current lifecycle state.
    pub open spec fn spec_state(&self) -> DriverState {
        self.state
    }

    /// Well-formedness, established by the constructor and preserved by
    /// every transition: dependencies met never outrun those declared, and a
    /// body only ever runs — or succeeds — with every dependency met. A
    /// timeout, a cancellation or a construction failure can strike earlier.
    pub open spec fn wf(&self) -> bool {
        &&& 0 <= self.spec_deps_met() <= self.spec_dep_count()
        &&& self.spec_state() is Constructed ==> self.spec_deps_met() == 0
        &&& self.spec_state() is WaitingOnDeps ==> self.spec_deps_met() < self.spec_dep_count()
        &&& self.spec_state() is RunningBody ==> self.spec_deps_met() == self.spec_dep_count()
        &&& self.spec_state() == DriverState::Done(PhaseOutcome::Succeeded)
            ==> self.spec_deps_met() == self.spec_dep_count()
    }

    /// The driver after launching: straight to the body when the phase has
    /// no dependencies, otherwise into the dependency wait. Launching any
    /// driver that is already past `Constructed` changes nothing.
    pub open spec fn launched(self) -> PhaseDriver {
        if self.state is Constructed {
            if self.dep_count == 0 {
                PhaseDriver { state: DriverState::RunningBody, ..self }
            } else {
                PhaseDriver { state: DriverState::WaitingOnDeps, ..self }
            }
        } else {
            self
        }
    }

    /// The action launching asks of the caller.
    pub open spec fn launch_action(self) -> PhaseAction {
        if self.state is Constructed {
            if self.dep_count == 0 {
                PhaseAction::RunBody
            } else {
                PhaseAction::AwaitDependency
            }
        } else {
            PhaseAction::NoAction
        }
    }

    /// The full transition relation: the driver after observing `ev`.
    ///
    /// Before the body, a construction failure — the phase could not build
    /// its configuration snapshot — is fatal at once: the phase fails and a
    /// critical problem is reported, with no silent fallback. While waiting
    /// on dependencies: each dependency success advances the count, and the
    /// last one starts the body; a shutdown cancels silently; a timeout ends
    /// the phase as timed out (a permanently stuck upstream is thus bounded
    /// by this phase's own timeout — upstream failure is not propagated any
    /// faster, a deliberate policy carried over as is). While the body runs:
    /// its success finalizes the phase, its error fails the phase, a timeout
    /// wins over any later completion, and a shutdown cancels silently. A
    /// finished driver ignores every event.
    pub open spec fn stepped(self, ev: PhaseEvent) -> PhaseDriver {
        match self.state {
            DriverState::Constructed => match ev {
                PhaseEvent::ShutdownFired => PhaseDriver {
                    state: DriverState::Done(PhaseOutcome::Cancelled),
                    ..self
                },
                PhaseEvent::ConstructionFailed => PhaseDriver {
                    state: DriverState::Done(PhaseOutcome::Failed),
                    ..self
                },
                _ => self,
            },
            DriverState::WaitingOnDeps => match ev {
                PhaseEvent::DependencySucceeded => {
                    if self.deps_met + 1 == self.dep_count {
                        PhaseDriver {
                            deps_met: (self.deps_met + 1) as usize,
                            state: DriverState::RunningBody,
                            ..self
                        }
                    } else {
                        PhaseDriver { deps_met: (self.deps_met + 1) as usize, ..self }
                    }
                },
                PhaseEvent::ShutdownFired => PhaseDriver {
                    state: DriverState::Done(PhaseOutcome::Cancelled),
                    ..self
                },
                PhaseEvent::TimeoutFired => PhaseDriver {
                    state: DriverState::Done(PhaseOutcome::TimedOut),
                    ..self
                },
                PhaseEvent::ConstructionFailed => PhaseDriver {
                    state: DriverState::Done(PhaseOutcome::Failed),
                    ..self
                },
                _ => self,
            },
            DriverState::RunningBody => match ev {
                PhaseEvent::BodyFinishedOk => PhaseDriver {
                    state: DriverState::Done(PhaseOutcome::Succeeded),
                    ..self
                },
                PhaseEvent::BodyFinishedErr => PhaseDriver {
                    state: DriverState::Done(PhaseOutcome::Failed),
                    ..self
                },
                PhaseEvent::TimeoutFired => PhaseDriver {
                    state: DriverState::Done(PhaseOutcome::TimedOut),
                    ..self
                },
                PhaseEvent::ShutdownFired => PhaseDriver {
                    state: DriverState::Done(PhaseOutcome::Cancelled),
                    ..self
                },
                _ => self,
            },
            DriverState::Done(_) => self,
        }
    }

    /// The action the transition on `ev` asks of the caller.
    pub open spec fn step_action(self, ev: PhaseEvent) -> PhaseAction {
        match self.state {
            DriverState::Constructed => match ev {
                PhaseEvent::ShutdownFired => PhaseAction::ExitQuietly,
                PhaseEvent::ConstructionFailed => PhaseAction::ReportCriticalProblem,
                _ => PhaseAction::NoAction,
            },
            DriverState::WaitingOnDeps => match ev {
                PhaseEvent::DependencySucceeded => {
                    if self.deps_met + 1 == self.dep_count {
                        PhaseAction::RunBody
                    } else {
                        PhaseAction::AwaitDependency
                    }
                },
                PhaseEvent::ShutdownFired => PhaseAction::ExitQuietly,
                PhaseEvent::TimeoutFired => PhaseAction::ReportCriticalProblem,
                PhaseEvent::ConstructionFailed => PhaseAction::ReportCriticalProblem,
                _ => PhaseAction::NoAction,
            },
            DriverState::RunningBody => match ev {
                PhaseEvent::BodyFinishedOk => PhaseAction::FinalizeSuccess,
                PhaseEvent::BodyFinishedErr => PhaseAction::ReportCriticalProblem,
                PhaseEvent::TimeoutFired => PhaseAction::ReportCriticalProblem,
                PhaseEvent::ShutdownFired => PhaseAction::ExitQuietly,
                _ => PhaseAction::NoAction,
            },
            DriverState::Done(_) => PhaseAction::NoAction,
        }
    }

    /// A freshly constructed driver for `kind`, declaring `dep_count`
    /// upstream dependencies and a body budget of `timeout_millis`.
    pub fn new(kind: PhaseKind, dep_count: usize, timeout_millis: u64) -> (r: PhaseDriver)
        ensures
            r.wf(),
            r.spec_kind() == kind,
            r.spec_dep_count() == dep_count as int,
            r.spec_deps_met() == 0,
            r.spec_timeout_millis() == timeout_millis,
            r.spec_state() is Constructed,
    {
        PhaseDriver { kind, dep_count, deps_met: 0, timeout_millis, state: DriverState::Constructed }
    }

    /// Launch the driver: enter the dependency wait, or the body directly
    /// when no dependencies were declared.
    pub fn launch(&mut self) -> (action: PhaseAction)
        requires
            old(self).wf(),
        ensures
            final(self).wf(),
            *final(self) == old(self).launched(),
            action == old(self).launch_action(),
    {
        if matches!(self.state, DriverState::Constructed) {
            if self.dep_count == 0 {
                self.state = DriverState::RunningBody;
                PhaseAction::RunBody
            } else {
                self.state = DriverState::WaitingOnDeps;
                PhaseAction::AwaitDependency
            }
        } else {
            PhaseAction::NoAction
        }
    }

    /// Feed one observed event into the driver and learn what to do next.
    pub fn on_event(&mut self, ev: PhaseEvent) -> (action: PhaseAction)
        requires
            old(self).wf(),
        ensures
            final(self).wf(),
            *final(self) == old(self).stepped(ev),
            action == old(self).step_action(ev),
    {
        match self.state {
            DriverState::Constructed => match ev {
                PhaseEvent::ShutdownFired => {
                    self.state = DriverState::Done(PhaseOutcome::Cancelled);
                    PhaseAction::ExitQuietly
                },
                PhaseEvent::ConstructionFailed => {
                    self.state = DriverState::Done(PhaseOutcome::Failed);
                    PhaseAction::ReportCriticalProblem
                },
                _ => PhaseAction::NoAction,
            },
            DriverState::WaitingOnDeps => match ev {
                PhaseEvent::DependencySucceeded => {
                    self.deps_met = self.deps_met + 1;
                    if self.deps_met == self.dep_count {
                        self.state = DriverState::RunningBody;
                        PhaseAction::RunBody
                    } else {
                        PhaseAction::AwaitDependency
                    }
                },
                PhaseEvent::ShutdownFired => {
                    self.state = DriverState::Done(PhaseOutcome::Cancelled);
                    PhaseAction::ExitQuietly
                },
                PhaseEvent::TimeoutFired => {
                    self.state = DriverState::Done(PhaseOutcome::TimedOut);
                    PhaseAction::ReportCriticalProblem
                },
                PhaseEvent::ConstructionFailed => {
                    self.state = DriverState::Done(PhaseOutcome::Failed);
                    PhaseAction::ReportCriticalProblem
                },
                _ => PhaseAction::NoAction,
            },
            DriverState::RunningBody => match ev {
                PhaseEvent::BodyFinishedOk => {
                    self.state = DriverState::Done(PhaseOutcome::Succeeded);
                    PhaseAction::FinalizeSuccess
                },
                PhaseEvent::BodyFinishedErr => {
                    self.state = DriverState::Done(PhaseOutcome::Failed);
                    PhaseAction::ReportCriticalProblem
                },
                PhaseEvent::TimeoutFired => {
                    self.state = DriverState::Done(PhaseOutcome::TimedOut);
                    PhaseAction::ReportCriticalProblem
                },
                PhaseEvent::ShutdownFired => {
                    self.state = DriverState::Done(PhaseOutcome::Cancelled);
                    PhaseAction::ExitQuietly
                },
                _ => PhaseAction::NoAction,
            },
            DriverState::Done(_) => PhaseAction::NoAction,
        }
    }

    /// Current lifecycle state, for the caller's dispatch loop.
    pub fn state(&self) -> (r: DriverState)
        ensures
            r == self.spec_state(),
    {
        self.state
    }

    /// Which phase this driver runs.
    pub fn kind(&self) -> (r: PhaseKind)
        ensures
            r == self.spec_kind(),
    {
        self.kind
    }

    /// The per-phase timeout budget, in milliseconds.
    pub fn timeout_millis(&self) -> (r: u64)
        ensures
            r == self.spec_timeout_millis(),
    {
        self.timeout_millis
    }

    /// The driver after an entire sequence of observed events, oldest first.
    pub open spec fn stepped_all(self, evs: Seq<PhaseEvent>) -> PhaseDriver
        decreases evs.len(),
    {
        if evs.len() == 0 {
            self
        } else {
            self.stepped(evs.first()).stepped_all(evs.drop_first())
        }
    }

    /// A phase reports at most one terminal disposition: once the driver is
    /// done, no sequence of further events — a late body completion after a
    /// timeout included — moves it or asks anything more of the caller.
    pub proof fn lemma_terminal_disposition_is_final(self, evs: Seq<PhaseEvent>)
        requires
            self.spec_state() is Done,
        ensures
            self.stepped_all(evs) == self,
            forall|ev: PhaseEvent| self.stepped(ev) == self
                && #[trigger] self.step_action(ev) == PhaseAction::NoAction,
        decreases evs.len(),
    {
        if evs.len() > 0 {
            self.lemma_terminal_disposition_is_final(evs.drop_first());
        }
    }

    /// Timeout exclusivity: if the timeout has fired, the body's eventual
    /// completion never also finalizes success — nothing is ever written to
    /// the status channel of a timed-out phase.
    pub proof fn lemma_timeout_excludes_success(self, evs: Seq<PhaseEvent>)
        requires
            self.spec_state() == DriverState::Done(PhaseOutcome::TimedOut),
        ensures
            self.stepped_all(evs).spec_state() == DriverState::Done(PhaseOutcome::TimedOut),
            forall|ev: PhaseEvent|
                #[trigger] self.step_action(ev) != PhaseAction::FinalizeSuccess,
    {
        self.lemma_terminal_disposition_is_final(evs);
    }

    /// Cancellation precedence: a shutdown observed while the phase waits on
    /// its dependencies (or runs its body) ends the phase as cancelled,
    /// quietly — no critical problem is reported, no status is published.
    pub proof fn lemma_shutdown_is_quiet(self)
        requires
            self.spec_state() is WaitingOnDeps || self.spec_state() is RunningBody
                || self.spec_state() is Constructed,
        ensures
            self.stepped(PhaseEvent::ShutdownFired).spec_state()
                == DriverState::Done(PhaseOutcome::Cancelled),
            self.step_action(PhaseEvent::ShutdownFired) == PhaseAction::ExitQuietly,
            self.step_action(PhaseEvent::ShutdownFired) != PhaseAction::ReportCriticalProblem,
            self.step_action(PhaseEvent::ShutdownFired) != PhaseAction::FinalizeSuccess,
    {
    }

    /// An unavailable configuration is fatal at once: observed before the
    /// body — whether the phase is freshly constructed or waiting on its
    /// dependencies — a construction failure ends the phase as failed and
    /// asks for a critical-problem report immediately, with no fallback.
    pub proof fn lemma_construction_failure_is_fatal(self)
        requires
            self.spec_state() is Constructed || self.spec_state() is WaitingOnDeps,
        ensures
            self.stepped(PhaseEvent::ConstructionFailed).spec_state() == DriverState::Done(
                PhaseOutcome::Failed,
            ),
            self.step_action(PhaseEvent::ConstructionFailed)
                == PhaseAction::ReportCriticalProblem,
    {
    }

    /// The body starts only once every declared dependency has been met: any
    /// transition that lands in `RunningBody` — equally, any transition that
    /// asks the caller to run the body — carries a full dependency count.
    pub proof fn lemma_body_requires_all_deps(self, ev: PhaseEvent)
        requires
            self.wf(),
        ensures
            self.stepped(ev).spec_state() is RunningBody
                ==> self.stepped(ev).spec_deps_met() == self.spec_dep_count(),
            self.step_action(ev) == PhaseAction::RunBody
                ==> self.stepped(ev).spec_state() is RunningBody,
    {
    }
}

} // verus!
