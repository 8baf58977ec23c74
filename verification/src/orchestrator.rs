//! The orchestrator: registration, wiring and event routing for all phases.
//!
//! Each phase is registered with its upstream set before startup; its
//! dependencies must already be registered, so the dependency graph is
//! acyclic by construction. Starting the orchestration launches every
//! driver and registers its task under the phase's cancellation group. From
//! then on the caller — who owns the real timers, channels and tasks —
//! routes observations here: dependency polls, body results, timeouts and
//! shutdown checks. The orchestrator owns every phase's status channel and
//! is the only writer to them, so cross-phase ordering is a proved
//! invariant: a phase's body runs only once every declared upstream channel
//! holds `Success`.

use vstd::prelude::*;

use crate::cancel::CancellationGroup;
use crate::phase::{
    CriticalProblemReport, DriverState, PhaseAction, PhaseDriver, PhaseEvent, PhaseKind,
    PhaseOutcome,
};
use crate::status::{PhaseStatus, PhaseStatusChannel};
use crate::stepper::ProgressStepper;

verus! {

/// Why a registration or start request was refused.
#[derive(Clone, Copy, Debug, PartialEq, Eq, Structural)]
pub enum OrchestratorError {
    /// The orchestration has already started; the phase set is fixed.
    AlreadyStarted,
    /// A phase of this kind is already registered.
    DuplicatePhase,
    /// A declared dependency names a phase that is not registered yet.
    UnknownDependency,
}

/// Everything the orchestrator keeps per phase: identity, upstream indices,
/// the lifecycle driver, the status channel this phase publishes on, the
/// phase's cancellation group, and whether its driver task is still live.
pub struct PhaseEntry {
    pub kind: PhaseKind,
    pub deps: Vec<usize>,
    pub driver: PhaseDriver,
    pub channel: PhaseStatusChannel,
    pub group: CancellationGroup,
    pub task_running: bool,
}

/// Owns one entry per registered phase, plus the common cancellation group
/// whose shutdown counts as a global signal for every phase.
pub struct Orchestrator {
    pub phases: Vec<PhaseEntry>,
    pub common_group: CancellationGroup,
    pub started: bool,
}

impl Orchestrator {
    /// Number of registered phases.
    pub open spec fn phase_count(self) -> int {
        self.phases@.len() as int
    }

    /// The entry of phase `i`.
    pub open spec fn entry(self, i: int) -> PhaseEntry {
        self.phases@[i]
    }

    /// Whether some registered phase has this kind.
    pub open spec fn kind_registered(self, kind: PhaseKind) -> bool {
        exists|i: int| 0 <= i < self.phase_count() && self.entry(i).kind == kind
    }

    /// No two phases share a kind.
    pub open spec fn kinds_unique(self) -> bool {
        forall|i: int, j: int|
            0 <= i < self.phase_count() && 0 <= j < self.phase_count() && i != j
                ==> self.entry(i).kind != self.entry(j).kind
    }

    /// Every dependency points at an earlier entry: the graph is acyclic by
    /// construction, because a phase can only depend on phases registered
    /// before it.
    pub open spec fn deps_precede(self) -> bool {
        forall|i: int, k: int|
            0 <= i < self.phase_count() && 0 <= k < self.entry(i).deps@.len()
                ==> (#[trigger] self.entry(i).deps@[k]) < i
    }

    /// Index of phase `i`'s `k`-th dependency.
    pub open spec fn dep_index(self, i: int, k: int) -> int {
        self.entry(i).deps@[k] as int
    }

    /// Per-entry invariant. Besides structural soundness it carries the two
    /// facts the engine is built around: a phase's status channel holds
    /// `Success` only if its driver succeeded (nothing else is ever
    /// published there — publication itself waits for the finalize
    /// confirmation), and every dependency counted as met really has been
    /// observed `Success` on its channel.
    pub open spec fn entry_wf(self, i: int) -> bool {
        let e = self.entry(i);
        &&& e.driver.wf()
        &&& e.driver.spec_kind() == e.kind
        &&& e.driver.spec_dep_count() == e.deps@.len()
        &&& (e.channel.current() is Success ==> e.driver.spec_state() == DriverState::Done(
            PhaseOutcome::Succeeded,
        ))
        &&& e.channel.current() !is Failed
        &&& (forall|k: int| 0 <= k < e.driver.spec_deps_met()
            ==> (#[trigger] self.entry(self.dep_index(i, k)).channel.current()) is Success)
        &&& (!self.started ==> e.driver.spec_state() is Constructed)
        &&& (!self.started ==> !e.task_running)
        &&& e.group.live_count() == if e.task_running { 1int } else { 0int }
    }

    /// Invariant of the whole orchestrator.
    pub open spec fn wf(self) -> bool {
        &&& self.kinds_unique()
        &&& self.deps_precede()
        &&& forall|i: int| 0 <= i < self.phase_count() ==> #[trigger] self.entry_wf(i)
    }

    /// An empty orchestrator: no phases, not started, common group quiet.
    pub fn new() -> (r: Orchestrator)
        ensures
            r.wf(),
            r.phase_count() == 0,
            !r.started,
            !r.common_group.is_shutdown(),
    {
        Orchestrator {
            phases: Vec::new(),
            common_group: CancellationGroup::new(),
            started: false,
        }
    }

    /// Look a phase up by kind.
    pub fn find_phase(&self, kind: PhaseKind) -> (r: Option<usize>)
        ensures
            r matches Some(i) ==> 0 <= i < self.phase_count() && self.entry(
                i as int,
            ).kind == kind,
            r is Some <==> self.kind_registered(kind),
    {
        let mut i: usize = 0;
        while i < self.phases.len()
            invariant
                i <= self.phases@.len(),
                forall|j: int| 0 <= j < i ==> self.entry(j).kind != kind,
            decreases self.phases@.len() - i,
        {
            if self.phases[i].kind == kind {
                return Some(i);
            }
            i = i + 1;
        }
        None
    }

    /// Declare a phase, its upstream set and its timeout budget, before
    /// startup.
    ///
    /// Accepted exactly when the orchestration has not started, no phase of
    /// this kind exists yet, and every declared dependency is already
    /// registered — which is what keeps the graph acyclic. On acceptance the
    /// phase is appended with a fresh driver, a pending status channel and a
    /// quiet cancellation group, and its dependency list resolves each
    /// declared kind in order.
    pub fn register_phase(
        &mut self,
        kind: PhaseKind,
        dep_kinds: &Vec<PhaseKind>,
        timeout_millis: u64,
    ) -> (r: Result<(), OrchestratorError>)
        requires
            old(self).wf(),
        ensures
            final(self).wf(),
            r is Ok <==> (!old(self).started && !old(self).kind_registered(kind) && forall|
                j: int,
            |
                0 <= j < dep_kinds@.len() ==> old(self).kind_registered(
                    #[trigger] dep_kinds@[j],
                )),
            old(self).started ==> r == Result::<(), OrchestratorError>::Err(
                OrchestratorError::AlreadyStarted,
            ),
            !old(self).started && old(self).kind_registered(kind) ==> r == Result::<
                (),
                OrchestratorError,
            >::Err(OrchestratorError::DuplicatePhase),
            r is Err ==> *final(self) == *old(self),
            r is Ok ==> {
                let n = old(self).phase_count();
                &&& final(self).phase_count() == n + 1
                &&& final(self).phases@.take(n) == old(self).phases@
                &&& final(self).started == old(self).started
                &&& final(self).common_group == old(self).common_group
                &&& final(self).entry(n).kind == kind
                &&& final(self).entry(n).driver.spec_state() is Constructed
                &&& final(self).entry(n).driver.spec_timeout_millis() == timeout_millis
                &&& final(self).entry(n).deps@.len() == dep_kinds@.len()
                &&& final(self).entry(n).channel.current() is Pending
                &&& !final(self).entry(n).group.is_shutdown()
                &&& final(self).entry(n).group.live_count() == 0
                &&& !final(self).entry(n).task_running
                &&& forall|j: int| 0 <= j < dep_kinds@.len() ==> final(self).entry(
                    final(self).dep_index(n, j),
                ).kind == #[trigger] dep_kinds@[j]
            },
    {
        if self.started {
            return Err(OrchestratorError::AlreadyStarted);
        }
        if self.find_phase(kind).is_some() {
            return Err(OrchestratorError::DuplicatePhase);
        }
        let mut deps: Vec<usize> = Vec::new();
        let mut j: usize = 0;
        while j < dep_kinds.len()
            invariant
                old(self).wf(),
                !old(self).started,
                !old(self).kind_registered(kind),
                j <= dep_kinds@.len(),
                deps@.len() == j as int,
                forall|t: int| 0 <= t < j ==> (#[trigger] deps@[t]) < self.phases@.len()
                    && self.entry(deps@[t] as int).kind == dep_kinds@[t],
                forall|t: int| 0 <= t < j ==> old(self).kind_registered(
                    #[trigger] dep_kinds@[t],
                ),
                *self == *old(self),
            decreases dep_kinds@.len() - j,
        {
            match self.find_phase(dep_kinds[j]) {
                Some(d) => {
                    deps.push(d);
                },
                None => {
                    return Err(OrchestratorError::UnknownDependency);
                },
            }
            j = j + 1;
        }
        let ghost n = self.phases@.len() as int;
        let ghost deps_view = deps@;
        let dep_count = deps.len();
        let entry = PhaseEntry {
            kind,
            deps,
            driver: PhaseDriver::new(kind, dep_count, timeout_millis),
            channel: PhaseStatusChannel::new(),
            group: CancellationGroup::new(),
            task_running: false,
        };
        self.phases.push(entry);
        proof {
            assert(self.phases@.take(n) =~= old(self).phases@);
            assert(self.entry(n).driver.wf());
            assert(self.entry_wf(n));
            assert forall|i: int, j: int|
                0 <= i < self.phase_count() && 0 <= j < self.phase_count() && i
                    != j implies self.entry(i).kind != self.entry(j).kind by {
                if i < n && j < n {
                    assert(old(self).entry(i).kind != old(self).entry(j).kind);
                } else if i == n && j < n {
                    assert(old(self).entry(j).kind != kind);
                } else if j == n && i < n {
                    assert(old(self).entry(i).kind != kind);
                }
            }
            assert forall|i: int, k: int|
                0 <= i < self.phase_count() && 0 <= k < self.entry(i).deps@.len() implies (
            #[trigger] self.entry(i).deps@[k]) < i by {
                if i < n {
                    assert(old(self).entry(i).deps@[k] < i);
                } else {
                    assert(self.entry(n).deps@ == deps_view);
                    assert(deps_view[k] < n);
                }
            }
            assert forall|i: int| 0 <= i < self.phase_count() implies #[trigger] self.entry_wf(
                i,
            ) by {
                if i < n {
                    assert(old(self).entry_wf(i));
                    assert(self.entry(i) == old(self).entry(i));
                    assert forall|k: int|
                        0 <= k < self.entry(i).driver.spec_deps_met() implies (
                    #[trigger] self.entry(self.dep_index(i, k)).channel.current()) is Success by {
                        assert(old(self).entry(old(self).dep_index(i, k)).channel.current()
                            is Success);
                        assert(old(self).dep_index(i, k) < i);
                    }
                }
            }
        }
        Ok(())
    }

    /// Frame lemma for the runtime methods: when a single entry changes but
    /// keeps its identity, its dependency list and its own local invariant,
    /// and no channel anywhere falls out of `Success`, the whole
    /// orchestrator invariant carries over.
    proof fn lemma_local_update_preserves_wf(pre: Orchestrator, post: Orchestrator, i: int)
        requires
            pre.wf(),
            0 <= i < pre.phase_count(),
            post.phase_count() == pre.phase_count(),
            post.started == pre.started,
            forall|j: int| 0 <= j < pre.phase_count() && j != i ==> #[trigger] post.entry(j)
                == pre.entry(j),
            post.entry(i).kind == pre.entry(i).kind,
            post.entry(i).deps == pre.entry(i).deps,
            post.entry_wf(i),
            forall|j: int| 0 <= j < pre.phase_count() ==> ((#[trigger] pre.entry(
                j,
            ).channel.current()) is Success ==> post.entry(j).channel.current() is Success),
        ensures
            post.wf(),
    {
        assert forall|a: int, b: int|
            0 <= a < post.phase_count() && 0 <= b < post.phase_count() && a != b implies post.entry(
            a,
        ).kind != post.entry(b).kind by {
            assert(post.entry(a).kind == pre.entry(a).kind);
            assert(post.entry(b).kind == pre.entry(b).kind);
            assert(pre.entry(a).kind != pre.entry(b).kind);
        }
        assert forall|a: int, k: int|
            0 <= a < post.phase_count() && 0 <= k < post.entry(a).deps@.len() implies (
        #[trigger] post.entry(a).deps@[k]) < a by {
            assert(post.entry(a).deps == pre.entry(a).deps);
            assert(pre.entry(a).deps@[k] < a);
        }
        assert forall|j: int| 0 <= j < post.phase_count() implies #[trigger] post.entry_wf(j) by {
            assert(pre.entry_wf(j));
            if j != i {
                assert(post.entry(j) == pre.entry(j));
                assert forall|k: int|
                    0 <= k < post.entry(j).driver.spec_deps_met() implies (#[trigger] post.entry(
                    post.dep_index(j, k),
                ).channel.current()) is Success by {
                    let d = post.dep_index(j, k);
                    assert(d == pre.dep_index(j, k));
                    assert(pre.entry(d).channel.current() is Success);
                }
            }
        }
    }

    /// Frame lemma: when entry `i` keeps its dependency list and its met
    /// count, and no other entry changes, the dependency-success clause of
    /// its invariant carries over from the pre-state.
    proof fn lemma_deps_met_clause_preserved(pre: Orchestrator, post: Orchestrator, i: int)
        requires
            pre.wf(),
            0 <= i < pre.phase_count(),
            post.phase_count() == pre.phase_count(),
            forall|j: int| 0 <= j < pre.phase_count() && j != i ==> #[trigger] post.entry(j)
                == pre.entry(j),
            post.entry(i).deps == pre.entry(i).deps,
            post.entry(i).driver.spec_deps_met() == pre.entry(i).driver.spec_deps_met(),
        ensures
            forall|k: int| 0 <= k < post.entry(i).driver.spec_deps_met() ==> (#[trigger] post.entry(
                post.dep_index(i, k),
            ).channel.current()) is Success,
    {
        assert(pre.entry_wf(i));
        assert forall|k: int|
            0 <= k < post.entry(i).driver.spec_deps_met() implies (#[trigger] post.entry(
            post.dep_index(i, k),
        ).channel.current()) is Success by {
            assert(pre.entry(i).deps@[k] < i);
            let d = post.dep_index(i, k);
            assert(post.entry(d) == pre.entry(d));
            assert(pre.entry(pre.dep_index(i, k)).channel.current() is Success);
        }
    }

    /// Frame lemma: changing anything outside the phase list (the common
    /// group) leaves the invariant alone.
    proof fn lemma_same_phases_preserves_wf(pre: Orchestrator, post: Orchestrator)
        requires
            pre.wf(),
            post.phases@ == pre.phases@,
            post.started == pre.started,
        ensures
            post.wf(),
    {
        assert forall|a: int, b: int|
            0 <= a < post.phase_count() && 0 <= b < post.phase_count() && a != b implies post.entry(
            a,
        ).kind != post.entry(b).kind by {
            assert(pre.entry(a).kind != pre.entry(b).kind);
        }
        assert forall|a: int, k: int|
            0 <= a < post.phase_count() && 0 <= k < post.entry(a).deps@.len() implies (
        #[trigger] post.entry(a).deps@[k]) < a by {
            assert(pre.entry(a).deps@[k] < a);
        }
        assert forall|j: int| 0 <= j < post.phase_count() implies #[trigger] post.entry_wf(j) by {
            assert(pre.entry_wf(j));
            assert(post.entry(j) == pre.entry(j));
            assert forall|k: int|
                0 <= k < post.entry(j).driver.spec_deps_met() implies (#[trigger] post.entry(
                post.dep_index(j, k),
            ).channel.current()) is Success by {
                assert(post.entry(post.dep_index(j, k)) == pre.entry(pre.dep_index(j, k)));
                assert(pre.entry(pre.dep_index(j, k)).channel.current() is Success);
            }
        }
    }

    /// Whether phase `i` is waiting on a dependency whose channel has
    /// reached `Success`, so that the wait can resolve right now.
    pub open spec fn next_dep_ready(self, i: int) -> bool {
        &&& self.entry(i).driver.spec_state() is WaitingOnDeps
        &&& self.entry(
            self.dep_index(i, self.entry(i).driver.spec_deps_met()),
        ).channel.current() is Success
    }

    /// Whether phase `i` should observe a shutdown: its own group or the
    /// common group has been signalled.
    pub open spec fn shutdown_requested(self, i: int) -> bool {
        self.entry(i).group.is_shutdown() || self.common_group.is_shutdown()
    }

    /// Fix the phase set and launch every driver: each enters its dependency
    /// wait (or its body, when it declared no dependencies), and its task is
    /// registered under the phase's cancellation group — unless that group
    /// was already shut down, in which case nothing is spawned for it.
    /// Returns the initial action for each phase, in registration order.
    pub fn start(&mut self) -> (r: Result<Vec<PhaseAction>, OrchestratorError>)
        requires
            old(self).wf(),
        ensures
            final(self).wf(),
            old(self).started ==> r == Result::<Vec<PhaseAction>, OrchestratorError>::Err(
                OrchestratorError::AlreadyStarted,
            ) && *final(self) == *old(self),
            !old(self).started ==> {
                &&& r is Ok
                &&& final(self).started
                &&& final(self).phase_count() == old(self).phase_count()
                &&& final(self).common_group == old(self).common_group
                &&& forall|i: int| 0 <= i < old(self).phase_count()
                    ==> #[trigger] final(self).entry(i).driver == old(self).entry(
                    i,
                ).driver.launched()
                &&& forall|i: int| 0 <= i < old(self).phase_count()
                    ==> #[trigger] final(self).entry(i).channel == old(self).entry(i).channel
                        && final(self).entry(i).kind == old(self).entry(i).kind
                        && final(self).entry(i).deps == old(self).entry(i).deps
                &&& forall|i: int| 0 <= i < old(self).phase_count()
                    ==> #[trigger] final(self).entry(i).task_running == !old(self).entry(
                    i,
                ).group.is_shutdown()
                &&& forall|i: int| 0 <= i < old(self).phase_count()
                    ==> #[trigger] final(self).entry(i).group.is_shutdown() == old(self).entry(
                    i,
                ).group.is_shutdown()
            },
            !old(self).started ==> ({
                &&& r matches Ok(actions)
                &&& actions@.len() == old(self).phase_count()
                &&& forall|i: int|
                    0 <= i < old(self).phase_count() ==> #[trigger] actions@[i] == old(self).entry(
                        i,
                    ).driver.launch_action()
            }),
    {
        if self.started {
            return Err(OrchestratorError::AlreadyStarted);
        }
        self.started = true;
        let mut actions: Vec<PhaseAction> = Vec::new();
        let mut i: usize = 0;
        while i < self.phases.len()
            invariant
                old(self).wf(),
                !old(self).started,
                self.started,
                i <= self.phases@.len(),
                self.phases@.len() == old(self).phases@.len(),
                self.common_group == old(self).common_group,
                actions@.len() == i as int,
                forall|t: int| 0 <= t < i ==> (#[trigger] self.phases@[t]).driver == old(
                    self,
                ).phases@[t].driver.launched(),
                forall|t: int| 0 <= t < i ==> (#[trigger] self.phases@[t]).task_running == !old(
                    self,
                ).phases@[t].group.is_shutdown(),
                forall|t: int| 0 <= t < i ==> #[trigger] actions@[t] == old(
                    self,
                ).phases@[t].driver.launch_action(),
                forall|t: int| 0 <= t < i ==> (#[trigger] self.phases@[t]).channel == old(
                    self,
                ).phases@[t].channel && self.phases@[t].kind == old(self).phases@[t].kind
                    && self.phases@[t].deps == old(self).phases@[t].deps
                    && self.phases@[t].group.is_shutdown() == old(
                    self,
                ).phases@[t].group.is_shutdown() && self.phases@[t].group.live_count() == (
                if self.phases@[t].task_running {
                    1int
                } else {
                    0int
                }),
                forall|t: int| i <= t < self.phases@.len() ==> #[trigger] self.phases@[t] == old(
                    self,
                ).phases@[t],
            decreases self.phases@.len() - i,
        {
            proof {
                assert(self.phases@[i as int] == old(self).phases@[i as int]);
                assert(old(self).entry_wf(i as int));
            }
            let entry = &mut self.phases[i];
            let action = entry.driver.launch();
            let accepted = entry.group.spawn_task();
            entry.task_running = accepted;
            actions.push(action);
            i = i + 1;
        }
        proof {
            assert forall|a: int, b: int|
                0 <= a < self.phase_count() && 0 <= b < self.phase_count() && a
                    != b implies self.entry(a).kind != self.entry(b).kind by {
                assert(self.phases@[a].kind == old(self).phases@[a].kind);
                assert(self.phases@[b].kind == old(self).phases@[b].kind);
                assert(old(self).entry(a).kind != old(self).entry(b).kind);
            }
            assert forall|a: int, k: int|
                0 <= a < self.phase_count() && 0 <= k < self.entry(a).deps@.len() implies (
            #[trigger] self.entry(a).deps@[k]) < a by {
                assert(self.phases@[a].deps == old(self).phases@[a].deps);
                assert(old(self).entry(a).deps@[k] < a);
            }
            assert forall|t: int| 0 <= t < self.phase_count() implies #[trigger] self.entry_wf(
                t,
            ) by {
                assert(old(self).entry_wf(t));
                assert(old(self).entry(t).driver.spec_state() is Constructed);
                assert(self.phases@[t].driver == old(self).phases@[t].driver.launched());
                assert(self.phases@[t].channel == old(self).phases@[t].channel);
                assert(self.phases@[t].kind == old(self).phases@[t].kind);
                assert(self.phases@[t].deps == old(self).phases@[t].deps);
                assert(self.phases@[t].group.live_count() == (if self.phases@[t].task_running {
                    1int
                } else {
                    0int
                }));
            }
        }
        Ok(actions)
    }

    /// Let phase `i` try to resolve its current dependency wait.
    ///
    /// When the next unmet dependency's channel holds `Success`, the wait
    /// resolves: the driver counts it and either keeps waiting on the next
    /// dependency or — once all are met — asks for the body to run. When the
    /// dependency is still pending, or the phase is not waiting at all,
    /// nothing changes.
    pub fn poll_dependency(&mut self, i: usize) -> (action: PhaseAction)
        requires
            old(self).wf(),
            old(self).started,
            0 <= i < old(self).phase_count(),
        ensures
            final(self).wf(),
            old(self).next_dep_ready(i as int) ==> final(self).entry(i as int).driver == old(
                self,
            ).entry(i as int).driver.stepped(PhaseEvent::DependencySucceeded) && action == old(
                self,
            ).entry(i as int).driver.step_action(PhaseEvent::DependencySucceeded),
            !old(self).next_dep_ready(i as int) ==> *final(self) == *old(self) && action == (
            if old(self).entry(i as int).driver.spec_state() is WaitingOnDeps {
                PhaseAction::AwaitDependency
            } else {
                PhaseAction::NoAction
            }),
            final(self).phase_count() == old(self).phase_count(),
            final(self).started == old(self).started,
            final(self).common_group == old(self).common_group,
            forall|j: int| 0 <= j < old(self).phase_count() && j != i as int
                ==> #[trigger] final(self).entry(j) == old(self).entry(j),
            final(self).entry(i as int).channel == old(self).entry(i as int).channel,
            final(self).entry(i as int).kind == old(self).entry(i as int).kind,
            final(self).entry(i as int).deps == old(self).entry(i as int).deps,
            final(self).entry(i as int).group == old(self).entry(i as int).group,
            final(self).entry(i as int).task_running == old(self).entry(i as int).task_running,
    {
        proof {
            assert(self.entry_wf(i as int));
        }
        if !matches!(self.phases[i].driver.state(), DriverState::WaitingOnDeps) {
            return PhaseAction::NoAction;
        }
        let dep_pos = self.phases[i].driver.deps_met;
        let dep_idx = self.phases[i].deps[dep_pos];
        proof {
            assert(dep_idx < i);
            assert(self.entry_wf(dep_idx as int));
        }
        let dep_status = self.phases[dep_idx].channel.get();
        if dep_status.is_success() {
            let entry = &mut self.phases[i];
            let action = entry.driver.on_event(PhaseEvent::DependencySucceeded);
            proof {
                assert(self.entry(i as int).channel == old(self).entry(i as int).channel);
                assert(self.entry_wf(i as int)) by {
                    assert forall|k: int|
                        0 <= k < self.entry(i as int).driver.spec_deps_met() implies (
                    #[trigger] self.entry(
                        self.dep_index(i as int, k),
                    ).channel.current()) is Success by {
                        let d = self.dep_index(i as int, k);
                        assert(d < i as int);
                        assert(self.entry(d) == old(self).entry(d));
                        if k < old(self).entry(i as int).driver.spec_deps_met() {
                            assert(old(self).entry(
                                old(self).dep_index(i as int, k),
                            ).channel.current() is Success);
                        } else {
                            assert(d == dep_idx as int);
                        }
                    }
                };
                Self::lemma_local_update_preserves_wf(*old(self), *self, i as int);
            }
            action
        } else {
            PhaseAction::AwaitDependency
        }
    }

    /// Record the result of phase `i`'s body.
    ///
    /// A success while the body runs makes the driver succeed; nothing is
    /// published yet — the returned `FinalizeSuccess` asks the caller to
    /// resolve the final step and then confirm through
    /// [`Self::confirm_finalized`], which is what publishes `Success` and
    /// wakes dependents. An error fails the phase, and the returned report
    /// carries the phase's static title and description together with the
    /// error's own text; nothing is ever published for it. A body that
    /// finishes after the driver is already done — timed out or cancelled —
    /// changes nothing and asks for nothing.
    pub fn notify_body_result(&mut self, i: usize, body_result: Result<(), String>) -> (r: (
        PhaseAction,
        Option<CriticalProblemReport>,
    ))
        requires
            old(self).wf(),
            old(self).started,
            0 <= i < old(self).phase_count(),
        ensures
            final(self).wf(),
            ({
                let ev = if body_result is Ok {
                    PhaseEvent::BodyFinishedOk
                } else {
                    PhaseEvent::BodyFinishedErr
                };
                &&& final(self).entry(i as int).driver == old(self).entry(i as int).driver.stepped(
                    ev,
                )
                &&& r.0 == old(self).entry(i as int).driver.step_action(ev)
            }),
            r.1 is Some <==> r.0 == PhaseAction::ReportCriticalProblem,
            r.1 matches Some(rep) ==> ({
                &&& rep.title@ == old(self).entry(
                    i as int,
                ).kind.spec_critical_problem_title()
                &&& rep.description@ == old(self).entry(
                    i as int,
                ).kind.spec_critical_problem_description()
                &&& (body_result matches Err(e) ==> rep.detail@ == e@)
            }),
            final(self).entry(i as int).channel == old(self).entry(i as int).channel,
            final(self).phase_count() == old(self).phase_count(),
            final(self).started == old(self).started,
            final(self).common_group == old(self).common_group,
            forall|j: int| 0 <= j < old(self).phase_count() && j != i as int
                ==> #[trigger] final(self).entry(j) == old(self).entry(j),
            final(self).entry(i as int).kind == old(self).entry(i as int).kind,
            final(self).entry(i as int).deps == old(self).entry(i as int).deps,
            final(self).entry(i as int).group == old(self).entry(i as int).group,
            final(self).entry(i as int).task_running == old(self).entry(i as int).task_running,
    {
        proof {
            assert(self.entry_wf(i as int));
        }
        let ev = if body_result.is_ok() {
            PhaseEvent::BodyFinishedOk
        } else {
            PhaseEvent::BodyFinishedErr
        };
        let entry = &mut self.phases[i];
        let action = entry.driver.on_event(ev);
        let report = if matches!(action, PhaseAction::ReportCriticalProblem) {
            let detail = match body_result {
                Ok(()) => String::new(),
                Err(e) => e,
            };
            Some(self.phases[i].kind.critical_problem_report(detail))
        } else {
            None
        };
        proof {
            Self::lemma_deps_met_clause_preserved(*old(self), *self, i as int);
            assert(self.entry_wf(i as int));
            Self::lemma_local_update_preserves_wf(*old(self), *self, i as int);
        }
        (action, report)
    }

    /// Record that phase `i`'s timeout fired. While the phase is waiting on
    /// dependencies or running its body this ends it as timed out and asks
    /// for a critical-problem report built from the phase's static
    /// metadata; its status channel is left untouched, so dependents never
    /// see it ready. A finished phase ignores it.
    pub fn notify_timeout(&mut self, i: usize) -> (r: (
        PhaseAction,
        Option<CriticalProblemReport>,
    ))
        requires
            old(self).wf(),
            old(self).started,
            0 <= i < old(self).phase_count(),
        ensures
            final(self).wf(),
            final(self).entry(i as int).driver == old(self).entry(i as int).driver.stepped(
                PhaseEvent::TimeoutFired,
            ),
            r.0 == old(self).entry(i as int).driver.step_action(PhaseEvent::TimeoutFired),
            r.1 is Some <==> r.0 == PhaseAction::ReportCriticalProblem,
            r.1 matches Some(rep) ==> ({
                &&& rep.title@ == old(self).entry(
                    i as int,
                ).kind.spec_critical_problem_title()
                &&& rep.description@ == old(self).entry(
                    i as int,
                ).kind.spec_critical_problem_description()
                &&& rep.detail@ == "setup timed out"@
            }),
            final(self).entry(i as int).channel == old(self).entry(i as int).channel,
            final(self).phase_count() == old(self).phase_count(),
            final(self).started == old(self).started,
            final(self).common_group == old(self).common_group,
            forall|j: int| 0 <= j < old(self).phase_count() && j != i as int
                ==> #[trigger] final(self).entry(j) == old(self).entry(j),
            final(self).entry(i as int).kind == old(self).entry(i as int).kind,
            final(self).entry(i as int).deps == old(self).entry(i as int).deps,
            final(self).entry(i as int).group == old(self).entry(i as int).group,
            final(self).entry(i as int).task_running == old(self).entry(i as int).task_running,
    {
        proof {
            assert(self.entry_wf(i as int));
        }
        let entry = &mut self.phases[i];
        let action = entry.driver.on_event(PhaseEvent::TimeoutFired);
        let report = if matches!(action, PhaseAction::ReportCriticalProblem) {
            Some(self.phases[i].kind.critical_problem_report("setup timed out".to_owned()))
        } else {
            None
        };
        proof {
            Self::lemma_deps_met_clause_preserved(*old(self), *self, i as int);
            assert(self.entry_wf(i as int));
            Self::lemma_local_update_preserves_wf(*old(self), *self, i as int);
        }
        (action, report)
    }

    /// Record that phase `i` could not even be built: its configuration
    /// snapshot was unavailable. Fatal and reported immediately — while the
    /// phase is constructed or waiting on dependencies, the driver fails at
    /// once and the returned report carries the caller's detail of what
    /// could not be loaded; no default snapshot ever stands in. The status
    /// channel is left untouched, so dependents never see the phase ready.
    pub fn notify_construction_failed(&mut self, i: usize, detail: String) -> (r: (
        PhaseAction,
        Option<CriticalProblemReport>,
    ))
        requires
            old(self).wf(),
            old(self).started,
            0 <= i < old(self).phase_count(),
        ensures
            final(self).wf(),
            final(self).entry(i as int).driver == old(self).entry(i as int).driver.stepped(
                PhaseEvent::ConstructionFailed,
            ),
            r.0 == old(self).entry(i as int).driver.step_action(PhaseEvent::ConstructionFailed),
            r.1 is Some <==> r.0 == PhaseAction::ReportCriticalProblem,
            r.1 matches Some(rep) ==> ({
                &&& rep.title@ == old(self).entry(
                    i as int,
                ).kind.spec_critical_problem_title()
                &&& rep.description@ == old(self).entry(
                    i as int,
                ).kind.spec_critical_problem_description()
                &&& rep.detail@ == detail@
            }),
            final(self).entry(i as int).channel == old(self).entry(i as int).channel,
            final(self).phase_count() == old(self).phase_count(),
            final(self).started == old(self).started,
            final(self).common_group == old(self).common_group,
            forall|j: int| 0 <= j < old(self).phase_count() && j != i as int
                ==> #[trigger] final(self).entry(j) == old(self).entry(j),
            final(self).entry(i as int).kind == old(self).entry(i as int).kind,
            final(self).entry(i as int).deps == old(self).entry(i as int).deps,
            final(self).entry(i as int).group == old(self).entry(i as int).group,
            final(self).entry(i as int).task_running == old(self).entry(i as int).task_running,
    {
        proof {
            assert(self.entry_wf(i as int));
        }
        let entry = &mut self.phases[i];
        let action = entry.driver.on_event(PhaseEvent::ConstructionFailed);
        let report = if matches!(action, PhaseAction::ReportCriticalProblem) {
            Some(self.phases[i].kind.critical_problem_report(detail))
        } else {
            None
        };
        proof {
            Self::lemma_deps_met_clause_preserved(*old(self), *self, i as int);
            assert(self.entry_wf(i as int));
            Self::lemma_local_update_preserves_wf(*old(self), *self, i as int);
        }
        (action, report)
    }

    /// Publish phase `i`'s success, after its checklist is complete.
    ///
    /// The phase's own stepper is presented as evidence: publication is
    /// accepted only when the driver has succeeded, nothing has been
    /// published yet, and every step — the final one included — has
    /// resolved. Dependents woken by the published `Success` therefore
    /// never observe a phase ready whose final step is still pending.
    pub fn confirm_finalized(&mut self, i: usize, stepper: &ProgressStepper) -> (published: bool)
        requires
            old(self).wf(),
            old(self).started,
            0 <= i < old(self).phase_count(),
        ensures
            final(self).wf(),
            published == (old(self).entry(i as int).driver.spec_state() == DriverState::Done(
                PhaseOutcome::Succeeded,
            ) && old(self).entry(i as int).channel.current() is Pending
                && stepper.resolved_count() == stepper.step_names().len()),
            published ==> final(self).entry(i as int).channel.current() is Success,
            !published ==> final(self).entry(i as int).channel == old(self).entry(
                i as int,
            ).channel,
            final(self).phase_count() == old(self).phase_count(),
            final(self).started == old(self).started,
            final(self).common_group == old(self).common_group,
            forall|j: int| 0 <= j < old(self).phase_count() && j != i as int
                ==> #[trigger] final(self).entry(j) == old(self).entry(j),
            final(self).entry(i as int).driver == old(self).entry(i as int).driver,
            final(self).entry(i as int).kind == old(self).entry(i as int).kind,
            final(self).entry(i as int).deps == old(self).entry(i as int).deps,
            final(self).entry(i as int).group == old(self).entry(i as int).group,
            final(self).entry(i as int).task_running == old(self).entry(i as int).task_running,
    {
        proof {
            assert(self.entry_wf(i as int));
        }
        if !stepper.is_complete() {
            return false;
        }
        let st = self.phases[i].driver.state();
        if !matches!(st, DriverState::Done(PhaseOutcome::Succeeded)) {
            return false;
        }
        let entry = &mut self.phases[i];
        let published = entry.channel.send(PhaseStatus::Success);
        proof {
            if !published {
                assert(self.phases@ =~= old(self).phases@);
            }
            Self::lemma_deps_met_clause_preserved(*old(self), *self, i as int);
            assert(self.entry_wf(i as int));
            Self::lemma_local_update_preserves_wf(*old(self), *self, i as int);
        }
        published
    }

    /// Let phase `i` check for a shutdown request, as it must at every
    /// suspension point. When its own group or the common group has been
    /// signalled, the phase ends cancelled and exits quietly — no report, no
    /// status write. Otherwise nothing changes.
    pub fn observe_shutdown(&mut self, i: usize) -> (action: PhaseAction)
        requires
            old(self).wf(),
            old(self).started,
            0 <= i < old(self).phase_count(),
        ensures
            final(self).wf(),
            old(self).shutdown_requested(i as int) ==> final(self).entry(i as int).driver == old(
                self,
            ).entry(i as int).driver.stepped(PhaseEvent::ShutdownFired) && action == old(
                self,
            ).entry(i as int).driver.step_action(PhaseEvent::ShutdownFired),
            !old(self).shutdown_requested(i as int) ==> *final(self) == *old(self) && action
                == PhaseAction::NoAction,
            final(self).entry(i as int).channel == old(self).entry(i as int).channel,
            final(self).phase_count() == old(self).phase_count(),
            final(self).started == old(self).started,
            final(self).common_group == old(self).common_group,
            forall|j: int| 0 <= j < old(self).phase_count() && j != i as int
                ==> #[trigger] final(self).entry(j) == old(self).entry(j),
            final(self).entry(i as int).kind == old(self).entry(i as int).kind,
            final(self).entry(i as int).deps == old(self).entry(i as int).deps,
            final(self).entry(i as int).group == old(self).entry(i as int).group,
            final(self).entry(i as int).task_running == old(self).entry(i as int).task_running,
    {
        proof {
            assert(self.entry_wf(i as int));
        }
        let requested = self.phases[i].group.check_shutdown() || self.common_group.check_shutdown();
        if !requested {
            return PhaseAction::NoAction;
        }
        let entry = &mut self.phases[i];
        let action = entry.driver.on_event(PhaseEvent::ShutdownFired);
        proof {
            Self::lemma_deps_met_clause_preserved(*old(self), *self, i as int);
            assert(self.entry_wf(i as int));
            Self::lemma_local_update_preserves_wf(*old(self), *self, i as int);
        }
        action
    }

    /// Signal the common group: a global shutdown that every phase observes.
    pub fn signal_global_shutdown(&mut self)
        requires
            old(self).wf(),
        ensures
            final(self).wf(),
            final(self).common_group == old(self).common_group.after_signal(),
            final(self).common_group.is_shutdown(),
            final(self).phases == old(self).phases,
            final(self).started == old(self).started,
            forall|i: int| 0 <= i < old(self).phase_count() ==> final(self).shutdown_requested(i),
    {
        self.common_group.signal_shutdown();
        proof {
            Self::lemma_same_phases_preserves_wf(*old(self), *self);
        }
    }

    /// Signal phase `i`'s own group, leaving every other phase alone.
    pub fn signal_phase_shutdown(&mut self, i: usize)
        requires
            old(self).wf(),
            0 <= i < old(self).phase_count(),
        ensures
            final(self).wf(),
            final(self).entry(i as int).group == old(self).entry(i as int).group.after_signal(),
            final(self).shutdown_requested(i as int),
            final(self).common_group == old(self).common_group,
            final(self).started == old(self).started,
            final(self).phase_count() == old(self).phase_count(),
            forall|j: int| 0 <= j < old(self).phase_count() && j != i as int
                ==> #[trigger] final(self).entry(j) == old(self).entry(j),
            final(self).entry(i as int).channel == old(self).entry(i as int).channel,
            final(self).entry(i as int).driver == old(self).entry(i as int).driver,
            final(self).entry(i as int).kind == old(self).entry(i as int).kind,
            final(self).entry(i as int).deps == old(self).entry(i as int).deps,
            final(self).entry(i as int).task_running == old(self).entry(i as int).task_running,
    {
        proof {
            assert(self.entry_wf(i as int));
        }
        let entry = &mut self.phases[i];
        entry.group.signal_shutdown();
        proof {
            assert(self.entry(i as int).driver == old(self).entry(i as int).driver);
            assert(self.entry(i as int).channel == old(self).entry(i as int).channel);
            Self::lemma_deps_met_clause_preserved(*old(self), *self, i as int);
            assert(self.entry_wf(i as int));
            Self::lemma_local_update_preserves_wf(*old(self), *self, i as int);
        }
    }

    /// Record that phase `i`'s driver task has exited. Acknowledged once per
    /// phase, and only after its driver is done; the phase's group then no
    /// longer counts the task as live.
    pub fn acknowledge_exit(&mut self, i: usize) -> (acknowledged: bool)
        requires
            old(self).wf(),
            0 <= i < old(self).phase_count(),
        ensures
            final(self).wf(),
            acknowledged == (old(self).entry(i as int).task_running && old(self).entry(
                i as int,
            ).driver.spec_state() is Done),
            !acknowledged ==> *final(self) == *old(self),
            acknowledged ==> !final(self).entry(i as int).task_running && final(self).entry(
                i as int,
            ).group.live_count() == 0 && final(self).entry(i as int).driver == old(self).entry(
                i as int,
            ).driver && final(self).entry(i as int).channel == old(self).entry(i as int).channel,
            final(self).phase_count() == old(self).phase_count(),
            forall|j: int| 0 <= j < old(self).phase_count() && j != i as int
                ==> #[trigger] final(self).entry(j) == old(self).entry(j),
    {
        proof {
            assert(self.entry_wf(i as int));
        }
        if !self.phases[i].task_running {
            return false;
        }
        if !matches!(self.phases[i].driver.state(), DriverState::Done(_)) {
            return false;
        }
        let entry = &mut self.phases[i];
        entry.group.task_exited();
        entry.task_running = false;
        proof {
            Self::lemma_deps_met_clause_preserved(*old(self), *self, i as int);
            assert(self.entry_wf(i as int));
            Self::lemma_local_update_preserves_wf(*old(self), *self, i as int);
        }
        true
    }

    /// Register one unit of common background work — the hourly update
    /// check, say — under the common cancellation group, so that teardown
    /// waits for it too. Refused once the common group has been shut down.
    pub fn spawn_common_task(&mut self) -> (accepted: bool)
        requires
            old(self).wf(),
            old(self).common_group.live_count() < u64::MAX,
        ensures
            final(self).wf(),
            accepted == !old(self).common_group.is_shutdown(),
            final(self).common_group.is_shutdown() == old(self).common_group.is_shutdown(),
            final(self).common_group.live_count() == if accepted {
                old(self).common_group.live_count() + 1
            } else {
                old(self).common_group.live_count()
            },
            final(self).phases == old(self).phases,
            final(self).started == old(self).started,
    {
        let accepted = self.common_group.spawn_task();
        proof {
            Self::lemma_same_phases_preserves_wf(*old(self), *self);
        }
        accepted
    }

    /// Record that one unit of common background work has exited.
    pub fn common_task_exited(&mut self)
        requires
            old(self).wf(),
            old(self).common_group.live_count() > 0,
        ensures
            final(self).wf(),
            final(self).common_group.is_shutdown() == old(self).common_group.is_shutdown(),
            final(self).common_group.live_count() == old(self).common_group.live_count() - 1,
            final(self).phases == old(self).phases,
            final(self).started == old(self).started,
    {
        self.common_group.task_exited();
        proof {
            Self::lemma_same_phases_preserves_wf(*old(self), *self);
        }
    }

    /// Whether every task spawned under the engine — each phase's driver
    /// task and the common background work — has exited: what process
    /// teardown waits for, so that no orphaned work survives shutdown.
    pub fn teardown_complete(&self) -> (r: bool)
        ensures
            r == (self.common_group.live_count() == 0 && forall|i: int|
                0 <= i < self.phase_count() ==> #[trigger] self.entry(i).group.live_count() == 0),
    {
        if !self.common_group.all_tasks_exited() {
            return false;
        }
        let mut i: usize = 0;
        while i < self.phases.len()
            invariant
                i <= self.phases@.len(),
                forall|j: int| 0 <= j < i ==> #[trigger] self.entry(j).group.live_count() == 0,
            decreases self.phases@.len() - i,
        {
            if !self.phases[i].group.all_tasks_exited() {
                proof {
                    assert(self.entry(i as int).group.live_count() != 0);
                }
                return false;
            }
            i = i + 1;
        }
        true
    }

    /// Overall readiness: every registered phase has published `Success`.
    pub fn all_phases_succeeded(&self) -> (r: bool)
        ensures
            r == forall|i: int|
                0 <= i < self.phase_count() ==> (#[trigger] self.entry(
                    i,
                ).channel.current()) is Success,
    {
        let mut i: usize = 0;
        while i < self.phases.len()
            invariant
                i <= self.phases@.len(),
                forall|j: int| 0 <= j < i ==> (#[trigger] self.entry(j).channel.current())
                    is Success,
            decreases self.phases@.len() - i,
        {
            if !self.phases[i].channel.get().is_success() {
                proof {
                    assert(!(self.entry(i as int).channel.current() is Success));
                }
                return false;
            }
            i = i + 1;
        }
        true
    }

    /// Read phase `i`'s published status, as a dependent's subscription
    /// does.
    pub fn phase_status(&self, i: usize) -> (r: PhaseStatus)
        requires
            0 <= i < self.phase_count(),
        ensures
            r == self.entry(i as int).channel.current(),
    {
        self.phases[i].channel.get()
    }

    /// Only success is ever published: a phase whose driver has not
    /// succeeded — pending, running, failed, timed out or cancelled — has
    /// written nothing to its channel, which still holds `Pending`.
    /// Dependents therefore read a timed-out or failed upstream as "never
    /// ready", and a timed-out phase can never later appear successful.
    pub proof fn theorem_only_success_is_published(self, i: int)
        requires
            self.wf(),
            0 <= i < self.phase_count(),
            self.entry(i).driver.spec_state() != DriverState::Done(PhaseOutcome::Succeeded),
        ensures
            self.entry(i).channel.current() is Pending,
    {
        assert(self.entry_wf(i));
    }

    /// Dependency ordering, as a theorem over the invariant: whenever a
    /// phase's body has started — it is running or has succeeded — every
    /// one of its declared upstream channels holds `Success`. Channels are
    /// write-once, so each was also observed successful before the body
    /// began. (A failed phase proves nothing here: a construction failure
    /// ends a phase before its dependency wait is over.)
    pub proof fn theorem_body_starts_after_deps(self, i: int, k: int)
        requires
            self.wf(),
            0 <= i < self.phase_count(),
            self.entry(i).driver.spec_state() is RunningBody || self.entry(i).driver.spec_state()
                == DriverState::Done(PhaseOutcome::Succeeded),
            0 <= k < self.entry(i).deps@.len(),
        ensures
            self.entry(self.dep_index(i, k)).channel.current() is Success,
    {
        assert(self.entry_wf(i));
        assert(self.entry(i).driver.spec_deps_met() == self.entry(i).deps@.len());
    }
}

} // verus!
