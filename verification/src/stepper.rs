//! Ordered progress checklist for one phase.
//!
//! A phase declares its named steps up front with [`ProgressStepperBuilder`],
//! then seals the list into a [`ProgressStepper`]. Steps resolve strictly in
//! declaration order: resolving the step that is next in line advances the
//! cursor and yields a progress event carrying the step name and the overall
//! percentage; naming any other step is a caller contract violation that is
//! rejected and leaves the stepper untouched. The stepper is exclusively
//! owned by its phase — delivery of the emitted events to a UI or telemetry
//! sink is the caller's business.

use vstd::prelude::*;

verus! {

/// Progress update emitted when a step resolves.
#[derive(Clone, Debug)]
pub struct ProgressEvent {
    /// Name of the step that just resolved.
    pub step_name: String,
    /// Resolved steps over total steps, as a whole percentage (0 to 100).
    pub percentage: u8,
}

/// Why a step failed to resolve.
#[derive(Clone, Copy, Debug, PartialEq, Eq, Structural)]
pub enum StepError {
    /// The named step is not the next unresolved step in declaration order.
    OutOfOrder,
}

/// Build-time accumulator for a phase's ordered step list.
pub struct ProgressStepperBuilder {
    steps: Vec<String>,
}

/// The percentage shown after `resolved` of `total` steps are done.
pub open spec fn percentage_of(resolved: int, total: int) -> int {
    resolved * 100 / total
}

impl ProgressStepperBuilder {
    /// The step names accumulated so far, in declaration order.
    pub closed spec fn steps_view(self) -> Seq<Seq<char>> {
        self.steps@.map_values(|s: String| s@)
    }

    /// An empty builder.
    pub fn new() -> (r: ProgressStepperBuilder)
        ensures
            r.steps_view() == Seq::<Seq<char>>::empty(),
    {
        let r = ProgressStepperBuilder { steps: Vec::new() };
        proof {
            assert(r.steps_view() =~= Seq::<Seq<char>>::empty());
        }
        r
    }

    /// Append one named step. Only available before the list is sealed by
    /// [`Self::build`].
    pub fn add_step(self, name: String) -> (r: ProgressStepperBuilder)
        ensures
            r.steps_view() == self.steps_view().push(name@),
    {
        let ghost old_steps = self.steps@;
        let mut steps = self.steps;
        steps.push(name);
        let r = ProgressStepperBuilder { steps };
        proof {
            assert(r.steps_view() =~= self.steps_view().push(old_steps.push(name).last()@)) by {
                assert(steps@ == old_steps.push(old_steps.push(name).last()));
            }
        }
        r
    }

    /// Seal the step list and hand back a stepper with nothing resolved yet.
    pub fn build(self) -> (r: ProgressStepper)
        ensures
            r.step_names() == self.steps_view(),
            r.resolved_count() == 0,
    {
        ProgressStepper { steps: self.steps, cursor: 0 }
    }
}

/// The sealed, ordered step list of one phase, plus the resolution cursor.
pub struct ProgressStepper {
    steps: Vec<String>,
    cursor: usize,
}

impl ProgressStepper {
    /// The step names, in declaration order.
    pub closed spec fn step_names(self) -> Seq<Seq<char>> {
        self.steps@.map_values(|s: String| s@)
    }

    /// How many steps have resolved so far. Steps resolve strictly in
    /// declaration order, so the resolved steps are exactly the first
    /// `resolved_count()` entries of `step_names()`.
    pub closed spec fn resolved_count(self) -> int {
        self.cursor as int
    }

    /// Structural soundness: the cursor never runs past the step list.
    pub open spec fn wf(self) -> bool {
        0 <= self.resolved_count() <= self.step_names().len()
    }

    /// How many steps have resolved so far.
    pub fn resolved(&self) -> (r: usize)
        ensures
            r as int == self.resolved_count(),
    {
        self.cursor
    }

    /// Whether every declared step has resolved.
    pub fn is_complete(&self) -> (r: bool)
        ensures
            r == (self.resolved_count() == self.step_names().len()),
    {
        self.cursor == self.steps.len()
    }

    /// Resolve the next step in declaration order.
    ///
    /// Succeeds exactly when `step_name` names the step the cursor stands on;
    /// the cursor then advances by one and the returned event carries the
    /// step's name and the new overall percentage. Naming any other step —
    /// resolving out of order — is rejected with [`StepError::OutOfOrder`]
    /// and changes nothing.
    pub fn resolve_step(&mut self, step_name: &String) -> (r: Result<ProgressEvent, StepError>)
        requires
            old(self).wf(),
        ensures
            final(self).wf(),
            final(self).step_names() == old(self).step_names(),
            r is Ok <==> (old(self).resolved_count() < old(self).step_names().len()
                && step_name@ == old(self).step_names()[old(self).resolved_count()]),
            r matches Ok(ev) ==> {
                &&& final(self).resolved_count() == old(self).resolved_count() + 1
                &&& ev.step_name@ == step_name@
                &&& ev.percentage as int == percentage_of(
                    final(self).resolved_count(),
                    old(self).step_names().len() as int,
                )
            },
            r is Err ==> {
                &&& final(self).resolved_count() == old(self).resolved_count()
                &&& r == Result::<ProgressEvent, StepError>::Err(StepError::OutOfOrder)
            },
    {
        if self.cursor < self.steps.len() && *step_name == self.steps[self.cursor] {
            let total = self.steps.len();
            let done = self.cursor + 1;
            let pct_wide: u128 = (done as u128) * 100 / (total as u128);
            proof {
                assert((done as int) * 100 / (total as int) <= 100) by (nonlinear_arith)
                    requires
                        1 <= total as int,
                        done as int <= total as int,
                ;
                assert((done as int) * 100 / (total as int) >= 0) by (nonlinear_arith)
                    requires
                        1 <= total as int,
                        1 <= done as int,
                ;
            }
            let percentage: u8 = pct_wide as u8;
            self.cursor = done;
            Ok(ProgressEvent { step_name: step_name.clone(), percentage })
        } else {
            Err(StepError::OutOfOrder)
        }
    }
}

} // verus!
