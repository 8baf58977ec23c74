//! Lifecycle status of a phase and the write-once cell it is published on.
//!
//! Every phase owns exactly one `PhaseStatusChannel`. The owning phase writes
//! a terminal status at most once; any number of dependent phases read it.
//! Once a terminal status is written it never changes, so a reader that has
//! observed `Success` may rely on it forever.

use vstd::prelude::*;

verus! {

/// Lifecycle state of one phase, as published to its dependents.
///
/// `Pending` is the initial state; `Success` and `Failed` are terminal.
#[derive(Clone, Copy, Debug, PartialEq, Eq, Structural)]
pub enum PhaseStatus {
    Pending,
    Success,
    Failed,
}

impl PhaseStatus {
    /// Whether this status is `Success`.
    pub open spec fn spec_is_success(&self) -> bool {
        *self is Success
    }

    #[verifier::when_used_as_spec(spec_is_success)]
    pub fn is_success(&self) -> (r: bool)
        ensures
            r == self.spec_is_success(),
    {
        matches!(self, PhaseStatus::Success)
    }

    /// Whether this status is terminal, i.e. will never change again.
    pub open spec fn spec_is_terminal(&self) -> bool {
        *self !is Pending
    }

    #[verifier::when_used_as_spec(spec_is_terminal)]
    pub fn is_terminal(&self) -> (r: bool)
        ensures
            r == self.spec_is_terminal(),
    {
        !matches!(self, PhaseStatus::Pending)
    }
}

/// A single-writer, many-reader cell holding the current status of one phase.
///
/// Created in `Pending`. The first terminal status written wins; every later
/// write is rejected and leaves the cell unchanged. The cell itself does not
/// know who its owner is — the single-writer discipline is an ownership
/// convention of the caller, as is the broadcast delivery to waiting readers.
pub struct PhaseStatusChannel {
    value: PhaseStatus,
}

impl PhaseStatusChannel {
    /// The status the channel currently holds.
    pub closed spec fn current(self) -> PhaseStatus {
        self.value
    }

    /// The status a channel holds after an attempted write: the first
    /// terminal write sets the value, everything else leaves it alone.
    pub open spec fn sent(self, status: PhaseStatus) -> PhaseStatus {
        if self.current() is Pending && status.spec_is_terminal() {
            status
        } else {
            self.current()
        }
    }

    /// A fresh channel, holding `Pending`.
    pub fn new() -> (r: PhaseStatusChannel)
        ensures
            r.current() is Pending,
    {
        PhaseStatusChannel { value: PhaseStatus::Pending }
    }

    /// Attempt to publish a terminal status. Returns whether the write took
    /// effect: only the first terminal write on a pending channel does;
    /// writing `Pending`, or writing to an already-terminal channel, is a
    /// rejected no-op.
    pub fn send(&mut self, status: PhaseStatus) -> (accepted: bool)
        ensures
            final(self).current() == old(self).sent(status),
            accepted == (old(self).current() is Pending && status.spec_is_terminal()),
            !accepted ==> *final(self) == *old(self),
    {
        if matches!(self.value, PhaseStatus::Pending) && status.is_terminal() {
            self.value = status;
            true
        } else {
            false
        }
    }

    /// Read the current status.
    pub fn get(&self) -> (r: PhaseStatus)
        ensures
            r == self.current(),
    {
        self.value
    }

    /// A terminal status is final: no later write moves the channel at all.
    pub proof fn lemma_write_once(self, status: PhaseStatus)
        requires
            self.current().spec_is_terminal(),
        ensures
            self.sent(status) == self.current(),
    {
    }
}

} // verus!
