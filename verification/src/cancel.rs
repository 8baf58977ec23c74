//! Cancellation groups: a shared shutdown flag plus task bookkeeping.
//!
//! A group is created once per logical scope (one per phase, plus one common
//! group whose shutdown counts as a global signal), signalled at most
//! meaningfully once at shutdown, and never reused afterward. Tasks spawned
//! under a group are counted so that teardown can wait until every one of
//! them has exited. The flag here is the decision state; broadcasting it to
//! suspended tasks is the caller's business — every suspension point is
//! expected to check the group's flag and stop promptly when it is set.

use vstd::prelude::*;

verus! {

/// One scope's shutdown flag and live-task counter.
pub struct CancellationGroup {
    shutdown: bool,
    live_tasks: u64,
}

impl CancellationGroup {
    /// Whether shutdown has been signalled on this group.
    pub closed spec fn is_shutdown(&self) -> bool {
        self.shutdown
    }

    /// How many tasks spawned under this group have not yet exited.
    pub closed spec fn live_count(&self) -> int {
        self.live_tasks as int
    }

    /// The group state after a shutdown signal: the flag is set, the task
    /// bookkeeping is untouched.
    pub closed spec fn after_signal(self) -> CancellationGroup {
        CancellationGroup { shutdown: true, ..self }
    }

    /// A fresh group: not shut down, no tasks.
    pub fn new() -> (r: CancellationGroup)
        ensures
            !r.is_shutdown(),
            r.live_count() == 0,
    {
        CancellationGroup { shutdown: false, live_tasks: 0 }
    }

    /// Broadcast shutdown to everything spawned under this group. Idempotent:
    /// see [`Self::lemma_signal_idempotent`].
    pub fn signal_shutdown(&mut self)
        ensures
            *final(self) == old(self).after_signal(),
            final(self).is_shutdown(),
            final(self).live_count() == old(self).live_count(),
    {
        self.shutdown = true;
    }

    /// Signalling shutdown twice leaves the group in exactly the state one
    /// signal leaves it in: the signal is a one-shot, idempotent broadcast.
    pub proof fn lemma_signal_idempotent(self)
        ensures
            self.after_signal().after_signal() == self.after_signal(),
            self.after_signal().is_shutdown(),
            self.after_signal().live_count() == self.live_count(),
    {
    }

    /// Read the shutdown flag, as a task does at each suspension point.
    pub fn check_shutdown(&self) -> (r: bool)
        ensures
            r == self.is_shutdown(),
    {
        self.shutdown
    }

    /// Register one task spawned under this group. Accepted only while the
    /// group has not been shut down — a group is never reused after its
    /// signal fires.
    pub fn spawn_task(&mut self) -> (accepted: bool)
        requires
            old(self).live_count() < u64::MAX,
        ensures
            accepted == !old(self).is_shutdown(),
            final(self).is_shutdown() == old(self).is_shutdown(),
            final(self).live_count() == if accepted {
                old(self).live_count() + 1
            } else {
                old(self).live_count()
            },
    {
        if self.shutdown {
            false
        } else {
            self.live_tasks = self.live_tasks + 1;
            true
        }
    }

    /// Record that one task spawned under this group has exited.
    pub fn task_exited(&mut self)
        requires
            old(self).live_count() > 0,
        ensures
            final(self).is_shutdown() == old(self).is_shutdown(),
            final(self).live_count() == old(self).live_count() - 1,
    {
        self.live_tasks = self.live_tasks - 1;
    }

    /// Whether every task spawned under this group has exited — the condition
    /// process teardown waits for so that no orphaned background work
    /// survives shutdown.
    pub fn all_tasks_exited(&self) -> (r: bool)
        ensures
            r == (self.live_count() == 0),
    {
        self.live_tasks == 0
    }
}

} // verus!
