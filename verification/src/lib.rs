//! A phased application bring-up engine.
//!
//! A fixed set of subsystems ("phases") initialize in a partial order: each
//! phase reports granular progress through an ordered checklist, awaits the
//! success of its declared upstream phases, is bounded by a timeout, can be
//! cancelled by a shared shutdown signal, and can fail without taking the
//! rest of the process down.
//!
//! The crate holds the decision logic of that engine: the write-once status
//! cell each phase publishes on, the ordered progress stepper, the
//! cancellation-group bookkeeping, the per-phase lifecycle state machine, and
//! the orchestrator that wires dependencies together. All waiting, timers and
//! task spawning live with the caller, who feeds observed events into the
//! state machines and performs the actions they hand back.

pub mod cancel;
pub mod orchestrator;
pub mod phase;
pub mod phase_hardware;
pub mod status;
pub mod stepper;
pub mod updates;
