//! Supervision of a single long-running background server process.
//!
//! The crate holds the decision logic of a small process supervisor: how the
//! child's command line is built, how its output events are classified into
//! leveled log records, when the drain loop that consumes those events ends,
//! and a take-once state cell that guarantees at most one kill request is
//! ever issued for the child. The host application performs the actual
//! spawning, reading and killing, and hands this library plain values.

pub mod events;
pub mod launcher;
pub mod supervisor;
