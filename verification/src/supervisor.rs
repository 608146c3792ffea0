//! The supervisor's shared state: a take-once cell for the child's handle.
//!
//! The cell is populated once after a successful launch and emptied exactly
//! once by `shutdown`, whose atomic take guarantees that at most one kill
//! request is ever issued, however many times shutdown is signalled.

use vstd::prelude::*;

verus! {

/// The supervisor's sole reference to a spawned child process, identified by
/// its operating-system process id. The host keeps the real handle and maps
/// it back through this id; the supervisor only tracks ownership. The type is
/// deliberately not `Clone`: a handle is usable exactly once for termination,
/// and moving it out of the state cell consumes it.
#[derive(Debug, PartialEq, Eq, Structural)]
pub struct ProcessHandle {
    pub pid: u32,
}

/// Process-wide supervisor state: the optional handle of the one supervised
/// child. Empty at startup; populated once after a successful launch; emptied
/// exactly once during shutdown. The host guards the cell with its own
/// mutual-exclusion lock; this type supplies the take semantics that make a
/// double kill impossible.
pub struct SupervisorState {
    pub child: Option<ProcessHandle>,
}

/// What `SupervisorState::install` leaves in the cell.
pub open spec fn spec_install(s: SupervisorState, h: ProcessHandle) -> SupervisorState {
    SupervisorState { child: Some(h) }
}

/// What `SupervisorState::shutdown` leaves in the cell and hands back:
/// the cell is empty afterwards, and whatever it held comes out.
pub open spec fn spec_shutdown(s: SupervisorState) -> (SupervisorState, Option<ProcessHandle>) {
    (SupervisorState { child: None }, s.child)
}

impl SupervisorState {
    /// Creates the state empty, as it is at application startup.
    pub fn new() -> (s: Self)
        ensures
            s.child is None,
    {
        SupervisorState { child: None }
    }

    /// Stores the handle of a freshly launched child. Called exactly once,
    /// right after a successful launch; the precondition makes a second
    /// install without an intervening shutdown impossible.
    pub fn install(&mut self, handle: ProcessHandle)
        requires
            old(self).child is None,
        ensures
            *final(self) == spec_install(*old(self), handle),
            final(self).child == Some(handle),
    {
        self.child = Some(handle);
    }

    /// Atomically takes the handle out, leaving the cell empty. The caller
    /// must deliver one kill request to the returned handle if there is one;
    /// `None` means there was never a child to stop, or it was already
    /// stopped, and the whole shutdown is a silent no-op.
    pub fn shutdown(&mut self) -> (taken: Option<ProcessHandle>)
        ensures
            (*final(self), taken) == spec_shutdown(*old(self)),
            final(self).child is None,
            taken == old(self).child,
    {
        self.child.take()
    }

    /// True while the cell holds a handle: the child was launched and has not
    /// been shut down by this supervisor (it may have exited on its own; the
    /// handle stays until an explicit shutdown).
    pub fn is_running(&self) -> (b: bool)
        ensures
            b == (self.child is Some),
    {
        self.child.is_some()
    }
}

/// Shutdown is idempotent: whatever the state holds, the first shutdown
/// empties it, so a second shutdown in a row takes nothing (at most one kill
/// attempt over the two calls) and leaves the state exactly as it found it.
pub proof fn lemma_shutdown_idempotent(s0: SupervisorState)
    ensures
        ({
            let (s1, first) = spec_shutdown(s0);
            let (s2, second) = spec_shutdown(s1);
            &&& second is None
            &&& s2 == s1
            &&& !(first is Some && second is Some)
        }),
{
}

/// Installing a handle and then shutting down hands that same handle back and
/// leaves the state empty, so a subsequent shutdown is a no-op.
pub proof fn lemma_install_then_shutdown(s0: SupervisorState, h: ProcessHandle)
    requires
        s0.child is None,
    ensures
        ({
            let s1 = spec_install(s0, h);
            let (s2, first) = spec_shutdown(s1);
            let (s3, second) = spec_shutdown(s2);
            &&& first == Some(h)
            &&& s2.child is None
            &&& second is None
            &&& s3.child is None
        }),
{
}

} // verus!
