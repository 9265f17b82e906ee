//! Lifecycle registry: the single slot holding the one live server handle.
//!
//! The registry owns at most one handle at a time. `store` fills an empty
//! slot and rejects an occupied one — whether to drop, signal or keep the
//! old process is the caller's policy, served by `replace`. `terminate`
//! empties the slot and names the process to signal; the embedding program
//! performs the kill. Emptying on terminate makes termination idempotent:
//! one stored handle yields at most one signal.
//!
//! The registry itself is single-threaded data; an embedding program that
//! reaches it from several threads puts it behind its own mutual exclusion
//! and must not hold that guard across blocking work.

use vstd::prelude::*;

verus! {

/// A reference to a live child process, by its process identifier. The
/// stream handles of the child stay with the embedding program, which owns
/// the OS-level child object.
#[derive(Clone, Copy, Debug, PartialEq, Eq, Structural)]
pub struct ProcessHandle {
    pub pid: u32,
}

/// Why a `store` was refused.
#[derive(Clone, Copy, Debug, PartialEq, Eq, Structural)]
pub enum StoreError {
    /// The slot already holds a handle; a running server would be orphaned
    /// by silently overwriting it.
    AlreadyRunning,
}

/// The signal a terminate issues on a slot: the stored pid, if any.
pub open spec fn signal_of(slot: Option<ProcessHandle>) -> Option<u32> {
    match slot {
        Some(h) => Some(h.pid),
        None => None,
    }
}

/// The slot after a terminate: always empty.
pub open spec fn slot_after_terminate(slot: Option<ProcessHandle>) -> Option<ProcessHandle> {
    None
}

/// The single-slot registry.
pub struct LifecycleRegistry {
    slot: Option<ProcessHandle>,
}

impl LifecycleRegistry {
    /// The handle currently stored, if any.
    pub closed spec fn stored(self) -> Option<ProcessHandle> {
        self.slot
    }

    /// An empty registry.
    pub fn new() -> (r: LifecycleRegistry)
        ensures
            r.stored() is None,
    {
        LifecycleRegistry { slot: None }
    }

    /// Places `h` into an empty slot; refuses when a handle is already
    /// stored, leaving the registry unchanged.
    pub fn store(&mut self, h: ProcessHandle) -> (r: Result<(), StoreError>)
        ensures
            old(self).stored() is None ==> r is Ok && final(self).stored() == Some(h),
            old(self).stored() is Some ==> r == Err::<(), StoreError>(StoreError::AlreadyRunning)
                && *final(self) == *old(self),
    {
        match self.slot {
            None => {
                self.slot = Some(h);
                Ok(())
            },
            Some(_) => Err(StoreError::AlreadyRunning),
        }
    }

    /// Places `h` into the slot unconditionally and hands back whatever it
    /// held, for callers whose policy is to supersede a running server.
    pub fn replace(&mut self, h: ProcessHandle) -> (prev: Option<ProcessHandle>)
        ensures
            final(self).stored() == Some(h),
            prev == old(self).stored(),
    {
        let prev = self.slot;
        self.slot = Some(h);
        prev
    }

    /// Empties the slot and names the process to signal: the stored pid when
    /// a handle was present, nothing when the registry was already empty —
    /// a no-op that does not fail.
    pub fn terminate(&mut self) -> (r: Option<u32>)
        ensures
            r == signal_of(old(self).stored()),
            final(self).stored() == slot_after_terminate(old(self).stored()),
    {
        let r = match self.slot {
            Some(h) => Some(h.pid),
            None => None,
        };
        self.slot = None;
        r
    }
}

/// Storing a handle and then terminating signals exactly that process
/// identifier, exactly once: the terminate that finds the handle yields its
/// pid and empties the slot, so a second terminate — like any terminate on
/// an empty registry — yields no signal.
pub proof fn lemma_terminate_signals_once(h: ProcessHandle)
    ensures
        signal_of(Some(h)) == Some(h.pid),
        signal_of(slot_after_terminate(Some(h))) is None,
        signal_of(None::<ProcessHandle>) is None,
{
}

} // verus!
