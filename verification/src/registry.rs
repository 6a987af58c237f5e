//! The process registry: a single optional slot holding at most one
//! running-process identifier.
//!
//! The slot is non-empty exactly while a child process is believed to be
//! running.  Only three operations touch it: `try_acquire` (launch),
//! `take_and_clear` (cancel) and `clear` (the completion watcher).  The
//! surrounding shell serializes calls with a mutual-exclusion guard; the
//! contracts here describe each operation's effect on the slot.

use vstd::prelude::*;

verus! {

/// Single-slot store of the currently tracked running process identifier.
pub struct Registry {
    slot: Option<u32>,
}

impl View for Registry {
    type V = Option<u32>;

    closed spec fn view(&self) -> Option<u32> {
        self.slot
    }
}

impl Registry {
    /// A registry starts empty: no process is tracked at startup.
    pub fn new() -> (r: Registry)
        ensures
            r@ is None,
    {
        Registry { slot: None }
    }

    /// If the slot is empty, record `pid` and report success; otherwise
    /// report failure without mutating.  Success is possible exactly when
    /// nothing is currently tracked.
    pub fn try_acquire(&mut self, pid: u32) -> (acquired: bool)
        ensures
            acquired <==> old(self)@ is None,
            acquired ==> final(self)@ == Some(pid),
            !acquired ==> final(self)@ == old(self)@,
    {
        match self.slot {
            None => {
                self.slot = Some(pid);
                true
            },
            Some(_) => false,
        }
    }

    /// Atomically read and empty the slot.
    pub fn take_and_clear(&mut self) -> (taken: Option<u32>)
        ensures
            taken == old(self)@,
            final(self)@ is None,
    {
        let taken = self.slot;
        self.slot = None;
        taken
    }

    /// Empty the slot unconditionally; clearing an already-empty registry
    /// is a no-op, not an error.
    pub fn clear(&mut self)
        ensures
            final(self)@ is None,
    {
        self.slot = None;
    }

    /// The identifier currently tracked, if any.
    pub fn running_pid(&self) -> (pid: Option<u32>)
        ensures
            pid == self@,
    {
        self.slot
    }
}

} // verus!
