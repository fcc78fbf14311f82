//! Bookkeeping of an accept loop: how many per-connection tasks run, and
//! whether the proxy is draining.

use vstd::prelude::*;

verus! {

/// The state of an accept loop.
#[derive(Clone, Copy, Debug, PartialEq, Eq, Structural)]
pub struct Serving {
    /// Whether a drain was asked for. It is never taken back.
    pub draining: bool,
    /// The number of per-connection tasks that have not exited.
    pub active: usize,
}

impl Serving {
    /// Whether a newly accepted connection is served: not while draining,
    /// and not beyond what the counter can hold.
    pub open spec fn admits(self) -> bool {
        !self.draining && self.active < usize::MAX
    }

    pub open spec fn after_accept(self) -> Serving {
        if self.admits() {
            Serving { active: (self.active + 1) as usize, ..self }
        } else {
            self
        }
    }

    pub open spec fn after_exit(self) -> Serving {
        if self.active > 0 {
            Serving { active: (self.active - 1) as usize, ..self }
        } else {
            self
        }
    }

    pub open spec fn after_drain(self) -> Serving {
        Serving { draining: true, ..self }
    }

    /// The drain is complete: it was asked for and every task has exited.
    pub open spec fn is_drained(self) -> bool {
        self.draining && self.active == 0
    }

    /// A loop that serves and has no task yet.
    pub fn new() -> (s: Serving)
        ensures
            s == (Serving { draining: false, active: 0 }),
    {
        Serving { draining: false, active: 0 }
    }

    /// A connection was accepted. Returns whether to spawn its task; if so,
    /// the task is counted.
    pub fn accept(&mut self) -> (spawn: bool)
        ensures
            spawn == old(self).admits(),
            *final(self) == old(self).after_accept(),
    {
        if !self.draining && self.active < usize::MAX {
            self.active = self.active + 1;
            true
        } else {
            false
        }
    }

    /// A per-connection task exited.
    pub fn exited(&mut self)
        ensures
            *final(self) == old(self).after_exit(),
    {
        if self.active > 0 {
            self.active = self.active - 1;
        }
    }

    /// Starts the drain: from now on no accepted connection is served.
    pub fn drain(&mut self)
        ensures
            *final(self) == old(self).after_drain(),
    {
        self.draining = true;
    }

    /// Whether the drain is complete.
    pub fn drained(&self) -> (done: bool)
        ensures
            done == self.is_drained(),
    {
        self.draining && self.active == 0
    }
}

/// Draining twice is draining once. While draining, an accepted connection
/// produces no work; and once the drain is complete it stays complete,
/// whatever is accepted, whichever task reports its exit, and however often
/// the drain is asked for again.
pub proof fn lemma_drain_idempotent(s: Serving)
    ensures
        s.after_drain().after_drain() == s.after_drain(),
        !s.after_drain().admits(),
        s.after_drain().after_accept() == s.after_drain(),
        s.is_drained() ==> s.after_accept() == s && s.after_exit() == s && s.after_drain() == s,
{
}

} // verus!
