//! One-shot readiness gate between the watcher's thread and the host's.
//!
//! The watcher claims the well-known bus name, then signals readiness;
//! the host must not query the registry before that. The flag transitions
//! exactly once, from not ready to ready.

use vstd::prelude::*;

verus! {

/// Shared readiness flag: `false` until the watcher has claimed its bus name
/// and installed the registry object, `true` from then on.
pub struct ReadinessGate {
    ready: bool,
}

impl ReadinessGate {
    /// Whether the watcher has signalled readiness.
    pub closed spec fn spec_ready(&self) -> bool {
        self.ready
    }

    /// A fresh gate: the watcher has not claimed its name yet.
    pub fn new() -> (g: Self)
        ensures
            !g.spec_ready(),
    {
        ReadinessGate { ready: false }
    }

    /// Record the outcome of the watcher's name claim. Only a successful
    /// claim signals readiness; a failed claim is fatal for the watcher,
    /// readiness is never signalled, and the host can never proceed
    /// against an unclaimed name. Returns whether the watcher may begin
    /// serving.
    pub fn complete_startup(&mut self, name_claimed: bool) -> (serve: bool)
        requires
            !old(self).spec_ready(),
        ensures
            serve == name_claimed,
            final(self).spec_ready() == name_claimed,
    {
        if name_claimed {
            self.ready = true;
        }
        name_claimed
    }

    /// The host's side of the rendezvous: it may proceed exactly when the
    /// watcher has signalled readiness.
    pub fn host_may_proceed(&self) -> (r: bool)
        ensures
            r == self.spec_ready(),
    {
        self.ready
    }
}

} // verus!
