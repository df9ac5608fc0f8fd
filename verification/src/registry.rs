//! The process-wide health flag. The store refuses mutations while it
//! reports an unhealthy state. It is explicit, injectable state handed to
//! the actions rather than a hidden global, so a caller (or a test) decides
//! what the control plane has set it to.

use vstd::prelude::*;

verus! {

/// Readiness signal consulted before (and, for the strong protocol, again
/// after) the read phase of a mutating action.
pub struct HealthGate {
    healthy: bool,
}

impl HealthGate {
    /// Whether writes are currently permitted.
    pub closed spec fn spec_state_okay(&self) -> bool {
        self.healthy
    }

    /// A gate in the given state.
    pub fn new(healthy: bool) -> (r: HealthGate)
        ensures
            r.spec_state_okay() == healthy,
    {
        HealthGate { healthy }
    }

    /// Read the health flag; true means the store may mutate.
    pub fn state_okay(&self) -> (r: bool)
        ensures
            r == self.spec_state_okay(),
    {
        self.healthy
    }

    /// What the external control plane does when health changes.
    pub fn set_state(&mut self, healthy: bool)
        ensures
            final(self).spec_state_okay() == healthy,
    {
        self.healthy = healthy;
    }
}

} // verus!
