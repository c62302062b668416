//! The one-time marker behind each scorer kind's lazy registration.
use vstd::prelude::*;

verus! {

/// A marker whose presence records that a one-time setup step has run.
/// It starts absent, is created by the first [`once`](RegistrationGuard::once)
/// and is never removed.
#[derive(Debug)]
pub struct RegistrationGuard {
    present: bool,
}

impl RegistrationGuard {
    /// Whether the marker has been created.
    pub closed spec fn is_set(&self) -> bool {
        self.present
    }

    /// A guard whose marker is absent.
    pub fn new() -> (r: RegistrationGuard)
        ensures
            !r.is_set(),
    {
        RegistrationGuard { present: false }
    }

    /// Whether the marker has been created.
    pub fn is_registered(&self) -> (r: bool)
        ensures
            r == self.is_set(),
    {
        self.present
    }

    /// Checks for the marker and creates it if absent. Returns `true` exactly
    /// when this call created it: the caller then runs the setup step, which
    /// thus runs once over any number of calls.
    pub fn once(&mut self) -> (first: bool)
        ensures
            first == !old(self).is_set(),
            final(self).is_set(),
    {
        if self.present {
            false
        } else {
            self.present = true;
            true
        }
    }
}

} // verus!
