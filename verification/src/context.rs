//! Request-scoped store that carries the capability profile to every
//! resolver and predicate serving one request, without explicit parameter
//! threading.

use vstd::prelude::*;

use crate::profile::CapabilityProfile;

verus! {

/// One request's ambient data. It is populated exactly once, before any
/// resolver or predicate runs, and is read-only thereafter; it never outlives
/// the request it belongs to. A context holding no profile means "no
/// capability information available", which predicates treat as "nothing
/// asserted" (they fail closed, not open).
pub struct RequestContext {
    pub profile: Option<CapabilityProfile>,
}

impl RequestContext {
    /// A context outside any request, or before population: no capability
    /// information is available.
    pub fn new() -> (c: Self)
        ensures
            c.profile is None,
    {
        RequestContext { profile: None }
    }

    /// Store the request's profile. Write-once: the store must not already
    /// hold one.
    pub fn put_profile(&mut self, p: CapabilityProfile)
        requires
            old(self).profile is None,
        ensures
            final(self).profile == Some(p),
    {
        self.profile = Some(p);
    }

    /// Read the stored profile; `None` reports absence explicitly rather
    /// than failing.
    pub fn get_profile(&self) -> (r: Option<CapabilityProfile>)
        ensures
            r == self.profile,
    {
        self.profile
    }
}

} // verus!
