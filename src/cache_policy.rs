//! How long each kind of vendor lookup may be served from cache.
use vstd::prelude::*;

verus! {

/// A call to the vendor's HTTP API.
#[derive(Clone, Copy, Debug, PartialEq, Eq, Structural)]
pub enum Endpoint {
    User,
    DeviceList,
    Device,
    Actions,
    /// Submitting an action; it changes state and is never cached.
    ActionSubmission,
}

/// Seconds an answer of `e` stays valid; none for a call never cached.
pub open spec fn ttl_of(e: Endpoint) -> Option<u64> {
    match e {
        Endpoint::User => Some(300),
        Endpoint::DeviceList => Some(60),
        Endpoint::Device => Some(30),
        Endpoint::Actions => Some(30),
        Endpoint::ActionSubmission => None,
    }
}

pub fn cache_ttl_secs(e: Endpoint) -> (r: Option<u64>)
    ensures
        r == ttl_of(e),
{
    match e {
        Endpoint::User => Some(300),
        Endpoint::DeviceList => Some(60),
        Endpoint::Device => Some(30),
        Endpoint::Actions => Some(30),
        Endpoint::ActionSubmission => None,
    }
}

} // verus!
