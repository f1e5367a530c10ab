//! Events of the `Page` domain.
use vstd::prelude::*;

verus! {

#[derive(Debug, PartialEq)]
pub struct LifecycleParams {
    pub frame_id: String,
    pub loader_id: String,
    /// Which milestone of loading was reached.
    pub name: String,
}

/// A page reached a milestone of loading.
#[derive(Debug, PartialEq)]
pub struct LifecycleEvent {
    pub params: LifecycleParams,
}

} // verus!
