//! Commands of the `Target` domain and the shapes of their replies.
use vstd::prelude::*;

use crate::protocol::Method;

verus! {

#[derive(Debug, PartialEq)]
pub struct AttachToTarget<'a> {
    pub target_id: &'a str,
    pub flatten: Option<bool>,
}

#[derive(Debug, PartialEq)]
pub struct AttachToTargetReturnObject {
    pub session_id: String,
}

impl<'a> Method for AttachToTarget<'a> {
    const NAME: &'static str = "Target.attachToTarget";

    type ReturnObject = AttachToTargetReturnObject;
}

} // verus!
