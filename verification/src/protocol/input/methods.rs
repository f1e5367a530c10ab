//! Commands of the `Input` domain and the shapes of their replies.
use vstd::prelude::*;

use crate::protocol::Method;

verus! {

#[derive(Debug, PartialEq)]
pub struct DispatchKeyEvent<'a> {
    pub event_type: &'a str,
    pub key: Option<&'a str>,
    pub text: Option<&'a str>,
    pub code: Option<&'a str>,
    pub windows_virtual_key_code: u8,
    pub native_virtual_key_code: u8,
}

#[derive(Debug, PartialEq)]
pub struct DispatchKeyEventReturnObject {}

impl<'a> Method for DispatchKeyEvent<'a> {
    const NAME: &'static str = "Input.dispatchKeyEvent";

    type ReturnObject = DispatchKeyEventReturnObject;
}

/// A mouse event at a point of the page. The library passes the coordinates
/// on and computes nothing with them, so it leaves their type to the caller.
#[derive(Debug, PartialEq)]
pub struct DispatchMouseEvent<'a, N> {
    pub event_type: &'a str,
    pub x: N,
    pub y: N,
    pub button: Option<&'a str>,
    pub click_count: Option<u8>,
}

#[derive(Debug, PartialEq)]
pub struct DispatchMouseEventReturnObject {}

impl<'a, N> Method for DispatchMouseEvent<'a, N> {
    const NAME: &'static str = "Input.dispatchMouseEvent";

    type ReturnObject = DispatchMouseEventReturnObject;
}

} // verus!
