//! Commands of the `Page` domain and the shapes of their replies.
use vstd::prelude::*;

use crate::protocol::page::InternalScreenshotFormat;
use crate::protocol::page::Viewport;
use crate::protocol::Method;

verus! {

#[derive(Debug, PartialEq)]
pub struct Enable {}

#[derive(Debug, PartialEq)]
pub struct EnableReturnObject {}

impl Method for Enable {
    const NAME: &'static str = "Page.enable";

    type ReturnObject = EnableReturnObject;
}

#[derive(Debug, PartialEq)]
pub struct SetLifecycleEventsEnabled {
    pub enabled: bool,
}

#[derive(Debug, PartialEq)]
pub struct SetLifecycleEventsEnabledReturnObject {}

impl Method for SetLifecycleEventsEnabled {
    const NAME: &'static str = "Page.setLifecycleEventsEnabled";

    type ReturnObject = SetLifecycleEventsEnabledReturnObject;
}

#[derive(Debug, PartialEq)]
pub struct Navigate<'a> {
    pub url: &'a str,
}

#[derive(Debug, PartialEq)]
pub struct NavigateReturnObject {
    pub frame_id: String,
    pub loader_id: Option<String>,
    /// Set where the navigation failed.
    pub error_text: Option<String>,
}

impl<'a> Method for Navigate<'a> {
    const NAME: &'static str = "Page.navigate";

    type ReturnObject = NavigateReturnObject;
}

#[derive(Debug, PartialEq)]
pub struct Reload<'a> {
    pub ignore_cache: bool,
    pub script_to_evaluate: Option<&'a str>,
}

#[derive(Debug, PartialEq)]
pub struct ReloadReturnObject {}

impl<'a> Method for Reload<'a> {
    const NAME: &'static str = "Page.reload";

    type ReturnObject = ReloadReturnObject;
}

#[derive(Debug, PartialEq)]
pub struct CaptureScreenshot<N> {
    pub format: InternalScreenshotFormat,
    pub quality: Option<u8>,
    pub clip: Option<Viewport<N>>,
    pub from_surface: bool,
}

#[derive(Debug, PartialEq)]
pub struct CaptureScreenshotReturnObject {
    /// The image, in base64.
    pub data: String,
}

impl<N> Method for CaptureScreenshot<N> {
    const NAME: &'static str = "Page.captureScreenshot";

    type ReturnObject = CaptureScreenshotReturnObject;
}

} // verus!
