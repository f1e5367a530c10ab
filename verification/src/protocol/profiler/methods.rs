//! Commands of the `Profiler` domain and the shapes of their replies.
use vstd::prelude::*;

use crate::protocol::profiler::ScriptCoverage;
use crate::protocol::Method;

verus! {

#[derive(Debug, PartialEq)]
pub struct Enable {}

#[derive(Debug, PartialEq)]
pub struct EnableReturnObject {}

impl Method for Enable {
    const NAME: &'static str = "Profiler.enable";

    type ReturnObject = EnableReturnObject;
}

#[derive(Debug, PartialEq)]
pub struct Disable {}

#[derive(Debug, PartialEq)]
pub struct DisableReturnObject {}

impl Method for Disable {
    const NAME: &'static str = "Profiler.disable";

    type ReturnObject = DisableReturnObject;
}

#[derive(Debug, PartialEq)]
pub struct StartPreciseCoverage {
    pub call_count: Option<bool>,
    pub detailed: Option<bool>,
}

#[derive(Debug, PartialEq)]
pub struct StartPreciseCoverageReturnObject {}

impl Method for StartPreciseCoverage {
    const NAME: &'static str = "Profiler.startPreciseCoverage";

    type ReturnObject = StartPreciseCoverageReturnObject;
}

#[derive(Debug, PartialEq)]
pub struct StopPreciseCoverage {}

#[derive(Debug, PartialEq)]
pub struct StopPreciseCoverageReturnObject {}

impl Method for StopPreciseCoverage {
    const NAME: &'static str = "Profiler.stopPreciseCoverage";

    type ReturnObject = StopPreciseCoverageReturnObject;
}

#[derive(Debug, PartialEq)]
pub struct TakePreciseCoverage {}

#[derive(Debug, PartialEq)]
pub struct TakePreciseCoverageReturnObject {
    pub result: Vec<ScriptCoverage>,
}

impl Method for TakePreciseCoverage {
    const NAME: &'static str = "Profiler.takePreciseCoverage";

    type ReturnObject = TakePreciseCoverageReturnObject;
}

} // verus!
