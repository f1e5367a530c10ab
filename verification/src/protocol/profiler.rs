//! Coverage data of the `Profiler` domain.
use vstd::prelude::*;

pub mod methods;

verus! {

/// Coverage data for a source range.
#[derive(Debug, Clone, PartialEq)]
pub struct CoverageRange {
    /// JavaScript script source offset for the range start.
    pub start_offset: u32,
    /// JavaScript script source offset for the range end.
    pub end_offset: u32,
    /// Collected execution count of the source range.
    pub count: u32,
}

/// Coverage data for a JavaScript function.
#[derive(Debug, Clone, PartialEq)]
pub struct FunctionCoverage {
    pub function_name: String,
    /// Source ranges inside the function with coverage data.
    pub ranges: Vec<CoverageRange>,
}

/// JS line coverage information for a single script
#[derive(Debug, Clone, PartialEq)]
pub struct ScriptCoverage {
    pub script_id: String,
    /// Either the name or URL of a script loaded by the page
    pub url: String,
    /// Functions contained in the script that has coverage data
    pub functions: Vec<FunctionCoverage>,
}

} // verus!
