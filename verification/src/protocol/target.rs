//! Targets of the `Target` domain: the pages and workers a browser holds.
use vstd::prelude::*;

pub mod methods;

verus! {

pub type TargetId = String;

#[derive(Debug, Clone, PartialEq)]
pub enum TargetType {
    Page,
    BackgroundPage,
    ServiceWorker,
    Browser,
    Other,
}

#[derive(Debug, Clone, PartialEq)]
pub struct TargetInfo {
    pub target_id: TargetId,
    pub target_type: TargetType,
    pub title: String,
    pub url: String,
    pub attached: bool,
    pub opener_id: Option<String>,
    pub browser_context_id: Option<String>,
}

} // verus!
