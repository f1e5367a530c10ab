//! Commands of the `DOM` domain and the shapes of their replies.
use vstd::prelude::*;

use crate::protocol::dom::Node;
use crate::protocol::dom::NodeId;
use crate::protocol::Method;

verus! {

#[derive(Debug, PartialEq)]
pub struct GetDocument {
    pub depth: Option<i8>,
    pub pierce: Option<bool>,
}

#[derive(Debug, PartialEq)]
pub struct GetDocumentReturnObject {
    pub root: Node,
}

impl Method for GetDocument {
    const NAME: &'static str = "DOM.getDocument";

    type ReturnObject = GetDocumentReturnObject;
}

#[derive(Debug, PartialEq)]
pub struct DescribeNode {
    pub node_id: Option<NodeId>,
    pub backend_node_id: Option<NodeId>,
    pub depth: Option<i8>,
}

#[derive(Debug, PartialEq)]
pub struct DescribeNodeReturnObject {
    pub node: Node,
}

impl Method for DescribeNode {
    const NAME: &'static str = "DOM.describeNode";

    type ReturnObject = DescribeNodeReturnObject;
}

#[derive(Debug, PartialEq)]
pub struct QuerySelector<'a> {
    pub node_id: NodeId,
    pub selector: &'a str,
}

#[derive(Debug, PartialEq)]
pub struct QuerySelectorReturnObject {
    /// The node that matches, or 0 where none does.
    pub node_id: NodeId,
}

impl<'a> Method for QuerySelector<'a> {
    const NAME: &'static str = "DOM.querySelector";

    type ReturnObject = QuerySelectorReturnObject;
}

#[derive(Debug, PartialEq)]
pub struct QuerySelectorAll<'a> {
    pub node_id: NodeId,
    pub selector: &'a str,
}

#[derive(Debug, PartialEq)]
pub struct QuerySelectorAllReturnObject {
    pub node_ids: Vec<NodeId>,
}

impl<'a> Method for QuerySelectorAll<'a> {
    const NAME: &'static str = "DOM.querySelectorAll";

    type ReturnObject = QuerySelectorAllReturnObject;
}

} // verus!
