//! Nodes of the `DOM` domain.
use vstd::prelude::*;

pub mod methods;

verus! {

pub type NodeId = u16;

#[derive(Debug, PartialEq)]
pub struct Node {
    pub node_id: NodeId,
    pub backend_node_id: NodeId,
    pub node_type: u8,
    pub node_name: String,
    pub node_value: String,
    pub children: Option<Vec<Node>>,
}

} // verus!
