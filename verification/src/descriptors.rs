//! Immutable descriptions of the document's nodes, sockets and edges.
use vstd::prelude::*;
use crate::ids::{EdgeId, NodeId, NodePosition, SocketId};

verus! {

/// Whether a socket receives values (input) or produces them (output).
#[derive(Debug, Clone, Copy, PartialEq, Eq, Hash, Structural)]
pub enum SocketDirection {
    Input,
    Output,
}

/// A node of the document: its kind, where it stands and which sockets it owns.
#[derive(Debug, Clone)]
pub struct NodeDescriptor {
    pub node_id: NodeId,
    pub node_kind: String,
    pub position: NodePosition,
    pub inputs: Vec<SocketId>,
    pub outputs: Vec<SocketId>,
    pub diagnostics: Vec<String>,
}

/// A socket of the document and the edges attached to it.
#[derive(Debug, Clone)]
pub struct SocketDescriptor {
    pub socket_id: SocketId,
    pub node_id: NodeId,
    pub name: String,
    pub direction: SocketDirection,
    pub value_type: Option<String>,
    pub default_value: Option<String>,
    pub connected_edges: Vec<EdgeId>,
    pub diagnostics: Vec<String>,
}

/// An edge of the document, from one socket to another.
#[derive(Debug, Clone)]
pub struct EdgeDescriptor {
    pub edge_id: EdgeId,
    pub from: SocketId,
    pub to: SocketId,
    pub diagnostics: Vec<String>,
}

} // verus!
