//! Identifiers of document entities and the commands that edit a document.
use vstd::prelude::*;

verus! {

/// Identifier of a node in the document.
#[derive(Debug, Clone, Copy, PartialEq, Eq, Hash, Structural)]
pub struct NodeId(pub u64);

/// Identifier of a socket (an input or output port of a node).
#[derive(Debug, Clone, Copy, PartialEq, Eq, Hash, Structural)]
pub struct SocketId(pub u64);

/// Identifier of an edge (a link from an output socket to an input socket).
#[derive(Debug, Clone, Copy, PartialEq, Eq, Hash, Structural)]
pub struct EdgeId(pub u64);

/// A point in world space. Each coordinate is held as the bit pattern of an
/// IEEE-754 single-precision number; the library stores and compares these
/// points but never computes with them.
#[derive(Debug, Clone, Copy, PartialEq, Eq, Hash, Structural)]
pub struct NodePosition {
    pub x_bits: u32,
    pub y_bits: u32,
}

impl NodePosition {
    /// The point whose coordinates have the given bit patterns.
    pub fn from_bits(x_bits: u32, y_bits: u32) -> (p: NodePosition)
        ensures
            p.x_bits == x_bits,
            p.y_bits == y_bits,
    {
        NodePosition { x_bits, y_bits }
    }
}

/// An atomic edit of the document.
#[derive(Debug, Clone, Copy, PartialEq, Eq, Structural)]
pub enum EditorCommand {
    MoveNode { node_id: NodeId, position: NodePosition },
    RemoveNode { node_id: NodeId },
    Connect { from: SocketId, to: SocketId },
    Disconnect { edge_id: EdgeId },
}

} // verus!
