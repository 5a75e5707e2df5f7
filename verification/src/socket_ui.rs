//! How sockets are presented.
use vstd::prelude::*;
use crate::ids::SocketId;

verus! {

/// The shape drawn for a socket.
#[derive(Debug, Clone, Copy, PartialEq, Eq, Structural)]
pub enum SocketVisualType {
    Circle,
    Diamond,
    Square,
    Triangle,
}

impl Default for SocketVisualType {
    /// Sockets are circles unless stated otherwise.
    fn default() -> (v: Self)
        ensures
            v == SocketVisualType::Circle,
    {
        SocketVisualType::Circle
    }
}

/// The presentation of one socket: its id, label and shape.
#[derive(Debug, Clone)]
pub struct SocketUIDefinition {
    pub id: SocketId,
    pub label: String,
    pub visual: SocketVisualType,
}

impl SocketUIDefinition {
    /// The presentation of socket `id` with `label` drawn as `visual`.
    pub fn new(id: SocketId, label: String, visual: SocketVisualType) -> (d: Self)
        ensures
            d.id == id,
            d.label@ == label@,
            d.visual == visual,
    {
        SocketUIDefinition { id, label, visual }
    }
}

} // verus!
