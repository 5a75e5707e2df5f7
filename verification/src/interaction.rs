//! Semantic interaction targets and how draw items map to them.
use vstd::prelude::*;
use crate::draw::{EntityMetadata, HitLayer};
use crate::ids::{EdgeId, NodeId, SocketId};

verus! {

/// Kinds of overlay that can be interacted with.
#[derive(Debug, Clone, Copy, PartialEq, Eq, Structural)]
pub enum OverlayKind {
    SelectionBox,
    Gizmo,
}

/// What a pointer interaction is about.
#[derive(Debug, Clone, Copy, PartialEq, Eq, Structural)]
pub enum InteractionTarget {
    NoTarget,
    Node { node_id: NodeId },
    NodeHeader { node_id: NodeId },
    Socket { node_id: NodeId, socket_id: SocketId },
    Edge { edge_id: EdgeId },
    Overlay { kind: OverlayKind },
}

/// The target of a draw item with entity `entity` on hit layer `hit_layer`:
/// a node's header and body map to the header and the node, other layers of a
/// node to nothing; sockets and edges map to themselves whatever the layer.
pub open spec fn target_of(entity: EntityMetadata, hit_layer: HitLayer) -> InteractionTarget {
    match entity {
        EntityMetadata::NoEntity => InteractionTarget::NoTarget,
        EntityMetadata::Node(node_id) => match hit_layer {
            HitLayer::NodeHeader => InteractionTarget::NodeHeader { node_id },
            HitLayer::NodeBody => InteractionTarget::Node { node_id },
            _ => InteractionTarget::NoTarget,
        },
        EntityMetadata::Socket { node_id, socket_id } => InteractionTarget::Socket { node_id, socket_id },
        EntityMetadata::Edge(edge_id) => InteractionTarget::Edge { edge_id },
    }
}

/// Maps a draw item, given by its entity and hit layer, to its interaction target.
pub fn map_draw_item_to_target(entity: EntityMetadata, hit_layer: HitLayer) -> (t: InteractionTarget)
    ensures
        t == target_of(entity, hit_layer),
{
    match entity {
        EntityMetadata::NoEntity => InteractionTarget::NoTarget,
        EntityMetadata::Node(node_id) => match hit_layer {
            HitLayer::NodeHeader => InteractionTarget::NodeHeader { node_id },
            HitLayer::NodeBody => InteractionTarget::Node { node_id },
            _ => InteractionTarget::NoTarget,
        },
        EntityMetadata::Socket { node_id, socket_id } => InteractionTarget::Socket { node_id, socket_id },
        EntityMetadata::Edge(edge_id) => InteractionTarget::Edge { edge_id },
    }
}

} // verus!
