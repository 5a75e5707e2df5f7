//! Hit testing: which semantic target lies under the pointer.
//!
//! The geometric tests (distances, containment) are made by the caller on
//! floating-point coordinates; this module decides, from their outcomes, which
//! target wins.
use vstd::prelude::*;
use crate::descriptors::SocketDirection;
use crate::ids::{EdgeId, NodeId, SocketId};

verus! {

/// Why a hit test is made; box selection only considers nodes.
#[derive(Debug, Clone, Copy, PartialEq, Eq, Structural)]
pub enum HitTestContext {
    Hover,
    Click,
    Drag,
    BoxSelect,
}

/// The part of a node that was hit.
#[derive(Debug, Clone, Copy, PartialEq, Eq, Structural)]
pub enum NodeRegion {
    Header,
    Body,
}

/// The target found under the pointer.
#[derive(Debug, Clone, Copy, PartialEq, Eq, Structural)]
pub enum HitResult {
    Node { node_id: NodeId, region: NodeRegion },
    Socket { socket_id: SocketId, direction: SocketDirection },
    Edge { edge_id: EdgeId },
    Background,
}

/// The result of a hit test given the best socket, node and edge candidates:
/// sockets win over nodes, nodes over edges; box selection ignores sockets and edges.
pub open spec fn hit_priority(
    context: HitTestContext,
    socket_hit: Option<HitResult>,
    node_hit: Option<HitResult>,
    edge_hit: Option<HitResult>,
) -> HitResult {
    if context != HitTestContext::BoxSelect && socket_hit is Some {
        socket_hit->0
    } else if node_hit is Some {
        node_hit->0
    } else if context != HitTestContext::BoxSelect && edge_hit is Some {
        edge_hit->0
    } else {
        HitResult::Background
    }
}

/// Combines the candidates of the three hit tests by priority.
pub fn resolve_hit(
    context: HitTestContext,
    socket_hit: Option<HitResult>,
    node_hit: Option<HitResult>,
    edge_hit: Option<HitResult>,
) -> (r: HitResult)
    ensures
        r == hit_priority(context, socket_hit, node_hit, edge_hit),
{
    let box_select = match context {
        HitTestContext::BoxSelect => true,
        _ => false,
    };
    if !box_select {
        if let Some(hit) = socket_hit {
            return hit;
        }
    }
    if let Some(hit) = node_hit {
        return hit;
    }
    if !box_select {
        if let Some(hit) = edge_hit {
            return hit;
        }
    }
    HitResult::Background
}

/// Node `i` is under the pointer (its header or its body contains it).
pub open spec fn node_touched(in_header: Seq<bool>, in_body: Seq<bool>, i: int) -> bool {
    in_header[i] || in_body[i]
}

/// The topmost node under the pointer. Nodes are drawn in order, so the last
/// one that contains the point is on top; within a node the header is tested
/// before the body. `in_header[i]` and `in_body[i]` tell whether the pointer
/// lies in the header and body rectangles of node `i`.
pub fn topmost_node_hit(node_ids: &[NodeId], in_header: &[bool], in_body: &[bool]) -> (r: Option<HitResult>)
    requires
        in_header@.len() == node_ids@.len(),
        in_body@.len() == node_ids@.len(),
    ensures
        r is None <==> forall|i: int| 0 <= i < node_ids@.len() ==> !node_touched(in_header@, in_body@, i),
        r is Some ==> exists|i: int| {
            &&& 0 <= i < node_ids@.len()
            &&& node_touched(in_header@, in_body@, i)
            &&& forall|j: int| i < j < node_ids@.len() ==> !node_touched(in_header@, in_body@, j)
            &&& r == Some(HitResult::Node {
                node_id: node_ids@[i],
                region: if in_header@[i] { NodeRegion::Header } else { NodeRegion::Body },
            })
        },
{
    let mut k = node_ids.len();
    while k > 0
        invariant
            k <= node_ids@.len(),
            in_header@.len() == node_ids@.len(),
            in_body@.len() == node_ids@.len(),
            forall|j: int| k <= j < node_ids@.len() ==> !node_touched(in_header@, in_body@, j),
        decreases k,
    {
        let i = k - 1;
        if in_header[i] {
            assert(node_touched(in_header@, in_body@, i as int));
            return Some(HitResult::Node { node_id: node_ids[i], region: NodeRegion::Header });
        }
        if in_body[i] {
            assert(node_touched(in_header@, in_body@, i as int));
            return Some(HitResult::Node { node_id: node_ids[i], region: NodeRegion::Body });
        }
        k = i;
    }
    None
}

/// The first edge, in drawing order, that lies within the pick tolerance of the pointer.
/// `within[i]` tells whether edge `i` does.
pub fn first_edge_hit(edge_ids: &[EdgeId], within: &[bool]) -> (r: Option<HitResult>)
    requires
        within@.len() == edge_ids@.len(),
    ensures
        r is None <==> forall|i: int| 0 <= i < edge_ids@.len() ==> !within@[i],
        r is Some ==> exists|i: int| {
            &&& 0 <= i < edge_ids@.len()
            &&& within@[i]
            &&& forall|j: int| 0 <= j < i ==> !within@[j]
            &&& r == Some(HitResult::Edge { edge_id: edge_ids@[i] })
        },
{
    let mut i: usize = 0;
    while i < edge_ids.len()
        invariant
            i <= edge_ids@.len(),
            within@.len() == edge_ids@.len(),
            forall|j: int| 0 <= j < i ==> !within@[j],
        decreases edge_ids@.len() - i,
    {
        if within[i] {
            return Some(HitResult::Edge { edge_id: edge_ids[i] });
        }
        i = i + 1;
    }
    None
}

/// The order in which hit candidates win. Outside box selection a socket under
/// the pointer beats everything else. With no socket in play, a node beats any
/// edge, in every context. An edge is picked only outside box selection, and
/// only when neither a socket nor a node lies under the pointer. Box selection
/// sees nodes and nothing else. With no candidate at all, the background is hit.
pub proof fn lemma_hit_priority_order(
    context: HitTestContext,
    socket_hit: Option<HitResult>,
    node_hit: Option<HitResult>,
    edge_hit: Option<HitResult>,
)
    ensures
        context != HitTestContext::BoxSelect && socket_hit is Some
            ==> hit_priority(context, socket_hit, node_hit, edge_hit) == socket_hit->0,
        socket_hit is None && node_hit is Some
            ==> hit_priority(context, socket_hit, node_hit, edge_hit) == node_hit->0,
        context != HitTestContext::BoxSelect && socket_hit is None && node_hit is None && edge_hit is Some
            ==> hit_priority(context, socket_hit, node_hit, edge_hit) == edge_hit->0,
        context == HitTestContext::BoxSelect ==> hit_priority(context, socket_hit, node_hit, edge_hit) == (
            match node_hit { Some(n) => n, None => HitResult::Background }),
        socket_hit is None && node_hit is None && edge_hit is None
            ==> hit_priority(context, socket_hit, node_hit, edge_hit) == HitResult::Background,
        hit_priority(context, socket_hit, node_hit, edge_hit) == HitResult::Background
            || Some(hit_priority(context, socket_hit, node_hit, edge_hit)) == socket_hit
            || Some(hit_priority(context, socket_hit, node_hit, edge_hit)) == node_hit
            || Some(hit_priority(context, socket_hit, node_hit, edge_hit)) == edge_hit,
{
}

} // verus!
