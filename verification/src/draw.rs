//! Draw ordering: layers, sort keys, the stable draw order of a frame, and
//! where a node goes in the stacking order.
use vstd::prelude::*;
use crate::ids::{EdgeId, NodeId, SocketId};

verus! {

/// The drawing layers, from back to front.
#[derive(Debug, Clone, Copy, PartialEq, Eq, Structural)]
pub enum DrawLayer {
    Grid,
    Edges,
    NodeBody,
    NodeHeader,
    NodeSockets,
    NodeText,
    Overlays,
}

/// The rank of a layer: 0, 10, 20, 30, 40, 50 and 100 from back to front.
pub open spec fn layer_rank(layer: DrawLayer) -> int {
    match layer {
        DrawLayer::Grid => 0,
        DrawLayer::Edges => 10,
        DrawLayer::NodeBody => 20,
        DrawLayer::NodeHeader => 30,
        DrawLayer::NodeSockets => 40,
        DrawLayer::NodeText => 50,
        DrawLayer::Overlays => 100,
    }
}

impl DrawLayer {
    /// The rank of this layer.
    pub fn rank(&self) -> (r: i32)
        ensures
            r == layer_rank(*self),
    {
        match self {
            DrawLayer::Grid => 0,
            DrawLayer::Edges => 10,
            DrawLayer::NodeBody => 20,
            DrawLayer::NodeHeader => 30,
            DrawLayer::NodeSockets => 40,
            DrawLayer::NodeText => 50,
            DrawLayer::Overlays => 100,
        }
    }
}

/// The key by which draw items are ordered: layer rank times 10 000, plus z.
pub open spec fn sort_key_spec(layer: DrawLayer, z: i32) -> int {
    layer_rank(layer) * 10000 + z
}

/// The sort key of an item in `layer` at height `z`.
pub fn sort_key(layer: DrawLayer, z: i32) -> (k: i32)
    requires
        i32::MIN <= sort_key_spec(layer, z) <= i32::MAX,
    ensures
        k == sort_key_spec(layer, z),
{
    layer.rank() * 10000 + z
}

/// Semantic regions that pointer interaction distinguishes.
#[derive(Debug, Clone, Copy, PartialEq, Eq, Structural)]
pub enum HitLayer {
    NoHit,
    Background,
    Edges,
    NodeBody,
    NodeHeader,
    NodeSockets,
    Overlay,
}

/// Depth bands of the scene, from farthest to nearest.
#[derive(Debug, Clone, Copy, PartialEq, Eq, Structural)]
pub enum DepthLayer {
    Grid,
    Edges,
    NodesInactive,
    NodesActive,
    NodesDragged,
    Overlay,
}

/// The document entity a draw item belongs to.
#[derive(Debug, Clone, Copy, PartialEq, Eq, Structural)]
pub enum EntityMetadata {
    NoEntity,
    Node(NodeId),
    Socket { node_id: NodeId, socket_id: SocketId },
    Edge(EdgeId),
}

impl Default for EntityMetadata {
    /// No entity.
    fn default() -> (e: Self)
        ensures
            e == EntityMetadata::NoEntity,
    {
        EntityMetadata::NoEntity
    }
}

/// The stacking height of a node: 100 when selected, plus 200 when active,
/// plus 1000 when dragged.
pub open spec fn node_z_spec(selected: bool, active: bool, dragged: bool) -> int {
    (if selected { 100int } else { 0int }) + (if active { 200int } else { 0int }) + (if dragged { 1000int } else { 0int })
}

/// The stacking height of a node.
pub fn node_z_index(selected: bool, active: bool, dragged: bool) -> (z: i32)
    ensures
        z == node_z_spec(selected, active, dragged),
{
    let mut z: i32 = 0;
    if selected {
        z = z + 100;
    }
    if active {
        z = z + 200;
    }
    if dragged {
        z = z + 1000;
    }
    z
}

/// The depth band of a node: dragged nodes in front, then the active one, then the rest.
pub fn node_depth_layer(dragged: bool, active: bool) -> (d: DepthLayer)
    ensures
        d == (if dragged {
            DepthLayer::NodesDragged
        } else if active {
            DepthLayer::NodesActive
        } else {
            DepthLayer::NodesInactive
        }),
{
    if dragged {
        DepthLayer::NodesDragged
    } else if active {
        DepthLayer::NodesActive
    } else {
        DepthLayer::NodesInactive
    }
}

/// Item `a` comes no later than item `b`: smaller key, or equal keys and `a` first in the input.
pub open spec fn drawn_before(keys: Seq<i32>, a: int, b: int) -> bool {
    keys[a] < keys[b] || (keys[a] == keys[b] && a <= b)
}

/// `order` lists each of the indices `0..n` exactly once.
pub open spec fn is_permutation(order: Seq<usize>, n: nat) -> bool {
    &&& order.len() == n
    &&& forall|j: int| 0 <= j < order.len() ==> (#[trigger] order[j]) < n
    &&& order.no_duplicates()
}

/// `order` is sorted by key, items with equal keys keeping their input order.
pub open spec fn stably_sorted(keys: Seq<i32>, order: Seq<usize>) -> bool {
    forall|a: int, b: int| 0 <= a < b < order.len() ==> drawn_before(keys, #[trigger] order[a] as int, #[trigger] order[b] as int)
}

/// The order in which to draw items with sort keys `keys`: a stable sort of
/// their indices by key.
pub fn draw_order(keys: &Vec<i32>) -> (order: Vec<usize>)
    ensures
        is_permutation(order@, keys@.len()),
        stably_sorted(keys@, order@),
{
    let mut order: Vec<usize> = Vec::new();
    let mut i: usize = 0;
    while i < keys.len()
        invariant
            i <= keys@.len(),
            is_permutation(order@, i as nat),
            stably_sorted(keys@, order@),
        decreases keys@.len() - i,
    {
        let ki = keys[i];
        let mut p: usize = 0;
        while p < order.len() && keys[order[p]] <= ki
            invariant
                p <= order@.len(),
                is_permutation(order@, i as nat),
                i < keys@.len(),
                ki == keys@[i as int],
                forall|j: int| 0 <= j < p ==> keys@[#[trigger] order@[j] as int] <= ki,
            decreases order@.len() - p,
        {
            p = p + 1;
        }
        let ghost before = order@;
        proof {
            // every index after p has a larger key, since the prefix up to p is
            // the block of keys not above `ki` in a sorted order
            assert forall|j: int| p <= j < before.len() implies keys@[#[trigger] before[j] as int] > ki by {
                if p < before.len() {
                    assert(keys@[before[p as int] as int] > ki);
                    if j > p {
                        assert(drawn_before(keys@, before[p as int] as int, before[j] as int));
                    }
                }
            }
        }
        order.insert(p, i);
        proof {
            let after = order@;
            assert(after =~= before.insert(p as int, i));
            assert forall|j: int| 0 <= j < after.len() implies (#[trigger] after[j]) < i + 1 by {
                if j < p {
                    assert(after[j] == before[j]);
                } else if j > p {
                    assert(after[j] == before[j - 1]);
                }
            }
            assert forall|a: int, b: int| 0 <= a < after.len() && 0 <= b < after.len() && a != b implies after[a] != after[b] by {
                if a != p && b != p {
                    let sa = if a < p { a } else { a - 1 };
                    let sb = if b < p { b } else { b - 1 };
                    assert(after[a] == before[sa]);
                    assert(after[b] == before[sb]);
                } else if a == p {
                    let sb = if b < p { b } else { b - 1 };
                    assert(after[b] == before[sb]);
                    assert(before[sb] < i);
                } else {
                    let sa = if a < p { a } else { a - 1 };
                    assert(after[a] == before[sa]);
                    assert(before[sa] < i);
                }
            }
            assert forall|a: int, b: int| 0 <= a < b < after.len() implies drawn_before(keys@, #[trigger] after[a] as int, #[trigger] after[b] as int) by {
                if a != p && b != p {
                    let sa = if a < p { a } else { a - 1 };
                    let sb = if b < p { b } else { b - 1 };
                    assert(after[a] == before[sa]);
                    assert(after[b] == before[sb]);
                } else if a == p {
                    let sb = b - 1;
                    assert(after[b] == before[sb]);
                    assert(keys@[before[sb] as int] > ki);
                } else {
                    assert(after[a] == before[a]);
                    assert(keys@[before[a] as int] <= ki);
                    assert(before[a] < i);
                }
            }
        }
        i = i + 1;
    }
    order
}

/// Layers are drawn back to front in the order they are declared: grid,
/// edges, node bodies, headers, sockets, text, overlays, with edges at rank 10.
/// An item on a layer drawn later sorts after an item on a layer drawn earlier
/// whatever their heights, as long as heights stay within 5 000 either way (a
/// node's height is at most 1 300); so edges always lie beneath every part of
/// a node.
pub proof fn lemma_layers_back_to_front(a: DrawLayer, b: DrawLayer, za: i32, zb: i32)
    ensures
        layer_rank(DrawLayer::Grid) < layer_rank(DrawLayer::Edges),
        layer_rank(DrawLayer::Edges) < layer_rank(DrawLayer::NodeBody),
        layer_rank(DrawLayer::NodeBody) < layer_rank(DrawLayer::NodeHeader),
        layer_rank(DrawLayer::NodeHeader) < layer_rank(DrawLayer::NodeSockets),
        layer_rank(DrawLayer::NodeSockets) < layer_rank(DrawLayer::NodeText),
        layer_rank(DrawLayer::NodeText) < layer_rank(DrawLayer::Overlays),
        layer_rank(DrawLayer::Edges) == 10,
        layer_rank(a) < layer_rank(b) && -5000 < za < 5000 && -5000 < zb < 5000
            ==> sort_key_spec(a, za) < sort_key_spec(b, zb),
        a != DrawLayer::Grid && a != DrawLayer::Edges && -5000 < za < 5000 && -5000 < zb < 5000
            ==> sort_key_spec(DrawLayer::Edges, zb) < sort_key_spec(a, za),
        layer_rank(a) == layer_rank(b) ==> a == b,
{
}

/// A dragged node stacks above every node that is not dragged; an active node
/// above every node that is neither active nor dragged; and, other things
/// equal, a selected node above an unselected one. The depth band follows the
/// same order: dragged nodes in front, then the active one, then the rest.
pub proof fn lemma_node_stacking_order(s1: bool, a1: bool, s2: bool, a2: bool)
    ensures
        node_z_spec(s1, a1, true) > node_z_spec(s2, a2, false),
        node_z_spec(s1, true, false) > node_z_spec(s2, false, false),
        node_z_spec(true, a1, false) > node_z_spec(false, a1, false),
        node_z_spec(true, a1, true) > node_z_spec(false, a1, true),
        node_z_spec(false, false, false) == 0,
        0 <= node_z_spec(s1, a1, s2) <= 1300,
{
}

} // verus!
