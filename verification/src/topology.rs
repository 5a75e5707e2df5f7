//! The structure of the render model: which sockets of each node are drawn,
//! in which slot, and which edges can be drawn between them. Coordinates are
//! computed by the caller from slot numbers.
use vstd::prelude::*;
use crate::descriptors::{EdgeDescriptor, NodeDescriptor, SocketDescriptor};
use crate::ids::SocketId;

verus! {

/// The document describes socket `id`.
pub open spec fn is_known(sockets: Seq<SocketDescriptor>, id: SocketId) -> bool {
    exists|j: int| 0 <= j < sockets.len() && #[trigger] sockets[j].socket_id == id
}

/// Each socket of `ids` with its slot number (its position in `ids`).
pub open spec fn slotted(ids: Seq<SocketId>) -> Seq<(usize, SocketId)> {
    Seq::new(ids.len(), |i: int| (i as usize, ids[i]))
}

/// The drawn sockets of a node side: the sockets of `ids` that the document
/// describes, in order, each with its slot number.
pub open spec fn drawn_slots(ids: Seq<SocketId>, sockets: Seq<SocketDescriptor>) -> Seq<(usize, SocketId)> {
    slotted(ids).filter(|p: (usize, SocketId)| is_known(sockets, p.1))
}

/// Whether the document describes socket `id`.
pub fn socket_known(sockets: &[SocketDescriptor], id: SocketId) -> (r: bool)
    ensures
        r == is_known(sockets@, id),
{
    let mut j: usize = 0;
    while j < sockets.len()
        invariant
            j <= sockets@.len(),
            forall|k: int| 0 <= k < j ==> sockets@[k].socket_id != id,
        decreases sockets@.len() - j,
    {
        if sockets[j].socket_id == id {
            assert(sockets@[j as int].socket_id == id);
            return true;
        }
        j = j + 1;
    }
    false
}

/// The drawn sockets of one side of a node, with their slot numbers. A socket
/// the document does not describe leaves its slot empty.
pub fn socket_slots(ids: &Vec<SocketId>, sockets: &[SocketDescriptor]) -> (r: Vec<(usize, SocketId)>)
    ensures
        r@ == drawn_slots(ids@, sockets@),
{
    let ghost all = slotted(ids@);
    let ghost pred = |p: (usize, SocketId)| is_known(sockets@, p.1);
    let mut r: Vec<(usize, SocketId)> = Vec::new();
    let mut i: usize = 0;
    while i < ids.len()
        invariant
            i <= ids@.len(),
            all == slotted(ids@),
            pred == (|p: (usize, SocketId)| is_known(sockets@, p.1)),
            r@ == all.subrange(0, i as int).filter(pred),
        decreases ids@.len() - i,
    {
        let id = ids[i];
        proof {
            reveal_with_fuel(Seq::<_>::filter, 1);
            assert(all.subrange(0, i + 1).drop_last() =~= all.subrange(0, i as int));
            assert(all[i as int] == (i, id));
        }
        if socket_known(sockets, id) {
            r.push((i, id));
        }
        i = i + 1;
    }
    proof {
        assert(all.subrange(0, i as int) =~= all);
    }
    r
}

/// The sockets a node draws: its drawn inputs, then its drawn outputs.
pub open spec fn node_drawn_sockets(n: NodeDescriptor, sockets: Seq<SocketDescriptor>) -> Seq<SocketId> {
    drawn_slots(n.inputs@, sockets).map_values(|p: (usize, SocketId)| p.1)
        + drawn_slots(n.outputs@, sockets).map_values(|p: (usize, SocketId)| p.1)
}

/// Some node draws socket `id`, so it has a position.
pub open spec fn is_positioned(nodes: Seq<NodeDescriptor>, sockets: Seq<SocketDescriptor>, id: SocketId) -> bool {
    exists|k: int| 0 <= k < nodes.len() && #[trigger] node_drawn_sockets(nodes[k], sockets).contains(id)
}

/// The number of socket rows of a node: the longer of its two socket lists.
pub fn socket_rows(node: &NodeDescriptor) -> (n: usize)
    ensures
        n == (if node.inputs@.len() >= node.outputs@.len() { node.inputs@.len() } else { node.outputs@.len() }),
{
    if node.inputs.len() >= node.outputs.len() {
        node.inputs.len()
    } else {
        node.outputs.len()
    }
}

/// Whether `id` is among the sockets of `slots`.
fn in_slots(slots: &Vec<(usize, SocketId)>, id: SocketId) -> (r: bool)
    ensures
        r == slots@.map_values(|p: (usize, SocketId)| p.1).contains(id),
{
    let ghost ids = slots@.map_values(|p: (usize, SocketId)| p.1);
    let mut j: usize = 0;
    while j < slots.len()
        invariant
            j <= slots@.len(),
            ids == slots@.map_values(|p: (usize, SocketId)| p.1),
            forall|k: int| 0 <= k < j ==> ids[k] != id,
        decreases slots@.len() - j,
    {
        if slots[j].1 == id {
            assert(ids[j as int] == id);
            return true;
        }
        j = j + 1;
    }
    proof {
        if ids.contains(id) {
            let k = choose|k: int| 0 <= k < ids.len() && ids[k] == id;
            assert(ids[k] != id);
        }
    }
    false
}

/// Whether some node draws socket `id`.
pub fn socket_positioned(nodes: &[NodeDescriptor], sockets: &[SocketDescriptor], id: SocketId) -> (r: bool)
    ensures
        r == is_positioned(nodes@, sockets@, id),
{
    let mut k: usize = 0;
    while k < nodes.len()
        invariant
            k <= nodes@.len(),
            forall|m: int| 0 <= m < k ==> !#[trigger] node_drawn_sockets(nodes@[m], sockets@).contains(id),
        decreases nodes@.len() - k,
    {
        let ins = socket_slots(&nodes[k].inputs, sockets);
        let outs = socket_slots(&nodes[k].outputs, sockets);
        let found = in_slots(&ins, id) || in_slots(&outs, id);
        proof {
            let a = ins@.map_values(|p: (usize, SocketId)| p.1);
            let b = outs@.map_values(|p: (usize, SocketId)| p.1);
            let ab = node_drawn_sockets(nodes@[k as int], sockets@);
            assert(ab == a + b);
            if ab.contains(id) {
                let x = choose|x: int| 0 <= x < ab.len() && ab[x] == id;
                if x < a.len() {
                    assert(a[x] == id);
                } else {
                    assert(b[x - a.len()] == id);
                }
            }
            if a.contains(id) {
                let x = choose|x: int| 0 <= x < a.len() && a[x] == id;
                assert(ab[x] == id);
            }
            if b.contains(id) {
                let x = choose|x: int| 0 <= x < b.len() && b[x] == id;
                assert(ab[a.len() + x] == id);
            }
        }
        if found {
            return true;
        }
        k = k + 1;
    }
    false
}

/// The edges that can be drawn: those whose two sockets are drawn by some node.
pub open spec fn drawable_edge(nodes: Seq<NodeDescriptor>, sockets: Seq<SocketDescriptor>, e: EdgeDescriptor) -> bool {
    is_positioned(nodes, sockets, e.from) && is_positioned(nodes, sockets, e.to)
}

/// The positions in `edges` of the edges that can be drawn, in order.
pub fn build_render_edges(
    nodes: &[NodeDescriptor],
    sockets: &[SocketDescriptor],
    edges: &[EdgeDescriptor],
) -> (r: Vec<usize>)
    ensures
        r@.len() <= edges@.len(),
        forall|a: int, b: int| 0 <= a < b < r@.len() ==> r@[a] < r@[b],
        forall|a: int| 0 <= a < r@.len() ==> (#[trigger] r@[a]) < edges@.len() && drawable_edge(nodes@, sockets@, edges@[r@[a] as int]),
        forall|i: int| 0 <= i < edges@.len() && drawable_edge(nodes@, sockets@, #[trigger] edges@[i]) ==> r@.contains(i as usize),
{
    let mut r: Vec<usize> = Vec::new();
    let mut i: usize = 0;
    while i < edges.len()
        invariant
            i <= edges@.len(),
            r@.len() <= i,
            forall|a: int, b: int| 0 <= a < b < r@.len() ==> r@[a] < r@[b],
            forall|a: int| 0 <= a < r@.len() ==> (#[trigger] r@[a]) < i && drawable_edge(nodes@, sockets@, edges@[r@[a] as int]),
            forall|j: int| 0 <= j < i && drawable_edge(nodes@, sockets@, #[trigger] edges@[j]) ==> r@.contains(j as usize),
        decreases edges@.len() - i,
    {
        let from_ok = socket_positioned(nodes, sockets, edges[i].from);
        let to_ok = socket_positioned(nodes, sockets, edges[i].to);
        if from_ok && to_ok {
            let ghost before = r@;
            r.push(i);
            proof {
                assert forall|j: int| 0 <= j < i + 1 && drawable_edge(nodes@, sockets@, #[trigger] edges@[j]) implies r@.contains(j as usize) by {
                    if j < i {
                        let x = choose|x: int| 0 <= x < before.len() && before[x] == j as usize;
                        assert(r@[x] == j as usize);
                    } else {
                        assert(r@[before.len() as int] == i);
                    }
                }
            }
        }
        i = i + 1;
    }
    r
}

/// A node side draws socket `id` in slot `slot` exactly when `id` is the
/// socket listed at position `slot` and the document describes it; a socket
/// the document does not describe is never drawn, and a side draws at most as
/// many sockets as it lists.
pub proof fn lemma_drawn_slot_iff(ids: Seq<SocketId>, sockets: Seq<SocketDescriptor>, slot: usize, id: SocketId)
    requires
        ids.len() <= usize::MAX,
    ensures
        drawn_slots(ids, sockets).contains((slot, id))
            <==> (slot < ids.len() && ids[slot as int] == id && is_known(sockets, id)),
        drawn_slots(ids, sockets).len() <= ids.len(),
{
    let all = slotted(ids);
    let pred = |p: (usize, SocketId)| is_known(sockets, p.1);
    all.filter_lemma(pred);
    assert(drawn_slots(ids, sockets) == all.filter(pred));
    if all.filter(pred).contains((slot, id)) {
        all.lemma_filter_contains_rev(pred, (slot, id));
        let k = choose|k: int| 0 <= k < all.len() && all[k] == (slot, id);
        assert(all[k] == (k as usize, ids[k]));
        let j = choose|j: int| 0 <= j < all.filter(pred).len() && all.filter(pred)[j] == (slot, id);
        assert(pred(all.filter(pred)[j]));
    }
    if slot < ids.len() && ids[slot as int] == id && is_known(sockets, id) {
        assert(all[slot as int] == (slot, id));
        assert(pred(all[slot as int]));
    }
}

} // verus!
