//! Interaction state shared by all views: the node drag in progress.
use vstd::prelude::*;
use crate::ids::{NodeId, NodePosition};
use crate::selection::{first_index, is_first_index};

verus! {

/// The ids of a list of (node, position) pairs.
pub open spec fn pair_ids(ps: Seq<(NodeId, NodePosition)>) -> Seq<NodeId> {
    ps.map_values(|p: (NodeId, NodePosition)| p.0)
}

/// The position paired with the first occurrence of `id` in `ps`, if any.
pub open spec fn first_position(ps: Seq<(NodeId, NodePosition)>, id: NodeId) -> Option<NodePosition> {
    if pair_ids(ps).contains(id) {
        Some(ps[first_index(pair_ids(ps), id)].1)
    } else {
        None
    }
}

/// A node drag in progress: the dragged nodes, where the pointer started,
/// how far it has moved, and where each dragged node started.
#[derive(Debug, Clone)]
pub struct NodeDragState {
    pub node_ids: Vec<NodeId>,
    pub start_mouse_world: NodePosition,
    pub drag_delta: NodePosition,
    pub start_positions: Vec<(NodeId, NodePosition)>,
}

/// Interaction state shared by all views.
#[derive(Debug, Clone)]
pub struct GlobalInteractionState {
    pub node_drag: Option<NodeDragState>,
}

/// The bit pattern of the coordinate 0.
pub const ZERO_BITS: u32 = 0u32;

impl Default for GlobalInteractionState {
    /// No drag in progress.
    fn default() -> (s: Self)
        ensures
            s.node_drag is None,
    {
        GlobalInteractionState { node_drag: None }
    }
}

/// Whether `id` occurs in `ids`.
pub fn contains_node(ids: &Vec<NodeId>, id: NodeId) -> (r: bool)
    ensures
        r == ids@.contains(id),
{
    let mut i: usize = 0;
    while i < ids.len()
        invariant
            i <= ids@.len(),
            forall|j: int| 0 <= j < i ==> ids@[j] != id,
        decreases ids@.len() - i,
    {
        if ids[i] == id {
            assert(ids@[i as int] == id);
            return true;
        }
        i = i + 1;
    }
    proof {
        if ids@.contains(id) {
            let k = choose|k: int| 0 <= k < ids@.len() && ids@[k] == id;
            assert(ids@[k] != id);
        }
    }
    false
}

/// The position paired with the first occurrence of `id` in `ps`.
pub fn find_position(ps: &Vec<(NodeId, NodePosition)>, id: NodeId) -> (r: Option<NodePosition>)
    ensures
        r == first_position(ps@, id),
{
    let ghost ids = pair_ids(ps@);
    let mut i: usize = 0;
    while i < ps.len()
        invariant
            i <= ps@.len(),
            ids == pair_ids(ps@),
            forall|j: int| 0 <= j < i ==> ids[j] != id,
        decreases ps@.len() - i,
    {
        if ps[i].0 == id {
            proof {
                assert(ids[i as int] == id);
                assert(is_first_index(ids, id, i as int));
                let k = first_index(ids, id);
                assert(is_first_index(ids, id, k));
                assert(k == i as int) by {
                    if k < i as int {
                        assert(ids[k] != id);
                    } else if k > i as int {
                        assert(ids[i as int] != id);
                    }
                }
            }
            return Some(ps[i].1);
        }
        i = i + 1;
    }
    proof {
        if ids.contains(id) {
            let k = choose|k: int| 0 <= k < ids.len() && ids[k] == id;
            assert(ids[k] != id);
        }
    }
    None
}

/// Appending a pair changes the first position only of an id that was absent.
pub(crate) proof fn lemma_first_position_push(ps: Seq<(NodeId, NodePosition)>, id: NodeId, p: NodePosition, x: NodeId)
    ensures
        first_position(ps.push((id, p)), x) == (if pair_ids(ps).contains(x) {
            first_position(ps, x)
        } else if x == id {
            Some(p)
        } else {
            None
        }),
{
    let qs = ps.push((id, p));
    let ids = pair_ids(ps);
    let qids = pair_ids(qs);
    assert(qids =~= ids.push(id));
    if ids.contains(x) {
        crate::selection::lemma_first_index_exists(ids, x);
        let k = first_index(ids, x);
        assert(is_first_index(qids, x, k));
        crate::selection::lemma_first_index_exists(qids, x);
        let k2 = first_index(qids, x);
        assert(k2 == k) by {
            if k2 < k {
                assert(ids[k2] == qids[k2]);
            } else if k2 > k {
                assert(qids[k] == x);
            }
        }
        assert(qids.contains(x)) by {
            assert(qids[k] == x);
        }
    } else if x == id {
        assert(qids[ids.len() as int] == x);
        crate::selection::lemma_first_index_exists(qids, x);
        let k2 = first_index(qids, x);
        assert(k2 == ids.len()) by {
            if k2 < ids.len() {
                assert(ids[k2] == x);
            }
        }
    } else {
        if qids.contains(x) {
            let k = choose|k: int| 0 <= k < qids.len() && qids[k] == x;
            if k < ids.len() {
                assert(ids[k] == x);
            }
        }
    }
}

/// An id absent from the pairs has no first position.
pub(crate) proof fn lemma_pairs_cover(ps: Seq<(NodeId, NodePosition)>, x: NodeId)
    ensures
        !pair_ids(ps).contains(x) ==> first_position(ps, x) is None,
{
}

impl GlobalInteractionState {
    /// A drag is in progress.
    pub open spec fn dragging(&self) -> bool {
        self.node_drag is Some
    }

    /// Whether a modal operation (a node drag) is in progress.
    pub fn is_modal_active(&self) -> (r: bool)
        ensures
            r == self.dragging(),
    {
        self.node_drag.is_some()
    }

    /// The offset by which node `id` is drawn: the drag delta when the node is
    /// being dragged, `None` (no offset) otherwise.
    pub fn drag_offset(&self, id: NodeId) -> (r: Option<NodePosition>)
        ensures
            r == (if self.node_drag is Some && self.node_drag->0.node_ids@.contains(id) {
                Some(self.node_drag->0.drag_delta)
            } else {
                None
            }),
    {
        match &self.node_drag {
            Some(drag) => {
                if contains_node(&drag.node_ids, id) {
                    Some(drag.drag_delta)
                } else {
                    None
                }
            },
            None => None,
        }
    }
}

} // verus!
