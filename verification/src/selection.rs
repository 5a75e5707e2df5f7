//! Per-view interaction state: what is hovered, selected and active.
use vstd::prelude::*;
use crate::hit::HitResult;
use crate::ids::{EdgeId, NodeId, SocketId};

verus! {

/// `i` is the first position at which `x` occurs in `s`.
pub open spec fn is_first_index<T>(s: Seq<T>, x: T, i: int) -> bool {
    &&& 0 <= i < s.len()
    &&& s[i] == x
    &&& forall|j: int| 0 <= j < i ==> s[j] != x
}

/// The first position at which `x` occurs in `s` (meaningful when it occurs).
pub open spec fn first_index<T>(s: Seq<T>, x: T) -> int {
    choose|i: int| is_first_index(s, x, i)
}

/// `s` with the membership of `x` flipped: its first occurrence removed when
/// present, otherwise `x` appended at the end.
pub open spec fn toggled<T>(s: Seq<T>, x: T) -> Seq<T> {
    if s.contains(x) {
        s.remove(first_index(s, x))
    } else {
        s.push(x)
    }
}

/// Flips the membership of `x` in `v`.
pub(crate) fn toggle_node_in(v: &mut Vec<NodeId>, x: NodeId)
    ensures
        final(v)@ == toggled(old(v)@, x),
{
    let mut i: usize = 0;
    while i < v.len()
        invariant
            i <= v@.len(),
            v@ == old(v)@,
            forall|j: int| 0 <= j < i ==> v@[j] != x,
        decreases v@.len() - i,
    {
        if v[i] == x {
            proof {
                assert(is_first_index(v@, x, i as int));
                let k = first_index(v@, x);
                assert(is_first_index(v@, x, k));
                assert(k == i as int) by {
                    if k < i as int {
                        assert(v@[k] != x);
                    } else if k > i as int {
                        assert(v@[i as int] != x);
                    }
                }
                assert(v@.contains(x));
            }
            v.remove(i);
            return;
        }
        i = i + 1;
    }
    proof {
        assert(!v@.contains(x)) by {
            if v@.contains(x) {
                let k = choose|k: int| 0 <= k < v@.len() && v@[k] == x;
                assert(v@[k] != x);
            }
        }
    }
    v.push(x);
}

/// Whether `x` occurs in `v`.
pub(crate) fn contains_node_in(v: &Vec<NodeId>, x: NodeId) -> (r: bool)
    ensures
        r == v@.contains(x),
{
    let mut i: usize = 0;
    while i < v.len()
        invariant
            i <= v@.len(),
            forall|j: int| 0 <= j < i ==> v@[j] != x,
        decreases v@.len() - i,
    {
        if v[i] == x {
            assert(v@[i as int] == x);
            return true;
        }
        i = i + 1;
    }
    proof {
        if v@.contains(x) {
            let k = choose|k: int| 0 <= k < v@.len() && v@[k] == x;
            assert(v@[k] != x);
        }
    }
    false
}

/// Flips the membership of `x` in `v`.
pub(crate) fn toggle_edge_in(v: &mut Vec<EdgeId>, x: EdgeId)
    ensures
        final(v)@ == toggled(old(v)@, x),
{
    let mut i: usize = 0;
    while i < v.len()
        invariant
            i <= v@.len(),
            v@ == old(v)@,
            forall|j: int| 0 <= j < i ==> v@[j] != x,
        decreases v@.len() - i,
    {
        if v[i] == x {
            proof {
                assert(is_first_index(v@, x, i as int));
                let k = first_index(v@, x);
                assert(is_first_index(v@, x, k));
                assert(k == i as int) by {
                    if k < i as int {
                        assert(v@[k] != x);
                    } else if k > i as int {
                        assert(v@[i as int] != x);
                    }
                }
                assert(v@.contains(x));
            }
            v.remove(i);
            return;
        }
        i = i + 1;
    }
    proof {
        assert(!v@.contains(x)) by {
            if v@.contains(x) {
                let k = choose|k: int| 0 <= k < v@.len() && v@[k] == x;
                assert(v@[k] != x);
            }
        }
    }
    v.push(x);
}

/// Whether `x` occurs in `v`.
pub(crate) fn contains_edge_in(v: &Vec<EdgeId>, x: EdgeId) -> (r: bool)
    ensures
        r == v@.contains(x),
{
    let mut i: usize = 0;
    while i < v.len()
        invariant
            i <= v@.len(),
            forall|j: int| 0 <= j < i ==> v@[j] != x,
        decreases v@.len() - i,
    {
        if v[i] == x {
            assert(v@[i as int] == x);
            return true;
        }
        i = i + 1;
    }
    proof {
        if v@.contains(x) {
            let k = choose|k: int| 0 <= k < v@.len() && v@[k] == x;
            assert(v@[k] != x);
        }
    }
    false
}

/// A first occurrence of an element that occurs.
proof fn first_index_witness<T>(s: Seq<T>, x: T) -> (i: int)
    requires
        s.contains(x),
    ensures
        is_first_index(s, x, i),
    decreases s.len(),
{
    if s[0] == x {
        0
    } else {
        let k = choose|k: int| 0 <= k < s.len() && s[k] == x;
        assert(s.drop_first()[k - 1] == x);
        let j = first_index_witness(s.drop_first(), x);
        assert forall|m: int| 0 <= m < j + 1 implies s[m] != x by {
            if m > 0 {
                assert(s[m] == s.drop_first()[m - 1]);
            }
        }
        j + 1
    }
}

/// The first occurrence of an element that occurs is well defined.
pub proof fn lemma_first_index_exists<T>(s: Seq<T>, x: T)
    requires
        s.contains(x),
    ensures
        is_first_index(s, x, first_index(s, x)),
{
    let i = first_index_witness(s, x);
    assert(is_first_index(s, x, i));
}

/// Toggling flips the membership of the toggled element and keeps that of
/// every other element, and a selection without duplicates stays without them.
pub proof fn lemma_toggle_flips_membership<T>(s: Seq<T>, x: T, y: T)
    requires
        s.no_duplicates(),
    ensures
        toggled(s, x).contains(y) == (if y == x { !s.contains(x) } else { s.contains(y) }),
        toggled(s, x).no_duplicates(),
{
    if s.contains(x) {
        lemma_first_index_exists(s, x);
        let i = first_index(s, x);
        let t = s.remove(i);
        assert(t.len() == s.len() - 1);
        assert forall|a: int, b: int| 0 <= a < t.len() && 0 <= b < t.len() && a != b implies t[a] != t[b] by {
            let sa = if a < i { a } else { a + 1 };
            let sb = if b < i { b } else { b + 1 };
            assert(t[a] == s[sa]);
            assert(t[b] == s[sb]);
        }
        if y == x {
            if t.contains(y) {
                let a = choose|a: int| 0 <= a < t.len() && t[a] == y;
                let sa = if a < i { a } else { a + 1 };
                assert(s[sa] == y);
            }
        } else {
            if s.contains(y) {
                let a = choose|a: int| 0 <= a < s.len() && s[a] == y;
                assert(a != i);
                let ta = if a < i { a } else { a - 1 };
                assert(t[ta] == y);
            }
            if t.contains(y) {
                let a = choose|a: int| 0 <= a < t.len() && t[a] == y;
                let sa = if a < i { a } else { a + 1 };
                assert(s[sa] == y);
            }
        }
    } else {
        let t = s.push(x);
        assert forall|a: int, b: int| 0 <= a < t.len() && 0 <= b < t.len() && a != b implies t[a] != t[b] by {
            if a == s.len() {
                assert(!s.contains(x));
                assert(t[b] == s[b]);
            } else if b == s.len() {
                assert(t[a] == s[a]);
            }
        }
        if y != x && t.contains(y) {
            let a = choose|a: int| 0 <= a < t.len() && t[a] == y;
            assert(s[a] == y);
        }
        if s.contains(y) {
            let a = choose|a: int| 0 <= a < s.len() && s[a] == y;
            assert(t[a] == y);
        }
        assert(t[s.len() as int] == x);
    }
}

/// Toggling the same element twice gives back a selection with the same
/// members; when the element was not selected, it gives back the same sequence.
pub proof fn lemma_toggle_twice<T>(s: Seq<T>, x: T)
    requires
        s.no_duplicates(),
    ensures
        toggled(toggled(s, x), x).to_set() == s.to_set(),
        !s.contains(x) ==> toggled(toggled(s, x), x) == s,
{
    let t = toggled(s, x);
    lemma_toggle_flips_membership(s, x, x);
    assert forall|y: T| toggled(t, x).contains(y) == s.contains(y) by {
        lemma_toggle_flips_membership(s, x, y);
        lemma_toggle_flips_membership(t, x, y);
    }
    assert(toggled(t, x).to_set() =~= s.to_set());
    if !s.contains(x) {
        assert(t == s.push(x));
        assert(t.contains(x)) by {
            assert(t[s.len() as int] == x);
        }
        lemma_first_index_exists(t, x);
        let i = first_index(t, x);
        assert(i == s.len()) by {
            if i < s.len() {
                assert(s[i] == x);
            }
        }
        assert(t.remove(i) =~= s);
    }
}

/// What a view shows as hovered, selected and active. Selections keep the
/// order in which entities were selected.
#[derive(Debug, Clone)]
pub struct ViewVisualState {
    pub hovered_node: Option<NodeId>,
    pub selected_nodes: Vec<NodeId>,
    pub active_node: Option<NodeId>,
    pub hovered_socket: Option<SocketId>,
    pub active_socket: Option<SocketId>,
    pub hovered_edge: Option<EdgeId>,
    pub selected_edges: Vec<EdgeId>,
}

/// The hover state after hovering `hit`: a node or a socket under the pointer
/// becomes the hovered one, and the other of the two is cleared.
pub open spec fn hover_after(hit: HitResult) -> (Option<NodeId>, Option<SocketId>) {
    match hit {
        HitResult::Node { node_id, .. } => (Some(node_id), None),
        HitResult::Socket { socket_id, .. } => (None, Some(socket_id)),
        _ => (None, None),
    }
}

impl ViewVisualState {
    /// Neither selections nor duplicates within them.
    pub open spec fn wf(&self) -> bool {
        &&& self.selected_nodes@.no_duplicates()
        &&& self.selected_edges@.no_duplicates()
    }

    /// Nothing hovered, selected or active.
    pub open spec fn is_cleared(&self) -> bool {
        &&& self.hovered_node is None
        &&& self.selected_nodes@.len() == 0
        &&& self.active_node is None
        &&& self.hovered_socket is None
        &&& self.active_socket is None
        &&& self.hovered_edge is None
        &&& self.selected_edges@.len() == 0
    }

    /// All fields but the node selection are those of `other`.
    pub open spec fn same_except_nodes(&self, other: &ViewVisualState) -> bool {
        &&& self.hovered_node == other.hovered_node
        &&& self.active_node == other.active_node
        &&& self.hovered_socket == other.hovered_socket
        &&& self.active_socket == other.active_socket
        &&& self.hovered_edge == other.hovered_edge
        &&& self.selected_edges@ == other.selected_edges@
    }

    /// A state with nothing hovered, selected or active.
    pub fn new() -> (s: Self)
        ensures
            s.is_cleared(),
            s.wf(),
    {
        ViewVisualState {
            hovered_node: None,
            selected_nodes: Vec::new(),
            active_node: None,
            hovered_socket: None,
            active_socket: None,
            hovered_edge: None,
            selected_edges: Vec::new(),
        }
    }

    /// Whether node `id` is selected.
    pub fn is_node_selected(&self, id: NodeId) -> (r: bool)
        ensures
            r == self.selected_nodes@.contains(id),
    {
        contains_node_in(&self.selected_nodes, id)
    }

    /// Whether edge `id` is selected.
    pub fn is_edge_selected(&self, id: EdgeId) -> (r: bool)
        ensures
            r == self.selected_edges@.contains(id),
    {
        contains_edge_in(&self.selected_edges, id)
    }

    /// Selects node `id` alone.
    pub fn select_single_node(&mut self, id: NodeId)
        ensures
            final(self).selected_nodes@ == seq![id],
            old(self).wf() ==> final(self).wf(),
            final(self).same_except_nodes(old(self)),
    {
        self.selected_nodes.clear();
        self.selected_nodes.push(id);
        proof {
            assert(self.selected_nodes@ =~= seq![id]);
        }
    }

    /// Adds node `id` to the selection when it is not in it, and takes it out otherwise.
    pub fn toggle_node_selection(&mut self, id: NodeId)
        ensures
            final(self).selected_nodes@ == toggled(old(self).selected_nodes@, id),
            final(self).same_except_nodes(old(self)),
            old(self).wf() ==> final(self).wf(),
    {
        proof {
            if self.wf() {
                lemma_toggle_flips_membership(self.selected_nodes@, id, id);
            }
        }
        toggle_node_in(&mut self.selected_nodes, id);
    }

    /// Selects edge `id` alone.
    pub fn select_single_edge(&mut self, id: EdgeId)
        ensures
            final(self).selected_edges@ == seq![id],
            old(self).wf() ==> final(self).wf(),
            final(self).selected_nodes@ == old(self).selected_nodes@,
            final(self).hovered_node == old(self).hovered_node,
            final(self).active_node == old(self).active_node,
            final(self).hovered_socket == old(self).hovered_socket,
            final(self).active_socket == old(self).active_socket,
            final(self).hovered_edge == old(self).hovered_edge,
    {
        self.selected_edges.clear();
        self.selected_edges.push(id);
        proof {
            assert(self.selected_edges@ =~= seq![id]);
        }
    }

    /// Adds edge `id` to the selection when it is not in it, and takes it out otherwise.
    pub fn toggle_edge_selection(&mut self, id: EdgeId)
        ensures
            final(self).selected_edges@ == toggled(old(self).selected_edges@, id),
            old(self).wf() ==> final(self).wf(),
            final(self).selected_nodes@ == old(self).selected_nodes@,
            final(self).hovered_node == old(self).hovered_node,
            final(self).active_node == old(self).active_node,
            final(self).hovered_socket == old(self).hovered_socket,
            final(self).active_socket == old(self).active_socket,
            final(self).hovered_edge == old(self).hovered_edge,
    {
        proof {
            if self.wf() {
                lemma_toggle_flips_membership(self.selected_edges@, id, id);
            }
        }
        toggle_edge_in(&mut self.selected_edges, id);
    }

    /// Empties the node and edge selections.
    pub fn clear_selection(&mut self)
        ensures
            final(self).selected_nodes@.len() == 0,
            final(self).selected_edges@.len() == 0,
            final(self).wf(),
            final(self).hovered_node == old(self).hovered_node,
            final(self).active_node == old(self).active_node,
            final(self).hovered_socket == old(self).hovered_socket,
            final(self).active_socket == old(self).active_socket,
            final(self).hovered_edge == old(self).hovered_edge,
    {
        self.selected_nodes.clear();
        self.selected_edges.clear();
    }

    /// Records what the pointer hovers: the hovered node and socket are reset,
    /// then set from `hit`.
    pub fn update_hover(&mut self, hit: HitResult)
        ensures
            (final(self).hovered_node, final(self).hovered_socket) == hover_after(hit),
            final(self).selected_nodes@ == old(self).selected_nodes@,
            final(self).selected_edges@ == old(self).selected_edges@,
            final(self).active_node == old(self).active_node,
            final(self).active_socket == old(self).active_socket,
            final(self).hovered_edge == old(self).hovered_edge,
    {
        self.hovered_node = None;
        self.hovered_socket = None;
        match hit {
            HitResult::Node { node_id, .. } => {
                self.hovered_node = Some(node_id);
            },
            HitResult::Socket { socket_id, .. } => {
                self.hovered_socket = Some(socket_id);
            },
            HitResult::Edge { .. } => {},
            HitResult::Background => {},
        }
    }
}

} // verus!
