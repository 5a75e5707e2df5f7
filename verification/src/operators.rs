//! Modal editor operators: node selection (click, hover, start of drags) and
//! node dragging. Each operator consumes pointer events and reports whether it
//! continues, ends, or hands over to another operator.
use vstd::prelude::*;
use crate::drag::{first_position, find_position, GlobalInteractionState, NodeDragState, ZERO_BITS, lemma_first_position_push};
use crate::event::{MouseButton, MouseEventKind};
use crate::hit::{HitResult, NodeRegion};
use crate::ids::{NodeId, NodePosition, SocketId};
use crate::selection::{toggled, ViewVisualState};

verus! {

/// What an operator reports after an event.
#[derive(Debug, Clone, PartialEq)]
pub enum OperatorResult {
    Continue,
    Finished,
    Cancelled,
    StartDragNodes { node_ids: Vec<NodeId> },
    StartBoxSelect,
    StartLinkDrag { from_socket: SocketId },
}

/// An event together with what the caller measured in world space for it.
#[derive(Debug, Clone, Copy)]
pub struct PointerInput {
    /// What happened.
    pub kind: MouseEventKind,
    /// The hit test at the pointer.
    pub hit: HitResult,
    /// Whether the pointer is farther than the drag threshold from where the
    /// pending click started.
    pub beyond_drag_threshold: bool,
    /// The pointer in world space.
    pub mouse_world: NodePosition,
    /// The pointer's offset from where the current node drag started.
    pub drag_delta: NodePosition,
}

/// A pressed left button that may turn into a click or a drag.
#[derive(Debug, Clone, Copy, PartialEq, Eq, Structural)]
pub struct ClickCandidate {
    pub hit: HitResult,
    pub start_mouse_world: NodePosition,
    pub was_selected: bool,
}

/// The nodes a drag started from `c` moves, when `c` pressed a node header:
/// the whole selection when that node was selected, the node alone otherwise.
pub open spec fn drag_nodes_for(c: ClickCandidate, selected: Seq<NodeId>) -> Option<Seq<NodeId>> {
    match c.hit {
        HitResult::Node { node_id, region: NodeRegion::Header } => Some(
            if c.was_selected { selected } else { seq![node_id] },
        ),
        _ => None,
    }
}

/// All fields of `a` and `b` are equal.
pub open spec fn visual_same(a: ViewVisualState, b: ViewVisualState) -> bool {
    &&& a.hovered_node == b.hovered_node
    &&& a.selected_nodes@ == b.selected_nodes@
    &&& a.active_node == b.active_node
    &&& a.hovered_socket == b.hovered_socket
    &&& a.active_socket == b.active_socket
    &&& a.hovered_edge == b.hovered_edge
    &&& a.selected_edges@ == b.selected_edges@
}

/// `after` is `before` with the selection that releasing a click on `hit`
/// makes: a node is selected alone, or toggled with shift; the background
/// clears the selection unless shift is held; sockets and edges change nothing.
pub open spec fn selection_applied(before: ViewVisualState, after: ViewVisualState, hit: HitResult, shift: bool) -> bool {
    &&& after.hovered_node == before.hovered_node
    &&& after.active_node == before.active_node
    &&& after.hovered_socket == before.hovered_socket
    &&& after.active_socket == before.active_socket
    &&& after.hovered_edge == before.hovered_edge
    &&& match hit {
        HitResult::Node { node_id, .. } => {
            &&& after.selected_nodes@ == (if shift {
                toggled(before.selected_nodes@, node_id)
            } else {
                seq![node_id]
            })
            &&& after.selected_edges@ == before.selected_edges@
        },
        HitResult::Background => if shift {
            &&& after.selected_nodes@ == before.selected_nodes@
            &&& after.selected_edges@ == before.selected_edges@
        } else {
            &&& after.selected_nodes@.len() == 0
            &&& after.selected_edges@.len() == 0
        },
        _ => {
            &&& after.selected_nodes@ == before.selected_nodes@
            &&& after.selected_edges@ == before.selected_edges@
        },
    }
}

/// One step of the selection operator: in state `before`, with the view in
/// state `vis_before`, `input` leads to state `after`, view state `vis_after`
/// and result `r`.
pub open spec fn select_step(
    before: NodeSelectOperator,
    input: PointerInput,
    shift: bool,
    vis_before: ViewVisualState,
    after: NodeSelectOperator,
    vis_after: ViewVisualState,
    r: OperatorResult,
) -> bool {
    match input.kind {
        MouseEventKind::Leave(b) => {
            &&& r == OperatorResult::Continue
            &&& if b == MouseButton::Middle {
                after.click == before.click && visual_same(vis_after, vis_before)
            } else {
                &&& after.click is None
                &&& vis_after.hovered_node is None
                &&& visual_same(vis_after, ViewVisualState { hovered_node: None, ..vis_before })
            }
        },
        MouseEventKind::Move => match before.click {
            Some(c) => {
                &&& visual_same(vis_after, vis_before)
                &&& if input.beyond_drag_threshold {
                    &&& after.click is None
                    &&& match drag_nodes_for(c, vis_before.selected_nodes@) {
                        Some(ids) => r is StartDragNodes && r->node_ids@ == ids,
                        None => r == OperatorResult::Continue,
                    }
                } else {
                    after.click == before.click && r == OperatorResult::Continue
                }
            },
            None => {
                &&& r == OperatorResult::Continue
                &&& after.click is None
                &&& (vis_after.hovered_node, vis_after.hovered_socket)
                    == crate::selection::hover_after(input.hit)
                &&& visual_same(vis_after, ViewVisualState {
                    hovered_node: vis_after.hovered_node,
                    hovered_socket: vis_after.hovered_socket,
                    ..vis_before
                })
            },
        },
        MouseEventKind::Down(MouseButton::Left) => {
            &&& visual_same(vis_after, vis_before)
            &&& match input.hit {
                HitResult::Socket { socket_id, .. } => {
                    &&& r == OperatorResult::StartLinkDrag { from_socket: socket_id }
                    &&& after.click == before.click
                },
                _ => {
                    &&& r == OperatorResult::Continue
                    &&& after.click == Some(ClickCandidate {
                        hit: input.hit,
                        start_mouse_world: input.mouse_world,
                        was_selected: match input.hit {
                            HitResult::Node { node_id, .. } => vis_before.selected_nodes@.contains(node_id),
                            _ => false,
                        },
                    })
                },
            }
        },
        MouseEventKind::Down(MouseButton::Right) => {
            &&& r == OperatorResult::Cancelled
            &&& after.click == before.click
            &&& visual_same(vis_after, vis_before)
        },
        MouseEventKind::Up(MouseButton::Left) => {
            &&& r == OperatorResult::Finished
            &&& after.click is None
            &&& match before.click {
                Some(c) => selection_applied(vis_before, vis_after, c.hit, shift),
                None => visual_same(vis_after, vis_before),
            }
        },
        _ => {
            &&& r == OperatorResult::Continue
            &&& after.click == before.click
            &&& visual_same(vis_after, vis_before)
        },
    }
}

/// The operator active when nothing else is: hover, click selection, and the
/// start of node drags, box selections and link drags.
#[derive(Debug, Clone, Copy)]
pub struct NodeSelectOperator {
    pub click: Option<ClickCandidate>,
}

impl NodeSelectOperator {
    /// An operator with no pending click.
    pub fn new() -> (op: Self)
        ensures
            op.click is None,
    {
        NodeSelectOperator { click: None }
    }

    /// Entering the operator forgets any pending click.
    pub fn on_enter(&mut self)
        ensures
            final(self).click is None,
    {
        self.click = None;
    }

    /// Leaving the operator forgets any pending click.
    pub fn on_exit(&mut self)
        ensures
            final(self).click is None,
    {
        self.click = None;
    }

    /// Where the pending click started, if there is one.
    pub fn click_start(&self) -> (r: Option<NodePosition>)
        ensures
            r == (match self.click {
                Some(c) => Some(c.start_mouse_world),
                None => None,
            }),
    {
        match self.click {
            Some(c) => Some(c.start_mouse_world),
            None => None,
        }
    }

    /// Applies the selection that releasing `click` makes.
    fn apply_selection(click: &ClickCandidate, shift: bool, visual: &mut ViewVisualState)
        ensures
            selection_applied(*old(visual), *final(visual), click.hit, shift),
            old(visual).wf() ==> final(visual).wf(),
    {
        match click.hit {
            HitResult::Node { node_id, .. } => {
                if shift {
                    visual.toggle_node_selection(node_id);
                } else {
                    visual.select_single_node(node_id);
                }
            },
            HitResult::Background => {
                if !shift {
                    visual.clear_selection();
                }
            },
            HitResult::Edge { .. } => {},
            HitResult::Socket { .. } => {},
        }
    }

    /// Handles one pointer event.
    ///
    /// - Leaving with the left or right button forgets the hovered node and the pending click.
    /// - Moving with a pending click beyond the drag threshold drops the click and, when it
    ///   pressed a node header, starts dragging the nodes of `drag_nodes_for`; without a
    ///   pending click, moving updates the hover.
    /// - Pressing the left button on a socket starts a link drag; elsewhere it records a
    ///   pending click. Pressing the right button cancels.
    /// - Releasing the left button applies the pending click's selection and finishes.
    /// - Anything else continues and changes nothing.
    pub fn handle_event(&mut self, input: &PointerInput, shift: bool, visual: &mut ViewVisualState) -> (r: OperatorResult)
        ensures
            select_step(*old(self), *input, shift, *old(visual), *final(self), *final(visual), r),
            old(visual).wf() ==> final(visual).wf(),
    {
        match input.kind {
            MouseEventKind::Leave(button) => match button {
                MouseButton::Left => {
                    visual.hovered_node = None;
                    self.click = None;
                    OperatorResult::Continue
                },
                MouseButton::Right => {
                    visual.hovered_node = None;
                    self.click = None;
                    OperatorResult::Continue
                },
                MouseButton::Middle => OperatorResult::Continue,
            },
            MouseEventKind::Enter(_) => OperatorResult::Continue,
            MouseEventKind::Move => {
                match self.click {
                    Some(click) => {
                        if input.beyond_drag_threshold {
                            self.click = None;
                            match click.hit {
                                HitResult::Node { node_id, region } => {
                                    match region {
                                        NodeRegion::Header => {
                                            let node_ids = if click.was_selected {
                                                visual.selected_nodes.clone()
                                            } else {
                                                let mut v = Vec::new();
                                                v.push(node_id);
                                                proof {
                                                    assert(v@ =~= seq![node_id]);
                                                }
                                                v
                                            };
                                            OperatorResult::StartDragNodes { node_ids }
                                        },
                                        NodeRegion::Body => OperatorResult::Continue,
                                    }
                                },
                                _ => OperatorResult::Continue,
                            }
                        } else {
                            OperatorResult::Continue
                        }
                    },
                    None => {
                        visual.update_hover(input.hit);
                        OperatorResult::Continue
                    },
                }
            },
            MouseEventKind::Down(button) => match button {
                MouseButton::Left => {
                    match input.hit {
                        HitResult::Socket { socket_id, .. } => {
                            return OperatorResult::StartLinkDrag { from_socket: socket_id };
                        },
                        _ => {},
                    }
                    let was_selected = match input.hit {
                        HitResult::Node { node_id, .. } => visual.is_node_selected(node_id),
                        _ => false,
                    };
                    self.click = Some(ClickCandidate {
                        hit: input.hit,
                        start_mouse_world: input.mouse_world,
                        was_selected,
                    });
                    OperatorResult::Continue
                },
                MouseButton::Right => OperatorResult::Cancelled,
                MouseButton::Middle => OperatorResult::Continue,
            },
            MouseEventKind::Up(button) => match button {
                MouseButton::Left => {
                    match self.click {
                        Some(click) => {
                            self.click = None;
                            Self::apply_selection(&click, shift, visual);
                        },
                        None => {},
                    }
                    OperatorResult::Finished
                },
                _ => OperatorResult::Continue,
            },
            MouseEventKind::Wheel { .. } => OperatorResult::Continue,
        }
    }
}

/// One step of the drag operator: `input` takes the shared state from
/// `g_before` to `g_after` with result `r`.
pub open spec fn drag_step(
    input: PointerInput,
    g_before: GlobalInteractionState,
    g_after: GlobalInteractionState,
    r: OperatorResult,
) -> bool {
    match input.kind {
        MouseEventKind::Move => {
            &&& r == OperatorResult::Continue
            &&& match g_before.node_drag {
                Some(d) => {
                    &&& g_after.node_drag is Some
                    &&& g_after.node_drag->0.drag_delta == input.drag_delta
                    &&& g_after.node_drag->0.node_ids@ == d.node_ids@
                    &&& g_after.node_drag->0.start_mouse_world == d.start_mouse_world
                    &&& g_after.node_drag->0.start_positions@ == d.start_positions@
                },
                None => g_after.node_drag is None,
            }
        },
        MouseEventKind::Up(MouseButton::Left) => r == OperatorResult::Finished && g_after == g_before,
        MouseEventKind::Down(MouseButton::Right) => r == OperatorResult::Cancelled && g_after == g_before,
        _ => r == OperatorResult::Continue && g_after == g_before,
    }
}

/// Moves a set of nodes with the pointer until the left button is released
/// (finished) or the right button pressed (cancelled).
#[derive(Debug, Clone)]
pub struct NodeDragOperator {
    node_ids: Vec<NodeId>,
}

/// The start positions recorded for a drag of `ids`: for every dragged node
/// found among `positions`, its first recorded position; nothing for others.
pub open spec fn start_positions_ok(
    recorded: Seq<(NodeId, NodePosition)>,
    ids: Seq<NodeId>,
    positions: Seq<(NodeId, NodePosition)>,
) -> bool {
    forall|x: NodeId| #[trigger] first_position(recorded, x) == (if ids.contains(x) {
        first_position(positions, x)
    } else {
        None
    })
}

/// The start positions of the dragged nodes, looked up in `positions`.
fn collect_start_positions(ids: &Vec<NodeId>, positions: &Vec<(NodeId, NodePosition)>) -> (r: Vec<(NodeId, NodePosition)>)
    ensures
        start_positions_ok(r@, ids@, positions@),
{
    let mut r: Vec<(NodeId, NodePosition)> = Vec::new();
    let mut i: usize = 0;
    while i < ids.len()
        invariant
            i <= ids@.len(),
            forall|x: NodeId| #[trigger] first_position(r@, x) == (if ids@.subrange(0, i as int).contains(x) {
                first_position(positions@, x)
            } else {
                None
            }),
        decreases ids@.len() - i,
    {
        let id = ids[i];
        let ghost before = r@;
        match find_position(positions, id) {
            Some(p) => {
                r.push((id, p));
                proof {
                    assert forall|x: NodeId| #[trigger] first_position(r@, x) == (if ids@.subrange(0, i + 1).contains(x) {
                        first_position(positions@, x)
                    } else {
                        None
                    }) by {
                        lemma_first_position_push(before, id, p, x);
                        lemma_prefix_contains(ids@, i as int, x);
                        crate::drag::lemma_pairs_cover(before, x);
                    }
                }
            },
            None => {
                proof {
                    assert forall|x: NodeId| #[trigger] first_position(r@, x) == (if ids@.subrange(0, i + 1).contains(x) {
                        first_position(positions@, x)
                    } else {
                        None
                    }) by {
                        lemma_prefix_contains(ids@, i as int, x);
                    }
                }
            },
        }
        i = i + 1;
    }
    proof {
        assert(ids@.subrange(0, ids@.len() as int) =~= ids@);
    }
    r
}

/// Growing a prefix by one element adds exactly that element to what it contains.
proof fn lemma_prefix_contains<T>(s: Seq<T>, i: int, x: T)
    requires
        0 <= i < s.len(),
    ensures
        s.subrange(0, i + 1).contains(x) == (s.subrange(0, i).contains(x) || s[i] == x),
{
    let a = s.subrange(0, i);
    let b = s.subrange(0, i + 1);
    if b.contains(x) {
        let k = choose|k: int| 0 <= k < b.len() && b[k] == x;
        if k < i {
            assert(a[k] == x);
        }
    }
    if a.contains(x) {
        let k = choose|k: int| 0 <= k < a.len() && a[k] == x;
        assert(b[k] == x);
    }
    if s[i] == x {
        assert(b[i] == x);
    }
}

impl NodeDragOperator {
    /// The nodes this operator drags.
    pub closed spec fn dragged(&self) -> Seq<NodeId> {
        self.node_ids@
    }

    /// An operator that drags `node_ids`.
    pub fn new(node_ids: Vec<NodeId>) -> (op: Self)
        ensures
            op.dragged() == node_ids@,
    {
        NodeDragOperator { node_ids }
    }

    /// Entering starts the shared drag state: the dragged nodes, the pointer's
    /// start, a zero delta, and the start position of each dragged node found
    /// among `node_positions`.
    pub fn on_enter(
        &mut self,
        mouse_world: NodePosition,
        node_positions: &Vec<(NodeId, NodePosition)>,
        global: &mut GlobalInteractionState,
    )
        ensures
            *final(self) == *old(self),
            final(global).node_drag is Some,
            final(global).node_drag->0.node_ids@ == old(self).dragged(),
            final(global).node_drag->0.start_mouse_world == mouse_world,
            final(global).node_drag->0.drag_delta == (NodePosition { x_bits: ZERO_BITS, y_bits: ZERO_BITS }),
            start_positions_ok(final(global).node_drag->0.start_positions@, old(self).dragged(), node_positions@),
    {
        let start_positions = collect_start_positions(&self.node_ids, node_positions);
        global.node_drag = Some(NodeDragState {
            node_ids: self.node_ids.clone(),
            start_mouse_world: mouse_world,
            drag_delta: NodePosition { x_bits: ZERO_BITS, y_bits: ZERO_BITS },
            start_positions,
        });
    }

    /// Moving updates the drag delta; releasing the left button finishes;
    /// pressing the right button cancels; anything else continues.
    pub fn handle_event(&mut self, input: &PointerInput, global: &mut GlobalInteractionState) -> (r: OperatorResult)
        ensures
            *final(self) == *old(self),
            drag_step(*input, *old(global), *final(global), r),
    {
        match input.kind {
            MouseEventKind::Move => {
                match &mut global.node_drag {
                    Some(drag) => {
                        drag.drag_delta = input.drag_delta;
                    },
                    None => {},
                }
                OperatorResult::Continue
            },
            MouseEventKind::Up(MouseButton::Left) => OperatorResult::Finished,
            MouseEventKind::Down(MouseButton::Right) => OperatorResult::Cancelled,
            _ => OperatorResult::Continue,
        }
    }

    /// Leaving ends the shared drag state.
    pub fn on_exit(&mut self, global: &mut GlobalInteractionState)
        ensures
            *final(self) == *old(self),
            final(global).node_drag is None,
    {
        global.node_drag = None;
    }
}

/// Releasing the left button after a press on `c.hit` applies the click:
/// with shift, the membership of the clicked node flips (a selected node leaves
/// the selection, an unselected one joins it) and every other node keeps its
/// membership; without shift, the clicked node becomes the whole selection; a
/// click on the background clears both selections unless shift is held, when
/// they stay as they were. The selection keeps holding no node twice, and the
/// operator ends with no pending click.
pub proof fn lemma_click_release_applies_selection(
    before: NodeSelectOperator,
    input: PointerInput,
    shift: bool,
    vis_before: ViewVisualState,
    after: NodeSelectOperator,
    vis_after: ViewVisualState,
    r: OperatorResult,
    c: ClickCandidate,
    x: NodeId,
    y: NodeId,
)
    requires
        select_step(before, input, shift, vis_before, after, vis_after, r),
        input.kind == MouseEventKind::Up(MouseButton::Left),
        before.click == Some(c),
        vis_before.wf(),
    ensures
        r == OperatorResult::Finished,
        after.click is None,
        vis_after.selected_nodes@.no_duplicates(),
        (c.hit matches HitResult::Node { node_id, .. } && node_id == x) && shift ==> {
            &&& vis_after.selected_nodes@.contains(x) == !vis_before.selected_nodes@.contains(x)
            &&& y != x ==> vis_after.selected_nodes@.contains(y) == vis_before.selected_nodes@.contains(y)
            &&& vis_after.selected_edges@ == vis_before.selected_edges@
        },
        (c.hit matches HitResult::Node { node_id, .. } && node_id == x) && !shift
            ==> vis_after.selected_nodes@ == seq![x],
        c.hit == HitResult::Background && !shift
            ==> vis_after.selected_nodes@.len() == 0 && vis_after.selected_edges@.len() == 0,
        c.hit == HitResult::Background && shift ==> {
            &&& vis_after.selected_nodes@ == vis_before.selected_nodes@
            &&& vis_after.selected_edges@ == vis_before.selected_edges@
        },
{
    match c.hit {
        HitResult::Node { node_id, .. } => {
            if shift {
                crate::selection::lemma_toggle_flips_membership(vis_before.selected_nodes@, node_id, x);
                crate::selection::lemma_toggle_flips_membership(vis_before.selected_nodes@, node_id, y);
            } else {
                assert(seq![node_id].no_duplicates());
            }
        },
        HitResult::Background => {
            if !shift {
                assert(vis_after.selected_nodes@ =~= Seq::<NodeId>::empty());
            }
        },
        _ => {},
    }
}

/// A left press records what it pressed (a socket press starts a link drag
/// from that socket instead) and whether the pressed node was selected. A
/// later move beyond the drag threshold starts a node drag only for a press on
/// a node's header: the whole selection moves when that node was selected,
/// the node alone otherwise; any other press is dropped without a drag. A move
/// within the threshold keeps the press pending and starts nothing. A right
/// press cancels.
pub proof fn lemma_press_then_drag(
    before: NodeSelectOperator,
    input: PointerInput,
    shift: bool,
    vis_before: ViewVisualState,
    after: NodeSelectOperator,
    vis_after: ViewVisualState,
    r: OperatorResult,
    x: NodeId,
)
    requires
        select_step(before, input, shift, vis_before, after, vis_after, r),
    ensures
        input.kind == MouseEventKind::Down(MouseButton::Left) ==> match input.hit {
            HitResult::Socket { socket_id, .. } => r == (OperatorResult::StartLinkDrag { from_socket: socket_id }),
            _ => {
                &&& r == OperatorResult::Continue
                &&& after.click is Some
                &&& after.click->0.hit == input.hit
                &&& after.click->0.start_mouse_world == input.mouse_world
                &&& (input.hit matches HitResult::Node { node_id, .. } && node_id == x)
                    ==> after.click->0.was_selected == vis_before.selected_nodes@.contains(x)
            },
        },
        input.kind == MouseEventKind::Down(MouseButton::Right) ==> r == OperatorResult::Cancelled,
        input.kind == MouseEventKind::Move && before.click is Some && input.beyond_drag_threshold ==> {
            let c = before.click->0;
            &&& after.click is None
            &&& c.hit == (HitResult::Node { node_id: x, region: NodeRegion::Header }) ==> {
                &&& r is StartDragNodes
                &&& r->node_ids@ == (if c.was_selected { vis_before.selected_nodes@ } else { seq![x] })
            }
            &&& !(c.hit matches HitResult::Node { region: NodeRegion::Header, .. }) ==> r == OperatorResult::Continue
        },
        input.kind == MouseEventKind::Move && before.click is Some && !input.beyond_drag_threshold
            ==> after.click == before.click && r == OperatorResult::Continue,
{
}

/// While nodes are dragged, each move sets the drag offset to the pointer's
/// offset and keeps the dragged nodes, the start point and the start positions;
/// releasing the left button finishes the drag and pressing the right one
/// cancels it, leaving the shared state as it was.
pub proof fn lemma_drag_follows_pointer(
    input: PointerInput,
    g_before: GlobalInteractionState,
    g_after: GlobalInteractionState,
    r: OperatorResult,
)
    requires
        drag_step(input, g_before, g_after, r),
        g_before.node_drag is Some,
    ensures
        input.kind == MouseEventKind::Move ==> {
            &&& r == OperatorResult::Continue
            &&& g_after.node_drag is Some
            &&& g_after.node_drag->0.drag_delta == input.drag_delta
            &&& g_after.node_drag->0.node_ids@ == g_before.node_drag->0.node_ids@
            &&& g_after.node_drag->0.start_mouse_world == g_before.node_drag->0.start_mouse_world
        },
        input.kind == MouseEventKind::Up(MouseButton::Left) ==> r == OperatorResult::Finished && g_after == g_before,
        input.kind == MouseEventKind::Down(MouseButton::Right) ==> r == OperatorResult::Cancelled && g_after == g_before,
        r != OperatorResult::Continue ==> (r == OperatorResult::Finished || r == OperatorResult::Cancelled),
{
}

/// Moving with no press pending re-derives the hover from the hit: the hovered
/// node is `n` exactly when a region of node `n` is hit, the hovered socket is
/// `k` exactly when socket `k` is hit, and an edge or the background leaves
/// neither hovered. Selections and active entities are kept.
pub proof fn lemma_hover_follows_hit(
    before: NodeSelectOperator,
    input: PointerInput,
    shift: bool,
    vis_before: ViewVisualState,
    after: NodeSelectOperator,
    vis_after: ViewVisualState,
    r: OperatorResult,
    n: NodeId,
    k: SocketId,
)
    requires
        select_step(before, input, shift, vis_before, after, vis_after, r),
        input.kind == MouseEventKind::Move,
        before.click is None,
    ensures
        r == OperatorResult::Continue,
        (vis_after.hovered_node == Some(n)) == (input.hit matches HitResult::Node { node_id, .. } && node_id == n),
        (vis_after.hovered_socket == Some(k)) == (input.hit matches HitResult::Socket { socket_id, .. } && socket_id == k),
        (input.hit is Edge || input.hit is Background) ==> vis_after.hovered_node is None && vis_after.hovered_socket is None,
        vis_after.selected_nodes@ == vis_before.selected_nodes@,
        vis_after.selected_edges@ == vis_before.selected_edges@,
        vis_after.active_node == vis_before.active_node,
{
}

} // verus!
