//! The direct (operator-less) input handler: hover, click selection and the
//! interaction mode of a view, driven by pointer events.
use vstd::prelude::*;
use crate::event::{KeyModifiers, MouseButton, MouseEventKind};
use crate::hit::{HitResult, NodeRegion};
use crate::ids::{EdgeId, NodeId, NodePosition, SocketId};
use crate::selection::{toggle_edge_in, toggle_node_in, toggled};

verus! {

/// What the pointer is doing in a view.
#[derive(Debug, Clone, Copy, PartialEq, Eq, Structural)]
pub enum InteractionState {
    Idle,
    Panning,
    BoxSelecting { start: NodePosition, current: NodePosition },
    DraggingNode { node_id: NodeId },
    DraggingLink { from_socket: SocketId },
}

/// What a view shows as hovered, selected and active, and its interaction mode.
#[derive(Debug, Clone)]
pub struct EditorVisualState {
    pub hovered_node: Option<NodeId>,
    pub selected_nodes: Vec<NodeId>,
    pub active_node: Option<NodeId>,
    pub hovered_socket: Option<SocketId>,
    pub active_socket: Option<SocketId>,
    pub hovered_edge: Option<EdgeId>,
    pub selected_edges: Vec<EdgeId>,
    pub interaction: InteractionState,
}

impl Default for EditorVisualState {
    /// Nothing hovered, selected or active; idle.
    fn default() -> (s: Self)
        ensures
            s.hovered_node is None,
            s.selected_nodes@.len() == 0,
            s.active_node is None,
            s.hovered_socket is None,
            s.active_socket is None,
            s.hovered_edge is None,
            s.selected_edges@.len() == 0,
            s.interaction == InteractionState::Idle,
    {
        EditorVisualState {
            hovered_node: None,
            selected_nodes: Vec::new(),
            active_node: None,
            hovered_socket: None,
            active_socket: None,
            hovered_edge: None,
            selected_edges: Vec::new(),
            interaction: InteractionState::Idle,
        }
    }
}

/// The visible part of a state, as values.
pub open spec fn state_of(s: EditorVisualState) -> (
    Option<NodeId>,
    Seq<NodeId>,
    Option<NodeId>,
    Option<SocketId>,
    Option<SocketId>,
    Option<EdgeId>,
    Seq<EdgeId>,
    InteractionState,
) {
    (s.hovered_node, s.selected_nodes@, s.active_node, s.hovered_socket, s.active_socket, s.hovered_edge, s.selected_edges@, s.interaction)
}

/// The state after the pointer moved to `mouse_world` over `hit`: a box
/// selection follows the pointer; while idle or panning, the hover is reset
/// and set from the hit; drags are unchanged.
pub open spec fn after_move(
    s: (Option<NodeId>, Seq<NodeId>, Option<NodeId>, Option<SocketId>, Option<SocketId>, Option<EdgeId>, Seq<EdgeId>, InteractionState),
    hit: HitResult,
    mouse_world: NodePosition,
) -> (Option<NodeId>, Seq<NodeId>, Option<NodeId>, Option<SocketId>, Option<SocketId>, Option<EdgeId>, Seq<EdgeId>, InteractionState) {
    match s.7 {
        InteractionState::BoxSelecting { start, .. } => (s.0, s.1, s.2, s.3, s.4, s.5, s.6,
            InteractionState::BoxSelecting { start, current: mouse_world }),
        InteractionState::Idle | InteractionState::Panning => match hit {
            HitResult::Node { node_id, .. } => (Some(node_id), s.1, s.2, None, s.4, None, s.6, s.7),
            HitResult::Socket { socket_id, .. } => (None, s.1, s.2, Some(socket_id), s.4, None, s.6, s.7),
            HitResult::Edge { edge_id } => (None, s.1, s.2, None, s.4, Some(edge_id), s.6, s.7),
            HitResult::Background => (None, s.1, s.2, None, s.4, None, s.6, s.7),
        },
        _ => s,
    }
}

/// The state after a left press at `mouse_world` on `hit` with `shift` held:
/// a socket becomes active and a link drag starts; a node becomes active and
/// is selected (alone, or toggled with shift), its header starting a node drag;
/// an edge is selected (alone, or toggled with shift); the background clears
/// the selection and the active node unless shift is held, and starts a box
/// selection.
pub open spec fn after_left_down(
    s: (Option<NodeId>, Seq<NodeId>, Option<NodeId>, Option<SocketId>, Option<SocketId>, Option<EdgeId>, Seq<EdgeId>, InteractionState),
    hit: HitResult,
    shift: bool,
    mouse_world: NodePosition,
) -> (Option<NodeId>, Seq<NodeId>, Option<NodeId>, Option<SocketId>, Option<SocketId>, Option<EdgeId>, Seq<EdgeId>, InteractionState) {
    match hit {
        HitResult::Socket { socket_id, .. } => (s.0, s.1, s.2, s.3, Some(socket_id), s.5, s.6,
            InteractionState::DraggingLink { from_socket: socket_id }),
        HitResult::Node { node_id, region } => (s.0,
            if shift { toggled(s.1, node_id) } else { seq![node_id] },
            Some(node_id), s.3, s.4, s.5, s.6,
            if region == NodeRegion::Header { InteractionState::DraggingNode { node_id } } else { s.7 }),
        HitResult::Edge { edge_id } => (s.0, s.1, s.2, s.3, s.4, s.5,
            if shift { toggled(s.6, edge_id) } else { seq![edge_id] }, s.7),
        HitResult::Background => (s.0,
            if shift { s.1 } else { Seq::empty() },
            if shift { s.2 } else { None },
            s.3, s.4, s.5,
            if shift { s.6 } else { Seq::empty() },
            InteractionState::BoxSelecting { start: mouse_world, current: mouse_world }),
    }
}

/// Turns pointer events into hover, selection and interaction changes.
#[derive(Debug, Clone, Copy)]
pub struct EditorInputHandler {
    pub last_mouse_world: NodePosition,
    pub mouse_down_button: Option<MouseButton>,
    pub modifiers: KeyModifiers,
}

impl EditorInputHandler {
    /// A handler with no button down and no modifier.
    pub fn new() -> (h: Self)
        ensures
            h.mouse_down_button is None,
            !h.modifiers.shift && !h.modifiers.ctrl && !h.modifiers.alt,
            h.last_mouse_world == (NodePosition { x_bits: 0, y_bits: 0 }),
    {
        EditorInputHandler {
            last_mouse_world: NodePosition { x_bits: 0, y_bits: 0 },
            mouse_down_button: None,
            modifiers: KeyModifiers { shift: false, ctrl: false, alt: false },
        }
    }

    /// Records the modifiers held.
    pub fn set_modifiers(&mut self, modifiers: KeyModifiers)
        ensures
            *final(self) == (EditorInputHandler { modifiers, ..*old(self) }),
    {
        self.modifiers = modifiers;
    }

    fn handle_mouse_move(hit: HitResult, mouse_world: NodePosition, visual: &mut EditorVisualState)
        ensures
            state_of(*final(visual)) == after_move(state_of(*old(visual)), hit, mouse_world),
    {
        match visual.interaction {
            InteractionState::BoxSelecting { start, .. } => {
                visual.interaction = InteractionState::BoxSelecting { start, current: mouse_world };
            },
            InteractionState::Idle | InteractionState::Panning => {
                visual.hovered_node = None;
                visual.hovered_socket = None;
                visual.hovered_edge = None;
                match hit {
                    HitResult::Node { node_id, .. } => {
                        visual.hovered_node = Some(node_id);
                    },
                    HitResult::Socket { socket_id, .. } => {
                        visual.hovered_socket = Some(socket_id);
                    },
                    HitResult::Edge { edge_id } => {
                        visual.hovered_edge = Some(edge_id);
                    },
                    HitResult::Background => {},
                }
            },
            _ => {},
        }
    }

    fn handle_left_mouse_down(&self, hit: HitResult, mouse_world: NodePosition, visual: &mut EditorVisualState)
        ensures
            state_of(*final(visual)) == after_left_down(state_of(*old(visual)), hit, self.modifiers.shift, mouse_world),
    {
        match hit {
            HitResult::Socket { socket_id, .. } => {
                visual.active_socket = Some(socket_id);
                visual.interaction = InteractionState::DraggingLink { from_socket: socket_id };
            },
            HitResult::Node { node_id, region } => {
                visual.active_node = Some(node_id);
                if !self.modifiers.shift {
                    visual.selected_nodes.clear();
                    visual.selected_nodes.push(node_id);
                    assert(visual.selected_nodes@ =~= seq![node_id]);
                } else {
                    toggle_node_in(&mut visual.selected_nodes, node_id);
                }
                match region {
                    NodeRegion::Header => {
                        visual.interaction = InteractionState::DraggingNode { node_id };
                    },
                    NodeRegion::Body => {},
                }
            },
            HitResult::Edge { edge_id } => {
                if !self.modifiers.shift {
                    visual.selected_edges.clear();
                    visual.selected_edges.push(edge_id);
                    assert(visual.selected_edges@ =~= seq![edge_id]);
                } else {
                    toggle_edge_in(&mut visual.selected_edges, edge_id);
                }
            },
            HitResult::Background => {
                if !self.modifiers.shift {
                    visual.selected_nodes.clear();
                    visual.selected_edges.clear();
                    visual.active_node = None;
                    assert(visual.selected_nodes@ =~= Seq::<NodeId>::empty());
                    assert(visual.selected_edges@ =~= Seq::<EdgeId>::empty());
                }
                visual.interaction = InteractionState::BoxSelecting { start: mouse_world, current: mouse_world };
            },
        }
    }

    /// Handles one pointer event at `mouse_world` over `hit` (the hit test at
    /// the pointer). Moving updates hover or the box selection; pressing
    /// records the button and, for the left one, selects; releasing the
    /// recorded button ends the interaction; anything else changes nothing.
    pub fn handle_mouse_event(&mut self, kind: MouseEventKind, hit: HitResult, mouse_world: NodePosition, visual: &mut EditorVisualState)
        ensures
            final(self).modifiers == old(self).modifiers,
            final(self).last_mouse_world == mouse_world,
            match kind {
                MouseEventKind::Move => {
                    &&& state_of(*final(visual)) == after_move(state_of(*old(visual)), hit, mouse_world)
                    &&& final(self).mouse_down_button == old(self).mouse_down_button
                },
                MouseEventKind::Down(b) => {
                    &&& final(self).mouse_down_button == Some(b)
                    &&& state_of(*final(visual)) == (if b == MouseButton::Left {
                        after_left_down(state_of(*old(visual)), hit, old(self).modifiers.shift, mouse_world)
                    } else {
                        state_of(*old(visual))
                    })
                },
                MouseEventKind::Up(b) => if old(self).mouse_down_button == Some(b) {
                    &&& final(self).mouse_down_button is None
                    &&& state_of(*final(visual)) == ({
                        let s = state_of(*old(visual));
                        (s.0, s.1, s.2, s.3, s.4, s.5, s.6, InteractionState::Idle)
                    })
                } else {
                    &&& final(self).mouse_down_button == old(self).mouse_down_button
                    &&& state_of(*final(visual)) == state_of(*old(visual))
                },
                _ => {
                    &&& final(self).mouse_down_button == old(self).mouse_down_button
                    &&& state_of(*final(visual)) == state_of(*old(visual))
                },
            },
    {
        self.last_mouse_world = mouse_world;
        match kind {
            MouseEventKind::Move => {
                Self::handle_mouse_move(hit, mouse_world, visual);
            },
            MouseEventKind::Down(button) => {
                self.mouse_down_button = Some(button);
                match button {
                    MouseButton::Left => self.handle_left_mouse_down(hit, mouse_world, visual),
                    _ => {},
                }
            },
            MouseEventKind::Up(button) => {
                let same = match self.mouse_down_button {
                    Some(down) => down == button,
                    None => false,
                };
                if same {
                    visual.interaction = InteractionState::Idle;
                    self.mouse_down_button = None;
                }
            },
            _ => {},
        }
    }
}

/// Moving the pointer while idle or panning re-derives the hover from the hit:
/// the hovered edge is `e` exactly when the hit is the edge `e`, the hovered
/// node is `n` exactly when the hit is (a region of) the node `n`, the hovered
/// socket is `k` exactly when the hit is the socket `k`, and nothing else is
/// hovered. Selections, the active entities and the mode are kept. During a
/// box selection the box follows the pointer and nothing else changes.
pub proof fn lemma_move_sets_hover(
    s: (Option<NodeId>, Seq<NodeId>, Option<NodeId>, Option<SocketId>, Option<SocketId>, Option<EdgeId>, Seq<EdgeId>, InteractionState),
    hit: HitResult,
    mouse_world: NodePosition,
    e: EdgeId,
    n: NodeId,
    k: SocketId,
)
    ensures
        s.7 == InteractionState::Idle || s.7 == InteractionState::Panning ==> {
            let t = after_move(s, hit, mouse_world);
            &&& (t.5 == Some(e)) == (hit == HitResult::Edge { edge_id: e })
            &&& (t.0 == Some(n)) == (hit matches HitResult::Node { node_id, .. } && node_id == n)
            &&& (t.3 == Some(k)) == (hit matches HitResult::Socket { socket_id, .. } && socket_id == k)
            &&& t.5 is None == !(hit is Edge)
            &&& t.0 is None == !(hit is Node)
            &&& t.3 is None == !(hit is Socket)
            &&& t.1 == s.1 && t.2 == s.2 && t.4 == s.4 && t.6 == s.6 && t.7 == s.7
        },
        s.7 matches InteractionState::BoxSelecting { start, .. } ==> after_move(s, hit, mouse_world) == (
            s.0, s.1, s.2, s.3, s.4, s.5, s.6, InteractionState::BoxSelecting { start, current: mouse_world }),
{
}

/// A left press on a node makes it active; with shift its membership in the
/// node selection flips and every other node keeps its membership, without
/// shift it becomes the whole selection. Pressing a node's header starts
/// dragging that node. A press on the background clears both selections and
/// the active node unless shift is held, and starts a box selection at the
/// pointer either way.
pub proof fn lemma_left_press_selects(
    s: (Option<NodeId>, Seq<NodeId>, Option<NodeId>, Option<SocketId>, Option<SocketId>, Option<EdgeId>, Seq<EdgeId>, InteractionState),
    hit: HitResult,
    shift: bool,
    mouse_world: NodePosition,
    x: NodeId,
    y: NodeId,
)
    requires
        s.1.no_duplicates(),
    ensures
        hit matches HitResult::Node { node_id, .. } && node_id == x ==> {
            let t = after_left_down(s, hit, shift, mouse_world);
            &&& t.2 == Some(x)
            &&& shift ==> t.1.contains(x) == !s.1.contains(x)
            &&& shift && y != x ==> t.1.contains(y) == s.1.contains(y)
            &&& !shift ==> t.1 == seq![x]
            &&& t.1.no_duplicates()
        },
        hit == (HitResult::Node { node_id: x, region: NodeRegion::Header })
            ==> after_left_down(s, hit, shift, mouse_world).7 == (InteractionState::DraggingNode { node_id: x }),
        (hit == HitResult::Background) ==> {
            let t = after_left_down(s, hit, shift, mouse_world);
            &&& t.7 == (InteractionState::BoxSelecting { start: mouse_world, current: mouse_world })
            &&& !shift ==> (t.1.len() == 0 && t.6.len() == 0 && (t.2 is None))
            &&& shift ==> t.1 == s.1 && t.6 == s.6 && t.2 == s.2
        },
{
    if let HitResult::Node { node_id, .. } = hit {
        if shift {
            crate::selection::lemma_toggle_flips_membership(s.1, node_id, x);
            crate::selection::lemma_toggle_flips_membership(s.1, node_id, y);
        } else {
            assert(seq![node_id].no_duplicates());
        }
    }
}

} // verus!
