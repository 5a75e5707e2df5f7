use wglymr_node_editor::dispatch::{ActiveOperator, InputDispatcher};
use wglymr_node_editor::drag::GlobalInteractionState;
use wglymr_node_editor::event::{KeyModifiers, MouseButton, MouseEventKind};
use wglymr_node_editor::hit::{HitResult, NodeRegion};
use wglymr_node_editor::ids::{EdgeId, NodeId, NodePosition, SocketId};
use wglymr_node_editor::descriptors::SocketDirection;
use wglymr_node_editor::operators::{NodeDragOperator, NodeSelectOperator, OperatorResult, PointerInput};
use wglymr_node_editor::selection::ViewVisualState;
use wglymr_node_editor::input_handler::{EditorInputHandler, EditorVisualState, InteractionState};

fn pt(x: f32, y: f32) -> NodePosition {
    NodePosition::from_bits(x.to_bits(), y.to_bits())
}

fn input(kind: MouseEventKind, hit: HitResult, beyond: bool, at: NodePosition) -> PointerInput {
    PointerInput { kind, hit, beyond_drag_threshold: beyond, mouse_world: at, drag_delta: pt(0.0, 0.0) }
}

fn header(id: u64) -> HitResult {
    HitResult::Node { node_id: NodeId(id), region: NodeRegion::Header }
}

#[test]
fn toggle_selection_twice_restores_it() {
    let mut v = ViewVisualState::new();
    v.select_single_node(NodeId(1));
    v.toggle_node_selection(NodeId(2));
    assert_eq!(v.selected_nodes, vec![NodeId(1), NodeId(2)]);
    v.toggle_node_selection(NodeId(2));
    assert_eq!(v.selected_nodes, vec![NodeId(1)]);
    v.toggle_node_selection(NodeId(1));
    assert!(v.selected_nodes.is_empty());
    assert!(!v.is_node_selected(NodeId(1)));
    v.toggle_edge_selection(EdgeId(4));
    assert!(v.is_edge_selected(EdgeId(4)));
    v.clear_selection();
    assert!(v.selected_edges.is_empty());
}

#[test]
fn click_on_node_selects_it_alone() {
    let mut op = NodeSelectOperator::new();
    let mut v = ViewVisualState::new();
    v.select_single_node(NodeId(7));
    let r = op.handle_event(&input(MouseEventKind::Down(MouseButton::Left), header(1), false, pt(5.0, 5.0)), false, &mut v);
    assert_eq!(r, OperatorResult::Continue);
    assert!(op.click.is_some());
    assert_eq!(op.click_start(), Some(pt(5.0, 5.0)));
    let r = op.handle_event(&input(MouseEventKind::Up(MouseButton::Left), header(1), false, pt(5.0, 5.0)), false, &mut v);
    assert_eq!(r, OperatorResult::Finished);
    assert_eq!(v.selected_nodes, vec![NodeId(1)]);
    assert!(op.click.is_none());
}

#[test]
fn shift_click_toggles_node() {
    let mut op = NodeSelectOperator::new();
    let mut v = ViewVisualState::new();
    v.select_single_node(NodeId(7));
    op.handle_event(&input(MouseEventKind::Down(MouseButton::Left), header(1), false, pt(0.0, 0.0)), true, &mut v);
    op.handle_event(&input(MouseEventKind::Up(MouseButton::Left), header(1), false, pt(0.0, 0.0)), true, &mut v);
    assert_eq!(v.selected_nodes, vec![NodeId(7), NodeId(1)]);
}

#[test]
fn background_click_clears_selection_unless_shift() {
    let mut op = NodeSelectOperator::new();
    let mut v = ViewVisualState::new();
    v.select_single_node(NodeId(7));
    v.select_single_edge(EdgeId(2));
    op.handle_event(&input(MouseEventKind::Down(MouseButton::Left), HitResult::Background, false, pt(0.0, 0.0)), true, &mut v);
    op.handle_event(&input(MouseEventKind::Up(MouseButton::Left), HitResult::Background, false, pt(0.0, 0.0)), true, &mut v);
    assert_eq!(v.selected_nodes, vec![NodeId(7)]);
    op.handle_event(&input(MouseEventKind::Down(MouseButton::Left), HitResult::Background, false, pt(0.0, 0.0)), false, &mut v);
    op.handle_event(&input(MouseEventKind::Up(MouseButton::Left), HitResult::Background, false, pt(0.0, 0.0)), false, &mut v);
    assert!(v.selected_nodes.is_empty());
    assert!(v.selected_edges.is_empty());
}

#[test]
fn dragging_a_header_of_selected_node_drags_selection() {
    let mut op = NodeSelectOperator::new();
    let mut v = ViewVisualState::new();
    v.select_single_node(NodeId(3));
    v.toggle_node_selection(NodeId(4));
    op.handle_event(&input(MouseEventKind::Down(MouseButton::Left), header(4), false, pt(0.0, 0.0)), false, &mut v);
    let r = op.handle_event(&input(MouseEventKind::Move, header(4), false, pt(1.0, 0.0)), false, &mut v);
    assert_eq!(r, OperatorResult::Continue);
    let r = op.handle_event(&input(MouseEventKind::Move, header(4), true, pt(9.0, 0.0)), false, &mut v);
    assert_eq!(r, OperatorResult::StartDragNodes { node_ids: vec![NodeId(3), NodeId(4)] });
    assert!(op.click.is_none());
}

#[test]
fn dragging_an_unselected_node_drags_it_alone() {
    let mut op = NodeSelectOperator::new();
    let mut v = ViewVisualState::new();
    v.select_single_node(NodeId(3));
    op.handle_event(&input(MouseEventKind::Down(MouseButton::Left), header(5), false, pt(0.0, 0.0)), false, &mut v);
    let r = op.handle_event(&input(MouseEventKind::Move, header(5), true, pt(9.0, 0.0)), false, &mut v);
    assert_eq!(r, OperatorResult::StartDragNodes { node_ids: vec![NodeId(5)] });
    // dragging by the body does not start a drag
    op.handle_event(&input(MouseEventKind::Down(MouseButton::Left), HitResult::Node { node_id: NodeId(5), region: NodeRegion::Body }, false, pt(0.0, 0.0)), false, &mut v);
    let r = op.handle_event(&input(MouseEventKind::Move, HitResult::Background, true, pt(9.0, 0.0)), false, &mut v);
    assert_eq!(r, OperatorResult::Continue);
    assert!(op.click.is_none());
}

#[test]
fn socket_press_starts_link_drag_and_right_press_cancels() {
    let mut op = NodeSelectOperator::new();
    let mut v = ViewVisualState::new();
    let sock = HitResult::Socket { socket_id: SocketId(9), direction: SocketDirection::Output };
    let r = op.handle_event(&input(MouseEventKind::Down(MouseButton::Left), sock, false, pt(0.0, 0.0)), false, &mut v);
    assert_eq!(r, OperatorResult::StartLinkDrag { from_socket: SocketId(9) });
    let r = op.handle_event(&input(MouseEventKind::Down(MouseButton::Right), sock, false, pt(0.0, 0.0)), false, &mut v);
    assert_eq!(r, OperatorResult::Cancelled);
}

#[test]
fn hover_and_leave() {
    let mut op = NodeSelectOperator::new();
    let mut v = ViewVisualState::new();
    op.handle_event(&input(MouseEventKind::Move, header(2), false, pt(0.0, 0.0)), false, &mut v);
    assert_eq!(v.hovered_node, Some(NodeId(2)));
    let sock = HitResult::Socket { socket_id: SocketId(1), direction: SocketDirection::Input };
    op.handle_event(&input(MouseEventKind::Move, sock, false, pt(0.0, 0.0)), false, &mut v);
    assert_eq!(v.hovered_node, None);
    assert_eq!(v.hovered_socket, Some(SocketId(1)));
    op.handle_event(&input(MouseEventKind::Move, header(2), false, pt(0.0, 0.0)), false, &mut v);
    op.handle_event(&input(MouseEventKind::Leave(MouseButton::Left), header(2), false, pt(0.0, 0.0)), false, &mut v);
    assert_eq!(v.hovered_node, None);
}

#[test]
fn node_drag_records_start_and_delta() {
    let mut op = NodeDragOperator::new(vec![NodeId(1), NodeId(2), NodeId(1)]);
    let mut g = GlobalInteractionState::default();
    let positions = vec![(NodeId(2), pt(3.0, 4.0)), (NodeId(1), pt(1.0, 2.0)), (NodeId(2), pt(8.0, 8.0))];
    op.on_enter(pt(10.0, 10.0), &positions, &mut g);
    assert!(g.is_modal_active());
    let d = g.node_drag.clone().unwrap();
    assert_eq!(d.node_ids, vec![NodeId(1), NodeId(2), NodeId(1)]);
    assert_eq!(d.start_mouse_world, pt(10.0, 10.0));
    assert_eq!(d.drag_delta, pt(0.0, 0.0));
    assert_eq!(wglymr_node_editor::drag::find_position(&d.start_positions, NodeId(1)), Some(pt(1.0, 2.0)));
    assert_eq!(wglymr_node_editor::drag::find_position(&d.start_positions, NodeId(2)), Some(pt(3.0, 4.0)));
    let mv = PointerInput { kind: MouseEventKind::Move, hit: HitResult::Background, beyond_drag_threshold: true, mouse_world: pt(12.0, 13.0), drag_delta: pt(2.0, 3.0) };
    assert_eq!(op.handle_event(&mv, &mut g), OperatorResult::Continue);
    assert_eq!(g.drag_offset(NodeId(2)), Some(pt(2.0, 3.0)));
    assert_eq!(g.drag_offset(NodeId(5)), None);
    let up = PointerInput { kind: MouseEventKind::Up(MouseButton::Left), ..mv };
    assert_eq!(op.handle_event(&up, &mut g), OperatorResult::Finished);
    op.on_exit(&mut g);
    assert!(!g.is_modal_active());
}

#[test]
fn dispatcher_hands_over_between_operators() {
    let mut d = InputDispatcher::new();
    let mut v = ViewVisualState::new();
    let mut g = GlobalInteractionState::default();
    let positions = vec![(NodeId(1), pt(50.0, 100.0))];
    assert!(!d.has_active_operator());
    let r = d.handle_mouse_event(&input(MouseEventKind::Down(MouseButton::Left), header(1), false, pt(60.0, 105.0)), &mut v, &mut g, &positions);
    assert_eq!(r, OperatorResult::Continue);
    assert!(d.has_active_operator());
    assert!(!d.operator_just_finished());
    assert_eq!(d.click_start(), Some(pt(60.0, 105.0)));
    let r = d.handle_mouse_event(&input(MouseEventKind::Move, header(1), true, pt(70.0, 105.0)), &mut v, &mut g, &positions);
    assert_eq!(r, OperatorResult::StartDragNodes { node_ids: vec![NodeId(1)] });
    assert!(d.operator_just_finished());
    assert!(g.is_modal_active());
    assert_eq!(g.node_drag.as_ref().unwrap().start_mouse_world, pt(70.0, 105.0));
    let r = d.handle_mouse_event(&input(MouseEventKind::Up(MouseButton::Left), header(1), false, pt(70.0, 105.0)), &mut v, &mut g, &positions);
    assert_eq!(r, OperatorResult::Finished);
    assert!(!g.is_modal_active());
    assert!(d.operator_just_finished());
    d.clear_operator_finished_flag();
    assert!(!d.operator_just_finished());
    assert!(d.has_active_operator());
}

#[test]
fn dispatcher_starts_link_drag_and_uses_shift() {
    let mut d = InputDispatcher::new();
    let mut v = ViewVisualState::new();
    let mut g = GlobalInteractionState::default();
    let positions = Vec::new();
    d.set_modifiers(KeyModifiers { shift: true, ctrl: false, alt: false });
    v.select_single_node(NodeId(4));
    d.handle_mouse_event(&input(MouseEventKind::Down(MouseButton::Left), header(5), false, pt(0.0, 0.0)), &mut v, &mut g, &positions);
    d.handle_mouse_event(&input(MouseEventKind::Up(MouseButton::Left), header(5), false, pt(0.0, 0.0)), &mut v, &mut g, &positions);
    assert_eq!(v.selected_nodes, vec![NodeId(4), NodeId(5)]);
    let sock = HitResult::Socket { socket_id: SocketId(2), direction: SocketDirection::Input };
    let r = d.handle_mouse_event(&input(MouseEventKind::Down(MouseButton::Left), sock, false, pt(0.0, 0.0)), &mut v, &mut g, &positions);
    assert_eq!(r, OperatorResult::StartLinkDrag { from_socket: SocketId(2) });
    let r = d.handle_mouse_event(&input(MouseEventKind::Move, sock, false, pt(1.0, 0.0)), &mut v, &mut g, &positions);
    assert_eq!(r, OperatorResult::Continue);
    let r = d.handle_mouse_event(&input(MouseEventKind::Down(MouseButton::Right), sock, false, pt(1.0, 0.0)), &mut v, &mut g, &positions);
    assert_eq!(r, OperatorResult::Cancelled);
    let _ = ActiveOperator::NodeSelect(NodeSelectOperator::new());
}

#[test]
fn direct_handler_selects_and_drags() {
    let mut h = EditorInputHandler::new();
    let mut vis = EditorVisualState::default();
    h.handle_mouse_event(MouseEventKind::Move, header(1), pt(0.0, 0.0), &mut vis);
    assert_eq!(vis.hovered_node, Some(NodeId(1)));
    h.handle_mouse_event(MouseEventKind::Down(MouseButton::Left), header(1), pt(0.0, 0.0), &mut vis);
    assert_eq!(vis.selected_nodes, vec![NodeId(1)]);
    assert_eq!(vis.active_node, Some(NodeId(1)));
    assert_eq!(vis.interaction, InteractionState::DraggingNode { node_id: NodeId(1) });
    // hover does not change while dragging
    h.handle_mouse_event(MouseEventKind::Move, HitResult::Background, pt(5.0, 0.0), &mut vis);
    assert_eq!(vis.hovered_node, Some(NodeId(1)));
    // releasing another button does nothing
    h.handle_mouse_event(MouseEventKind::Up(MouseButton::Right), HitResult::Background, pt(5.0, 0.0), &mut vis);
    assert_eq!(vis.interaction, InteractionState::DraggingNode { node_id: NodeId(1) });
    h.handle_mouse_event(MouseEventKind::Up(MouseButton::Left), HitResult::Background, pt(5.0, 0.0), &mut vis);
    assert_eq!(vis.interaction, InteractionState::Idle);
    h.handle_mouse_event(MouseEventKind::Down(MouseButton::Left), HitResult::Background, pt(7.0, 7.0), &mut vis);
    assert!(vis.selected_nodes.is_empty());
    assert_eq!(vis.active_node, None);
    h.handle_mouse_event(MouseEventKind::Move, HitResult::Background, pt(9.0, 9.0), &mut vis);
    assert_eq!(vis.interaction, InteractionState::BoxSelecting { start: pt(7.0, 7.0), current: pt(9.0, 9.0) });
}

#[test]
fn direct_handler_edges_and_sockets() {
    let mut h = EditorInputHandler::new();
    let mut vis = EditorVisualState::default();
    h.handle_mouse_event(MouseEventKind::Down(MouseButton::Left), HitResult::Edge { edge_id: EdgeId(3) }, pt(0.0, 0.0), &mut vis);
    assert_eq!(vis.selected_edges, vec![EdgeId(3)]);
    h.set_modifiers(KeyModifiers { shift: true, ctrl: false, alt: false });
    h.handle_mouse_event(MouseEventKind::Down(MouseButton::Left), HitResult::Edge { edge_id: EdgeId(3) }, pt(0.0, 0.0), &mut vis);
    assert!(vis.selected_edges.is_empty());
    let sock = HitResult::Socket { socket_id: SocketId(6), direction: SocketDirection::Output };
    h.handle_mouse_event(MouseEventKind::Down(MouseButton::Left), sock, pt(0.0, 0.0), &mut vis);
    assert_eq!(vis.active_socket, Some(SocketId(6)));
    assert_eq!(vis.interaction, InteractionState::DraggingLink { from_socket: SocketId(6) });
}
