use wglymr_node_editor::draw::{draw_order, node_depth_layer, node_z_index, sort_key, DepthLayer, DrawLayer, EntityMetadata, HitLayer};
use wglymr_node_editor::engine::{EditorEngine, ViewId, ONE_BITS};
use wglymr_node_editor::errors::RuntimeError;
use wglymr_node_editor::hit::{first_edge_hit, resolve_hit, topmost_node_hit, HitResult, HitTestContext, NodeRegion};
use wglymr_node_editor::ids::{EdgeId, NodeId, NodePosition, SocketId};
use wglymr_node_editor::event::{KeyModifiers, MouseButton, MouseEventKind};
use wglymr_node_editor::operators::{OperatorResult, PointerInput};
use wglymr_node_editor::descriptors::SocketDirection;
use wglymr_node_editor::interaction::{map_draw_item_to_target, InteractionTarget};
use wglymr_node_editor::registry::GpuViewRegistry;
use wglymr_node_editor::runtime::EditorRuntime;
use wglymr_node_editor::scheduler::{tick_action, Scheduler, TickAction};
use wglymr_node_editor::socket_ui::{SocketUIDefinition, SocketVisualType};
use wglymr_node_editor::test_adapter::TestDocumentAdapter;
use wglymr_node_editor::text_cache::{TextLayoutCache, TextLayoutKey};

fn key(t: &str, s: u32) -> TextLayoutKey {
    TextLayoutKey { text: t.to_string(), font_size_tenths: s }
}

#[test]
fn registry_create_and_destroy() {
    let mut r: GpuViewRegistry<u8> = GpuViewRegistry::new();
    assert!(r.create_view("a").is_ok());
    assert!(matches!(r.create_view("a"), Err(RuntimeError::ViewAlreadyExists(n)) if n == "a"));
    assert!(matches!(r.destroy_view("b"), Err(RuntimeError::ViewNotFound(n)) if n == "b"));
    assert_eq!(r.len(), 1);
    assert!(r.destroy_view("a").is_ok());
    assert_eq!(r.len(), 0);
    assert!(r.get("a").is_none());
}

#[test]
fn registry_attach_resize_visibility() {
    let mut r: GpuViewRegistry<u8> = GpuViewRegistry::new();
    r.create_view("v").unwrap();
    assert!(matches!(r.attach_view("w", 1, 10, 10), Err(RuntimeError::ViewNotFound(_))));
    r.resize_view("v", 5, 5).unwrap();
    assert_eq!(r.get("v").unwrap().config_size, None);
    r.attach_view("v", 7, 800, 600).unwrap();
    let st = r.get("v").unwrap();
    assert!(st.attached && !st.visible);
    assert_eq!(st.config_size, Some((800, 600)));
    assert_eq!(st.resources, Some(7));
    r.set_visible("v", true).unwrap();
    r.resize_view("v", 1600, 1200).unwrap();
    assert_eq!(r.get("v").unwrap().config_size, Some((1600, 1200)));
    assert!(r.get("v").unwrap().visible);
    r.detach_view("v").unwrap();
    let st = r.get("v").unwrap();
    assert!(!st.attached && st.visible && st.resources.is_none());
    assert!(matches!(r.set_visible("x", true), Err(RuntimeError::ViewNotFound(_))));
    assert_eq!(r.all_view_ids(), vec!["v".to_string()]);
}

#[test]
fn scheduler_marks_once_in_order() {
    let mut s = Scheduler::new();
    s.mark_dirty("a");
    s.mark_dirty("b");
    s.mark_dirty("a");
    assert_eq!(s.dirty_views(), vec!["a".to_string(), "b".to_string()]);
    assert!(s.is_dirty("a"));
    s.clear_dirty("a");
    assert!(!s.is_dirty("a"));
    assert_eq!(s.dirty_count(), 1);
}

#[test]
fn tick_priorities() {
    assert_eq!(tick_action(true, true, 3), TickAction::RenderAllViews);
    assert_eq!(tick_action(false, true, 0), TickAction::RenderAllViewsOnce);
    assert_eq!(tick_action(false, false, 2), TickAction::RenderDirtyViews);
    assert_eq!(tick_action(false, false, 0), TickAction::Idle);
}

#[test]
fn runtime_requests() {
    let mut rt: EditorRuntime<(), u8, TestDocumentAdapter> = EditorRuntime::new(TestDocumentAdapter::new());
    assert!(rt.init_engine().is_ok());
    rt.create_view("main").unwrap();
    rt.create_view("side").unwrap();
    assert!(matches!(rt.create_view("main"), Err(RuntimeError::ViewAlreadyExists(_))));
    assert!(matches!(rt.attach_view("main", 1, 800, 600), Err(RuntimeError::GpuNotInitialized)));
    assert!(matches!(rt.resize_view("main", 8, 6), Err(RuntimeError::GpuNotInitialized)));
    assert!(matches!(rt.dirty_views_to_render(), Err(RuntimeError::GpuNotInitialized)));
    assert!(matches!(rt.render_target_ready("main"), Err(RuntimeError::GpuNotInitialized)));
    rt.init_gpu(()).unwrap();
    assert!(rt.gpu().is_some());
    assert!(matches!(rt.render_target_ready("zzz"), Err(RuntimeError::ViewNotFound(_))));
    assert!(matches!(rt.render_target_ready("main"), Err(RuntimeError::InvalidState(m)) if m == "Surface not available"));
    rt.attach_view("main", 1, 800, 600).unwrap();
    assert!(rt.render_target_ready("main").is_ok());
    rt.set_visible("main", true).unwrap();
    rt.request_render("side").unwrap();
    rt.request_render("main").unwrap();
    assert_eq!(rt.dirty_views_to_render().unwrap(), vec!["main".to_string()]);
    assert_eq!(rt.tick(), TickAction::RenderDirtyViews);
    rt.mark_rendered("main");
    assert_eq!(rt.dirty_views_to_render().unwrap(), Vec::<String>::new());
    assert!(matches!(rt.set_view_camera("nope", 0, 0, ONE_BITS), Err(RuntimeError::ViewNotFound(_))));
    rt.set_view_camera("main", 5, 6, 7).unwrap();
    let v = rt.engine().get_view(&ViewId::new("main".to_string())).unwrap();
    assert_eq!(v.zoom(), 7);
    rt.reset_view("main").unwrap();
    let v = rt.engine().get_view(&ViewId::new("main".to_string())).unwrap();
    assert_eq!(v.zoom(), ONE_BITS);
    assert_eq!(v.pan().x_bits, 0);
    rt.mark_rendered("main");
    rt.mark_rendered("side");
    rt.mark_all_dirty();
    assert_eq!(rt.scheduler().dirty_count(), 2);
    rt.destroy_view("side").unwrap();
    assert!(matches!(rt.destroy_view("side"), Err(RuntimeError::ViewNotFound(_))));
    assert!(!rt.engine().has_view(&ViewId::new("side".to_string())));
    rt.detach_view("main").unwrap();
    assert!(matches!(rt.render_target_ready("main"), Err(RuntimeError::InvalidState(_))));
}

#[test]
fn engine_views() {
    let mut e = EditorEngine::new(TestDocumentAdapter::new());
    let id = ViewId::new("v".to_string());
    assert!(!e.has_view(&id));
    e.create_view(ViewId::new("v".to_string()));
    let v = e.get_view(&id).unwrap();
    assert_eq!((v.css_width(), v.css_height(), v.backing_width(), v.backing_height()), (800, 600, 800, 600));
    assert_eq!(v.zoom(), ONE_BITS);
    e.resize_view(&id, 400, 300, 800, 600, 2.0f32.to_bits());
    let v = e.get_view(&id).unwrap();
    assert_eq!((v.css_width(), v.backing_width(), v.width(), v.height()), (400, 800, 800, 600));
    assert_eq!(f32::from_bits(v.backing_scale()), 2.0);
    assert!(!e.is_modal_active());
    assert!(!e.operator_just_finished());
    e.select_probe();
    e.destroy_view(&id);
    assert!(e.get_view(&id).is_none());
}

trait Probe {
    fn select_probe(&mut self);
}

impl Probe for EditorEngine<TestDocumentAdapter> {
    fn select_probe(&mut self) {
        let id = ViewId::new("v".to_string());
        assert_eq!(self.node_stacking(&id, NodeId(1)), Some((0, DepthLayer::NodesInactive)));
        assert_eq!(self.node_stacking(&ViewId::new("none".to_string()), NodeId(1)), None);
    }
}

#[test]
fn draw_order_is_stable_by_key() {
    let keys = vec![300, 100, 200, 100, 300, 0];
    assert_eq!(draw_order(&keys), vec![5, 1, 3, 2, 0, 4]);
    assert_eq!(draw_order(&Vec::new()), Vec::<usize>::new());
}

#[test]
fn sort_keys_and_stacking() {
    assert_eq!(sort_key(DrawLayer::NodeBody, 100), 200_100);
    assert_eq!(sort_key(DrawLayer::Overlays, -5), 999_995);
    assert_eq!(sort_key(DrawLayer::Grid, 0), 0);
    assert_eq!(node_z_index(true, false, false), 100);
    assert_eq!(node_z_index(false, true, true), 1200);
    assert_eq!(node_depth_layer(true, true), DepthLayer::NodesDragged);
    assert_eq!(node_depth_layer(false, true), DepthLayer::NodesActive);
    assert_eq!(node_depth_layer(false, false), DepthLayer::NodesInactive);
    assert_eq!(EntityMetadata::default(), EntityMetadata::NoEntity);
}

#[test]
fn draw_items_map_to_targets() {
    let n = NodeId(2);
    assert_eq!(map_draw_item_to_target(EntityMetadata::Node(n), HitLayer::NodeHeader), InteractionTarget::NodeHeader { node_id: n });
    assert_eq!(map_draw_item_to_target(EntityMetadata::Node(n), HitLayer::NodeBody), InteractionTarget::Node { node_id: n });
    assert_eq!(map_draw_item_to_target(EntityMetadata::Node(n), HitLayer::NoHit), InteractionTarget::NoTarget);
    assert_eq!(
        map_draw_item_to_target(EntityMetadata::Socket { node_id: n, socket_id: SocketId(3) }, HitLayer::NoHit),
        InteractionTarget::Socket { node_id: n, socket_id: SocketId(3) }
    );
    assert_eq!(map_draw_item_to_target(EntityMetadata::Edge(EdgeId(1)), HitLayer::Edges), InteractionTarget::Edge { edge_id: EdgeId(1) });
    assert_eq!(map_draw_item_to_target(EntityMetadata::NoEntity, HitLayer::NodeBody), InteractionTarget::NoTarget);
}

#[test]
fn hit_priorities() {
    let sock = Some(HitResult::Socket { socket_id: SocketId(1), direction: SocketDirection::Input });
    let node = Some(HitResult::Node { node_id: NodeId(1), region: NodeRegion::Body });
    let edge = Some(HitResult::Edge { edge_id: EdgeId(1) });
    assert_eq!(resolve_hit(HitTestContext::Hover, sock, node, edge), sock.unwrap());
    assert_eq!(resolve_hit(HitTestContext::BoxSelect, sock, node, edge), node.unwrap());
    assert_eq!(resolve_hit(HitTestContext::Click, None, None, edge), edge.unwrap());
    assert_eq!(resolve_hit(HitTestContext::BoxSelect, sock, None, edge), HitResult::Background);
    assert_eq!(resolve_hit(HitTestContext::Drag, None, None, None), HitResult::Background);
}

#[test]
fn topmost_node_and_first_edge() {
    let ids = [NodeId(1), NodeId(2), NodeId(3)];
    assert_eq!(
        topmost_node_hit(&ids, &[true, false, false], &[false, true, false]),
        Some(HitResult::Node { node_id: NodeId(2), region: NodeRegion::Body })
    );
    assert_eq!(
        topmost_node_hit(&ids, &[true, true, false], &[false, true, false]),
        Some(HitResult::Node { node_id: NodeId(2), region: NodeRegion::Header })
    );
    assert_eq!(topmost_node_hit(&ids, &[false; 3], &[false; 3]), None);
    let edges = [EdgeId(4), EdgeId(5)];
    assert_eq!(first_edge_hit(&edges, &[false, true]), Some(HitResult::Edge { edge_id: EdgeId(5) }));
    assert_eq!(first_edge_hit(&edges, &[true, true]), Some(HitResult::Edge { edge_id: EdgeId(4) }));
    assert_eq!(first_edge_hit(&edges, &[false, false]), None);
}

#[test]
fn text_cache_empties_when_full() {
    let mut c: TextLayoutCache<u32> = TextLayoutCache::new(2);
    assert!(c.is_empty());
    c.insert(key("a", 140), 1);
    c.insert(key("b", 140), 2);
    assert_eq!(c.get(&key("a", 140)), Some(&1));
    assert_eq!(c.get(&key("a", 120)), None);
    c.insert(key("c", 140), 3);
    assert_eq!(c.len(), 1);
    assert_eq!(c.get(&key("a", 140)), None);
    assert_eq!(c.get(&key("c", 140)), Some(&3));
    c.insert(key("c", 140), 4);
    assert_eq!(c.get(&key("c", 140)), Some(&4));
    assert_eq!(c.len(), 1);
    c.invalidate(&key("c", 140));
    assert!(c.is_empty());
    c.insert(key("d", 1), 5);
    c.clear();
    assert_eq!(c.len(), 0);
    let mut z: TextLayoutCache<u32> = TextLayoutCache::new(0);
    z.insert(key("x", 1), 1);
    z.insert(key("y", 1), 2);
    assert_eq!(z.len(), 1);
    let d: TextLayoutCache<u32> = TextLayoutCache::default();
    assert!(d.is_empty());
}

#[test]
fn error_messages() {
    assert_eq!(RuntimeError::ViewNotFound("a".to_string()).message(), "View not found: a");
    assert_eq!(RuntimeError::ViewAlreadyExists("b".to_string()).message(), "View already exists: b");
    assert_eq!(RuntimeError::GpuNotInitialized.message(), "GPU not initialized");
    assert_eq!(RuntimeError::GpuInitializationFailed("x".to_string()).message(), "GPU initialization failed: x");
    assert_eq!(RuntimeError::SurfaceCreationFailed("y".to_string()).message(), "Surface creation failed: y");
    assert_eq!(RuntimeError::RenderFailed("z".to_string()).message(), "Render failed: z");
    assert_eq!(RuntimeError::InvalidState("w".to_string()).message(), "Invalid state: w");
}

#[test]
fn socket_ui_definition() {
    let d = SocketUIDefinition::new(SocketId(3), "In".to_string(), SocketVisualType::Diamond);
    assert_eq!(d.id, SocketId(3));
    assert_eq!(d.label, "In");
    assert_eq!(d.visual, SocketVisualType::Diamond);
    assert_eq!(SocketVisualType::default(), SocketVisualType::Circle);
    assert_eq!(ViewId::new("q".to_string()).as_str(), "q");
}

#[test]
fn engine_routes_pointer_events_to_views() {
    let mut e = EditorEngine::new(TestDocumentAdapter::new());
    let id = ViewId::new("v".to_string());
    let at = NodePosition::from_bits(1.0f32.to_bits(), 2.0f32.to_bits());
    let press = PointerInput {
        kind: MouseEventKind::Down(MouseButton::Left),
        hit: HitResult::Node { node_id: NodeId(1), region: NodeRegion::Header },
        beyond_drag_threshold: false,
        mouse_world: at,
        drag_delta: NodePosition::from_bits(0, 0),
    };
    let positions = vec![(NodeId(1), at)];
    assert_eq!(e.handle_mouse_event(&id, &press, KeyModifiers::default(), &positions), None);
    assert_eq!(e.click_start(), None);
    e.create_view(ViewId::new("v".to_string()));
    assert_eq!(e.handle_mouse_event(&id, &press, KeyModifiers::default(), &positions), Some(OperatorResult::Continue));
    assert_eq!(e.click_start(), Some(at));
    let release = PointerInput { kind: MouseEventKind::Up(MouseButton::Left), ..press };
    assert_eq!(e.handle_mouse_event(&id, &release, KeyModifiers::default(), &positions), Some(OperatorResult::Finished));
    assert!(e.operator_just_finished());
    assert_eq!(e.click_start(), None);
    assert!(e.get_view(&id).unwrap().visual().is_node_selected(NodeId(1)));
    let drag = PointerInput { kind: MouseEventKind::Move, beyond_drag_threshold: true, ..press };
    e.handle_mouse_event(&id, &press, KeyModifiers::default(), &positions);
    assert_eq!(
        e.handle_mouse_event(&id, &drag, KeyModifiers::default(), &positions),
        Some(OperatorResult::StartDragNodes { node_ids: vec![NodeId(1)] })
    );
    assert!(e.is_modal_active());
    assert!(e.operator_just_finished());
    assert_eq!(e.node_stacking(&id, NodeId(1)), Some((1100, DepthLayer::NodesDragged)));
}

#[test]
fn ended_operator_redraws_everything_once() {
    let mut rt: EditorRuntime<(), u8, TestDocumentAdapter> = EditorRuntime::new(TestDocumentAdapter::new());
    rt.create_view("main").unwrap();
    assert_eq!(rt.tick(), TickAction::Idle);
    let at = NodePosition::from_bits(0, 0);
    let release = PointerInput {
        kind: MouseEventKind::Up(MouseButton::Left),
        hit: HitResult::Background,
        beyond_drag_threshold: false,
        mouse_world: at,
        drag_delta: at,
    };
    let r = rt.engine_mut().handle_mouse_event(&ViewId::new("main".to_string()), &release, KeyModifiers::default(), &Vec::new());
    assert_eq!(r, Some(OperatorResult::Finished));
    assert_eq!(rt.tick(), TickAction::RenderAllViewsOnce);
    assert_eq!(rt.tick(), TickAction::Idle);
    rt.request_render("main").unwrap();
    assert_eq!(rt.tick(), TickAction::RenderDirtyViews);
}
