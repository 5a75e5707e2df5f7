//! The editor engine: its views (camera, resolution and interaction state
//! of each), the document, and the routing of pointer events.
use vstd::prelude::*;
use crate::adapter::DocumentAdapter;
use crate::dispatch::{dispatch_step, drag_consistent, ActiveOperator, InputDispatcher};
use crate::drag::{contains_node, GlobalInteractionState};
use crate::draw::{node_depth_layer, node_z_index, node_z_spec, DepthLayer};
use crate::event::KeyModifiers;
use crate::ids::{NodeId, NodePosition};
use crate::operators::{OperatorResult, PointerInput};
use crate::selection::ViewVisualState;
use crate::view_table::ViewTable;

verus! {

/// The name of an editor view.
#[derive(Debug, Clone)]
pub struct ViewId(String);

impl View for ViewId {
    type V = Seq<char>;

    closed spec fn view(&self) -> Seq<char> {
        self.0@
    }
}

impl ViewId {
    /// The view named `id`.
    pub fn new(id: String) -> (v: Self)
        ensures
            v@ == id@,
    {
        ViewId(id)
    }

    /// The name of this view.
    pub fn as_str(&self) -> (r: &str)
        ensures
            r@ == self@,
    {
        self.0.as_str()
    }

    /// Whether this view has the name `name`.
    pub fn has_name(&self, name: &String) -> (r: bool)
        ensures
            r == (self@ == name@),
    {
        self.0 == *name
    }
}

/// The bit pattern of the number 1.
pub const ONE_BITS: u32 = 0x3F80_0000u32;

/// Camera state and resolution of a view. CSS dimensions are for layout,
/// backing dimensions for rendering. The pan, zoom and backing scale are
/// held as bit patterns of single-precision numbers.
#[derive(Debug, Clone)]
pub struct EditorView {
    pan: NodePosition,
    zoom_bits: u32,
    css_width: u32,
    css_height: u32,
    backing_width: u32,
    backing_height: u32,
    backing_scale_bits: u32,
    visual: ViewVisualState,
}

impl EditorView {
    /// The camera's pan.
    pub closed spec fn camera_pan(&self) -> NodePosition {
        self.pan
    }

    /// The camera's zoom.
    pub closed spec fn camera_zoom(&self) -> u32 {
        self.zoom_bits
    }

    /// The CSS width and height.
    pub closed spec fn css_size(&self) -> (u32, u32) {
        (self.css_width, self.css_height)
    }

    /// The backing width and height.
    pub closed spec fn backing_size(&self) -> (u32, u32) {
        (self.backing_width, self.backing_height)
    }

    /// The backing scale.
    pub closed spec fn scale(&self) -> u32 {
        self.backing_scale_bits
    }

    /// The interaction state.
    pub closed spec fn visual_state(&self) -> ViewVisualState {
        self.visual
    }

    /// A view of 800 by 600 at scale 1, camera at the origin with zoom 1, nothing hovered or selected.
    pub fn new() -> (v: Self)
        ensures
            v.camera_pan() == (NodePosition { x_bits: 0, y_bits: 0 }),
            v.camera_zoom() == ONE_BITS,
            v.css_size() == (800u32, 600u32),
            v.backing_size() == (800u32, 600u32),
            v.scale() == ONE_BITS,
            v.visual_state().is_cleared(),
            v.visual_state().wf(),
    {
        EditorView {
            pan: NodePosition { x_bits: 0, y_bits: 0 },
            zoom_bits: ONE_BITS,
            css_width: 800,
            css_height: 600,
            backing_width: 800,
            backing_height: 600,
            backing_scale_bits: ONE_BITS,
            visual: ViewVisualState::new(),
        }
    }

    /// Sets the CSS and backing dimensions and the backing scale.
    pub fn set_dimensions(&mut self, css_width: u32, css_height: u32, backing_width: u32, backing_height: u32, backing_scale_bits: u32)
        ensures
            final(self).css_size() == (css_width, css_height),
            final(self).backing_size() == (backing_width, backing_height),
            final(self).scale() == backing_scale_bits,
            final(self).camera_pan() == old(self).camera_pan(),
            final(self).camera_zoom() == old(self).camera_zoom(),
            final(self).visual_state() == old(self).visual_state(),
    {
        self.css_width = css_width;
        self.css_height = css_height;
        self.backing_width = backing_width;
        self.backing_height = backing_height;
        self.backing_scale_bits = backing_scale_bits;
    }

    /// Places the camera.
    pub fn set_camera(&mut self, pan: NodePosition, zoom_bits: u32)
        ensures
            final(self).camera_pan() == pan,
            final(self).camera_zoom() == zoom_bits,
            final(self).css_size() == old(self).css_size(),
            final(self).backing_size() == old(self).backing_size(),
            final(self).scale() == old(self).scale(),
            final(self).visual_state() == old(self).visual_state(),
    {
        self.pan = pan;
        self.zoom_bits = zoom_bits;
    }

    /// The camera's pan.
    pub fn pan(&self) -> (p: NodePosition)
        ensures
            p == self.camera_pan(),
    {
        self.pan
    }

    /// The camera's zoom.
    pub fn zoom(&self) -> (z: u32)
        ensures
            z == self.camera_zoom(),
    {
        self.zoom_bits
    }

    /// The CSS width.
    pub fn css_width(&self) -> (w: u32)
        ensures
            w == self.css_size().0,
    {
        self.css_width
    }

    /// The CSS height.
    pub fn css_height(&self) -> (h: u32)
        ensures
            h == self.css_size().1,
    {
        self.css_height
    }

    /// The backing (render) width.
    pub fn backing_width(&self) -> (w: u32)
        ensures
            w == self.backing_size().0,
    {
        self.backing_width
    }

    /// The backing (render) height.
    pub fn backing_height(&self) -> (h: u32)
        ensures
            h == self.backing_size().1,
    {
        self.backing_height
    }

    /// The backing scale.
    pub fn backing_scale(&self) -> (s: u32)
        ensures
            s == self.scale(),
    {
        self.backing_scale_bits
    }

    /// The backing width (the render resolution).
    pub fn width(&self) -> (w: u32)
        ensures
            w == self.backing_size().0,
    {
        self.backing_width
    }

    /// The backing height (the render resolution).
    pub fn height(&self) -> (h: u32)
        ensures
            h == self.backing_size().1,
    {
        self.backing_height
    }

    /// The interaction state.
    pub fn visual(&self) -> (v: &ViewVisualState)
        ensures
            *v == self.visual_state(),
    {
        &self.visual
    }
}

/// The editor: its views by name, the document, the shared interaction
/// state and the input dispatcher.
pub struct EditorEngine<D> {
    views: ViewTable<EditorView>,
    document: D,
    global_interaction: GlobalInteractionState,
    input_handler: InputDispatcher,
}

impl<D: DocumentAdapter> EditorEngine<D> {
    /// The views by name.
    pub closed spec fn view_map(&self) -> Map<Seq<char>, EditorView> {
        self.views.map()
    }

    /// The shared interaction state.
    pub closed spec fn global_state(&self) -> GlobalInteractionState {
        self.global_interaction
    }

    /// The input dispatcher.
    pub closed spec fn dispatcher(&self) -> InputDispatcher {
        self.input_handler
    }

    /// The document.
    pub closed spec fn doc(&self) -> D {
        self.document
    }

    /// Each view's selection holds no entity twice, and a drag is in
    /// progress exactly when the drag operator is active.
    pub open spec fn consistent(&self) -> bool {
        &&& forall|k: Seq<char>| #[trigger] self.view_map().contains_key(k) ==> self.view_map()[k].visual_state().wf()
        &&& drag_consistent(self.dispatcher().current(), self.global_state())
    }

    /// An engine over `document` with no views and no interaction in progress.
    pub fn new(document: D) -> (e: Self)
        ensures
            e.view_map() == Map::<Seq<char>, EditorView>::empty(),
            e.doc() == document,
            e.global_state().node_drag is None,
            e.dispatcher().current() is None,
            !e.dispatcher().just_finished(),
            e.consistent(),
    {
        EditorEngine {
            views: ViewTable::new(),
            document,
            global_interaction: GlobalInteractionState { node_drag: None },
            input_handler: InputDispatcher::new(),
        }
    }

    /// The document.
    pub fn document(&self) -> (d: &D)
        ensures
            *d == self.doc(),
    {
        &self.document
    }

    /// Adds a fresh view named `view_id`, replacing any view of that name.
    pub fn create_view(&mut self, view_id: ViewId)
        ensures
            ({
                let v = final(self).view_map()[view_id@];
                &&& final(self).view_map() == old(self).view_map().insert(view_id@, v)
                &&& v.camera_pan() == (NodePosition { x_bits: 0, y_bits: 0 })
                &&& v.camera_zoom() == ONE_BITS
                &&& v.css_size() == (800u32, 600u32)
                &&& v.backing_size() == (800u32, 600u32)
                &&& v.scale() == ONE_BITS
                &&& v.visual_state().is_cleared()
            }),
            final(self).global_state() == old(self).global_state(),
            final(self).dispatcher() == old(self).dispatcher(),
            final(self).doc() == old(self).doc(),
            old(self).consistent() ==> final(self).consistent(),
    {
        let v = EditorView::new();
        self.views.insert(view_id.as_str(), v);
    }

    /// The view named `view_id`, if any.
    pub fn get_view(&self, view_id: &ViewId) -> (r: Option<&EditorView>)
        ensures
            r is None <==> !self.view_map().contains_key(view_id@),
            r matches Some(v) ==> *v == self.view_map()[view_id@],
    {
        self.views.get(view_id.as_str())
    }

    /// Whether a view is named `view_id`.
    pub fn has_view(&self, view_id: &ViewId) -> (r: bool)
        ensures
            r == self.view_map().contains_key(view_id@),
    {
        self.views.contains(view_id.as_str())
    }

    /// Removes the view named `view_id`, if any.
    pub fn destroy_view(&mut self, view_id: &ViewId)
        ensures
            final(self).view_map() == old(self).view_map().remove(view_id@),
            final(self).global_state() == old(self).global_state(),
            final(self).dispatcher() == old(self).dispatcher(),
            final(self).doc() == old(self).doc(),
            old(self).consistent() ==> final(self).consistent(),
    {
        let _gone = self.views.remove(view_id.as_str());
    }

    /// Sets the dimensions of the view named `view_id`, if any. The backing
    /// scale is the backing width divided by the CSS width.
    pub fn resize_view(
        &mut self,
        view_id: &ViewId,
        css_width: u32,
        css_height: u32,
        backing_width: u32,
        backing_height: u32,
        backing_scale_bits: u32,
    )
        ensures
            old(self).view_map().contains_key(view_id@) ==> {
                let w = old(self).view_map()[view_id@];
                let v = final(self).view_map()[view_id@];
                &&& final(self).view_map() == old(self).view_map().insert(view_id@, v)
                &&& v.css_size() == (css_width, css_height)
                &&& v.backing_size() == (backing_width, backing_height)
                &&& v.scale() == backing_scale_bits
                &&& v.camera_pan() == w.camera_pan()
                &&& v.camera_zoom() == w.camera_zoom()
                &&& v.visual_state() == w.visual_state()
            },
            !old(self).view_map().contains_key(view_id@) ==> final(self).view_map() == old(self).view_map(),
            final(self).global_state() == old(self).global_state(),
            final(self).dispatcher() == old(self).dispatcher(),
            final(self).doc() == old(self).doc(),
            old(self).consistent() ==> final(self).consistent(),
    {
        match self.views.remove(view_id.as_str()) {
            Some(mut v) => {
                v.set_dimensions(css_width, css_height, backing_width, backing_height, backing_scale_bits);
                self.views.insert(view_id.as_str(), v);
                proof {
                    assert(old(self).view_map().remove(view_id@).insert(view_id@, v) =~= old(self).view_map().insert(view_id@, v));
                }
            },
            None => {
                assert(old(self).view_map().remove(view_id@) =~= old(self).view_map());
            },
        }
    }

    /// Places the camera of the view named `view_id`, if any.
    pub fn set_view_camera(&mut self, view_id: &ViewId, x_bits: u32, y_bits: u32, zoom_bits: u32)
        ensures
            old(self).view_map().contains_key(view_id@) ==> {
                let w = old(self).view_map()[view_id@];
                let v = final(self).view_map()[view_id@];
                &&& final(self).view_map() == old(self).view_map().insert(view_id@, v)
                &&& v.camera_pan() == (NodePosition { x_bits, y_bits })
                &&& v.camera_zoom() == zoom_bits
                &&& v.css_size() == w.css_size()
                &&& v.backing_size() == w.backing_size()
                &&& v.scale() == w.scale()
                &&& v.visual_state() == w.visual_state()
            },
            !old(self).view_map().contains_key(view_id@) ==> final(self).view_map() == old(self).view_map(),
            final(self).global_state() == old(self).global_state(),
            final(self).dispatcher() == old(self).dispatcher(),
            final(self).doc() == old(self).doc(),
            old(self).consistent() ==> final(self).consistent(),
    {
        match self.views.remove(view_id.as_str()) {
            Some(mut v) => {
                v.set_camera(NodePosition { x_bits, y_bits }, zoom_bits);
                self.views.insert(view_id.as_str(), v);
                proof {
                    assert(old(self).view_map().remove(view_id@).insert(view_id@, v) =~= old(self).view_map().insert(view_id@, v));
                }
            },
            None => {
                assert(old(self).view_map().remove(view_id@) =~= old(self).view_map());
            },
        }
    }


    /// Where node `id` goes in the stacking order of view `view_id`: its
    /// height (100 when selected, plus 200 when active, plus 1000 when dragged)
    /// and its depth band. `None` when there is no such view.
    pub fn node_stacking(&self, view_id: &ViewId, id: NodeId) -> (r: Option<(i32, DepthLayer)>)
        ensures
            r is None <==> !self.view_map().contains_key(view_id@),
            r matches Some(p) ==> {
                let vis = self.view_map()[view_id@].visual_state();
                let dragged = self.global_state().node_drag is Some && self.global_state().node_drag->0.node_ids@.contains(id);
                let active = vis.active_node == Some(id);
                &&& p.0 == node_z_spec(vis.selected_nodes@.contains(id), active, dragged)
                &&& p.1 == (if dragged {
                    DepthLayer::NodesDragged
                } else if active {
                    DepthLayer::NodesActive
                } else {
                    DepthLayer::NodesInactive
                })
            },
    {
        match self.views.get(view_id.as_str()) {
            None => None,
            Some(view) => {
                let dragged = match &self.global_interaction.node_drag {
                    Some(drag) => contains_node(&drag.node_ids, id),
                    None => false,
                };
                let active = match view.visual.active_node {
                    Some(a) => a == id,
                    None => false,
                };
                let selected = view.visual.is_node_selected(id);
                Some((node_z_index(selected, active, dragged), node_depth_layer(dragged, active)))
            },
        }
    }

    /// The shared interaction state.
    pub fn global_interaction(&self) -> (g: &GlobalInteractionState)
        ensures
            *g == self.global_state(),
    {
        &self.global_interaction
    }

    /// Where the pending click of the active selection operator started, if
    /// any: the point from which the drag threshold is measured.
    pub fn click_start(&self) -> (r: Option<NodePosition>)
        ensures
            r == (match self.dispatcher().current() {
                Some(ActiveOperator::NodeSelect(op)) => match op.click {
                    Some(c) => Some(c.start_mouse_world),
                    None => None,
                },
                _ => None,
            }),
    {
        self.input_handler.click_start()
    }

    /// Whether a modal operation (a node drag) is in progress.
    pub fn is_modal_active(&self) -> (r: bool)
        ensures
            r == self.global_state().node_drag is Some,
    {
        self.global_interaction.is_modal_active()
    }

    /// Whether the last event ended or handed over an operator.
    pub fn operator_just_finished(&self) -> (r: bool)
        ensures
            r == self.dispatcher().just_finished(),
    {
        self.input_handler.operator_just_finished()
    }

    /// Forgets that an operator just finished.
    pub fn clear_operator_finished_flag(&mut self)
        ensures
            !final(self).dispatcher().just_finished(),
            final(self).dispatcher().current() == old(self).dispatcher().current(),
            final(self).dispatcher().modifiers() == old(self).dispatcher().modifiers(),
            final(self).view_map() == old(self).view_map(),
            final(self).global_state() == old(self).global_state(),
            final(self).doc() == old(self).doc(),
            old(self).consistent() ==> final(self).consistent(),
    {
        self.input_handler.clear_operator_finished_flag();
    }

    /// Routes a pointer event to the view named `view_id` with `modifiers`
    /// held. Returns the result of the operator that received it, or `None`
    /// (and changes nothing) when there is no such view. `node_positions`
    /// are the start positions of the nodes, for a drag that may begin.
    pub fn handle_mouse_event(
        &mut self,
        view_id: &ViewId,
        input: &PointerInput,
        modifiers: KeyModifiers,
        node_positions: &Vec<(NodeId, NodePosition)>,
    ) -> (r: Option<OperatorResult>)
        ensures
            !old(self).view_map().contains_key(view_id@) ==> {
                &&& r is None
                &&& final(self).view_map() == old(self).view_map()
                &&& final(self).global_state() == old(self).global_state()
                &&& final(self).dispatcher() == old(self).dispatcher()
            },
            old(self).view_map().contains_key(view_id@) ==> exists|d: InputDispatcher| {
                let w = old(self).view_map()[view_id@];
                let v = final(self).view_map()[view_id@];
                &&& r is Some
                &&& final(self).view_map() == old(self).view_map().insert(view_id@, v)
                &&& v.camera_pan() == w.camera_pan()
                &&& v.camera_zoom() == w.camera_zoom()
                &&& v.css_size() == w.css_size()
                &&& v.backing_size() == w.backing_size()
                &&& v.scale() == w.scale()
                &&& #[trigger] d.modifiers() == modifiers
                &&& d.current() == old(self).dispatcher().current()
                &&& d.just_finished() == old(self).dispatcher().just_finished()
                &&& dispatch_step(d, final(self).dispatcher(), *input, w.visual_state(), v.visual_state(),
                    old(self).global_state(), final(self).global_state(), node_positions@, r->0)
            },
            final(self).doc() == old(self).doc(),
            old(self).consistent() ==> final(self).consistent(),
    {
        match self.views.remove(view_id.as_str()) {
            None => {
                assert(old(self).view_map().remove(view_id@) =~= old(self).view_map());
                None
            },
            Some(mut v) => {
                let ghost w = v;
                self.input_handler.set_modifiers(modifiers);
                let ghost d = self.input_handler;
                let r = self.input_handler.handle_mouse_event(input, &mut v.visual, &mut self.global_interaction, node_positions);
                self.views.insert(view_id.as_str(), v);
                proof {
                    assert(old(self).view_map().remove(view_id@).insert(view_id@, v) =~= old(self).view_map().insert(view_id@, v));
                    assert(v.visual_state() == v.visual);
                    assert(d.modifiers() == modifiers);
                }
                Some(r)
            },
        }
    }
}

} // verus!
