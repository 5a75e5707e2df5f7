//! The operator stack and the input dispatcher: which operator receives an
//! event, and which one takes over after it.
use vstd::prelude::*;
use crate::drag::GlobalInteractionState;
use crate::event::{KeyModifiers, MouseButton, MouseEventKind};
use crate::ids::{NodeId, NodePosition, SocketId};
use crate::operators::{
    drag_step, select_step, start_positions_ok, visual_same, ClickCandidate, NodeDragOperator,
    NodeSelectOperator, OperatorResult, PointerInput,
};
use crate::selection::ViewVisualState;

verus! {

/// The result of a plain gesture operator: releasing the left button
/// finishes it, pressing the right button cancels it, anything else continues.
pub open spec fn gesture_result(kind: MouseEventKind) -> OperatorResult {
    match kind {
        MouseEventKind::Up(MouseButton::Left) => OperatorResult::Finished,
        MouseEventKind::Down(MouseButton::Right) => OperatorResult::Cancelled,
        _ => OperatorResult::Continue,
    }
}

fn gesture(kind: MouseEventKind) -> (r: OperatorResult)
    ensures
        r == gesture_result(kind),
{
    match kind {
        MouseEventKind::Up(MouseButton::Left) => OperatorResult::Finished,
        MouseEventKind::Down(MouseButton::Right) => OperatorResult::Cancelled,
        _ => OperatorResult::Continue,
    }
}

/// A rubber-band selection started at a world point.
#[derive(Debug, Clone, Copy, PartialEq, Eq, Structural)]
pub struct BoxSelectOperator {
    pub start_mouse_world: NodePosition,
}

impl BoxSelectOperator {
    /// A box selection anchored at `start_mouse_world`.
    pub fn new(start_mouse_world: NodePosition) -> (op: Self)
        ensures
            op.start_mouse_world == start_mouse_world,
    {
        BoxSelectOperator { start_mouse_world }
    }

    /// Ends on left release, cancels on right press, continues otherwise.
    pub fn handle_event(&self, input: &PointerInput) -> (r: OperatorResult)
        ensures
            r == gesture_result(input.kind),
    {
        gesture(input.kind)
    }
}

/// A link being dragged out of a socket.
#[derive(Debug, Clone, Copy, PartialEq, Eq, Structural)]
pub struct LinkDragOperator {
    pub from_socket: SocketId,
}

impl LinkDragOperator {
    /// A link drag out of `from_socket`.
    pub fn new(from_socket: SocketId) -> (op: Self)
        ensures
            op.from_socket == from_socket,
    {
        LinkDragOperator { from_socket }
    }

    /// Ends on left release, cancels on right press, continues otherwise.
    pub fn handle_event(&self, input: &PointerInput) -> (r: OperatorResult)
        ensures
            r == gesture_result(input.kind),
    {
        gesture(input.kind)
    }
}

/// The operator that currently receives events.
#[derive(Debug, Clone)]
pub enum ActiveOperator {
    NodeSelect(NodeSelectOperator),
    NodeDrag(NodeDragOperator),
    BoxSelect(BoxSelectOperator),
    LinkDrag(LinkDragOperator),
}

/// `g` holds a drag of `ids` started at `mouse_world`, with zero delta and the
/// start positions found among `positions`.
pub open spec fn drag_started(
    g: GlobalInteractionState,
    ids: Seq<NodeId>,
    mouse_world: NodePosition,
    positions: Seq<(NodeId, NodePosition)>,
) -> bool {
    &&& g.node_drag is Some
    &&& g.node_drag->0.node_ids@ == ids
    &&& g.node_drag->0.start_mouse_world == mouse_world
    &&& g.node_drag->0.drag_delta == (NodePosition { x_bits: 0, y_bits: 0 })
    &&& start_positions_ok(g.node_drag->0.start_positions@, ids, positions)
}

/// The operator `op` as it is once entered: a selection operator forgets its pending click.
pub open spec fn entered(op: ActiveOperator) -> ActiveOperator {
    match op {
        ActiveOperator::NodeSelect(_) => ActiveOperator::NodeSelect(NodeSelectOperator { click: None }),
        _ => op,
    }
}

/// The shared state after leaving `op`: leaving a drag ends it.
pub open spec fn exited(op: Option<ActiveOperator>, g: GlobalInteractionState, g_after: GlobalInteractionState) -> bool {
    match op {
        Some(ActiveOperator::NodeDrag(_)) => g_after.node_drag is None,
        _ => g_after == g,
    }
}

/// The shared state after entering `op`: entering a drag starts it.
pub open spec fn entered_global(
    op: ActiveOperator,
    mouse_world: NodePosition,
    positions: Seq<(NodeId, NodePosition)>,
    g: GlobalInteractionState,
    g_after: GlobalInteractionState,
) -> bool {
    match op {
        ActiveOperator::NodeDrag(d) => drag_started(g_after, d.dragged(), mouse_world, positions),
        _ => g_after == g,
    }
}

/// One event handled by the stack: the active operator (if any) takes a step;
/// if its result is not `Continue` it is left and the stack becomes empty.
pub open spec fn stack_step(
    active: Option<ActiveOperator>,
    input: PointerInput,
    shift: bool,
    vis_b: ViewVisualState,
    vis_a: ViewVisualState,
    g_b: GlobalInteractionState,
    g_a: GlobalInteractionState,
    r: OperatorResult,
    active_after: Option<ActiveOperator>,
) -> bool {
    match active {
        None => {
            &&& r == OperatorResult::Continue
            &&& active_after is None
            &&& visual_same(vis_a, vis_b)
            &&& g_a == g_b
        },
        Some(ActiveOperator::NodeSelect(op)) => {
            &&& g_a == g_b
            &&& if r == OperatorResult::Continue {
                active_after matches Some(ActiveOperator::NodeSelect(o)) && select_step(op, input, shift, vis_b, o, vis_a, r)
            } else {
                &&& active_after is None
                &&& exists|o: NodeSelectOperator| select_step(op, input, shift, vis_b, o, vis_a, r)
            }
        },
        Some(ActiveOperator::NodeDrag(op)) => {
            &&& visual_same(vis_a, vis_b)
            &&& if r == OperatorResult::Continue {
                &&& drag_step(input, g_b, g_a, r)
                &&& active_after == Some(ActiveOperator::NodeDrag(op))
            } else {
                &&& exists|g: GlobalInteractionState| drag_step(input, g_b, g, r)
                &&& active_after is None
                &&& g_a.node_drag is None
            }
        },
        Some(other) => {
            &&& r == gesture_result(input.kind)
            &&& visual_same(vis_a, vis_b)
            &&& g_a == g_b
            &&& if r == OperatorResult::Continue {
                active_after == Some(other)
            } else {
                active_after is None
            }
        },
    }
}

/// Holds the operator that receives events, if any.
pub struct OperatorStack {
    active: Option<ActiveOperator>,
}

impl OperatorStack {
    /// The operator that receives events.
    pub closed spec fn current(&self) -> Option<ActiveOperator> {
        self.active
    }

    /// An empty stack.
    pub fn new() -> (s: Self)
        ensures
            s.current() is None,
    {
        OperatorStack { active: None }
    }

    /// Whether an operator is active.
    pub fn has_active(&self) -> (r: bool)
        ensures
            r == self.current() is Some,
    {
        self.active.is_some()
    }

    /// Where the active selection operator's pending click started, if any.
    pub fn click_start(&self) -> (r: Option<NodePosition>)
        ensures
            r == (match self.current() {
                Some(ActiveOperator::NodeSelect(op)) => match op.click {
                    Some(c) => Some(c.start_mouse_world),
                    None => None,
                },
                _ => None,
            }),
    {
        match &self.active {
            Some(ActiveOperator::NodeSelect(op)) => op.click_start(),
            _ => None,
        }
    }

    fn exit_active(&mut self, global: &mut GlobalInteractionState)
        ensures
            final(self).current() is None,
            exited(old(self).current(), *old(global), *final(global)),
    {
        match self.active.take() {
            Some(ActiveOperator::NodeSelect(mut op)) => op.on_exit(),
            Some(ActiveOperator::NodeDrag(mut op)) => op.on_exit(global),
            _ => {},
        }
    }

    /// Leaves the active operator (if any), then enters `operator`, which becomes active.
    pub fn start(
        &mut self,
        operator: ActiveOperator,
        mouse_world: NodePosition,
        node_positions: &Vec<(NodeId, NodePosition)>,
        global: &mut GlobalInteractionState,
    )
        ensures
            final(self).current() == Some(entered(operator)),
            exists|g: GlobalInteractionState| {
                &&& exited(old(self).current(), *old(global), g)
                &&& entered_global(operator, mouse_world, node_positions@, g, *final(global))
            },
    {
        self.exit_active(global);
        let ghost g = *global;
        let entered_op = match operator {
            ActiveOperator::NodeSelect(mut op) => {
                op.on_enter();
                ActiveOperator::NodeSelect(op)
            },
            ActiveOperator::NodeDrag(mut op) => {
                op.on_enter(mouse_world, node_positions, global);
                ActiveOperator::NodeDrag(op)
            },
            other => other,
        };
        self.active = Some(entered_op);
        assert(entered_global(operator, mouse_world, node_positions@, g, *global));
    }

    /// Passes an event to the active operator; an operator that does not
    /// continue is left and removed.
    pub fn handle_event(
        &mut self,
        input: &PointerInput,
        shift: bool,
        visual: &mut ViewVisualState,
        global: &mut GlobalInteractionState,
    ) -> (r: OperatorResult)
        ensures
            stack_step(old(self).current(), *input, shift, *old(visual), *final(visual), *old(global), *final(global), r, final(self).current()),
            old(visual).wf() ==> final(visual).wf(),
    {
        match self.active.take() {
            None => OperatorResult::Continue,
            Some(ActiveOperator::NodeSelect(mut op)) => {
                let r = op.handle_event(input, shift, visual);
                let cont = match r {
                    OperatorResult::Continue => true,
                    _ => false,
                };
                if cont {
                    self.active = Some(ActiveOperator::NodeSelect(op));
                } else {
                    op.on_exit();
                }
                r
            },
            Some(ActiveOperator::NodeDrag(mut op)) => {
                let r = op.handle_event(input, global);
                let cont = match r {
                    OperatorResult::Continue => true,
                    _ => false,
                };
                if cont {
                    self.active = Some(ActiveOperator::NodeDrag(op));
                } else {
                    op.on_exit(global);
                }
                r
            },
            Some(ActiveOperator::BoxSelect(op)) => {
                let r = op.handle_event(input);
                let cont = match r {
                    OperatorResult::Continue => true,
                    _ => false,
                };
                if cont {
                    self.active = Some(ActiveOperator::BoxSelect(op));
                }
                r
            },
            Some(ActiveOperator::LinkDrag(op)) => {
                let r = op.handle_event(input);
                let cont = match r {
                    OperatorResult::Continue => true,
                    _ => false,
                };
                if cont {
                    self.active = Some(ActiveOperator::LinkDrag(op));
                }
                r
            },
        }
    }

    /// Leaves the active operator, if any.
    pub fn clear(&mut self, global: &mut GlobalInteractionState)
        ensures
            final(self).current() is None,
            exited(old(self).current(), *old(global), *final(global)),
    {
        self.exit_active(global);
    }
}

/// The operator that receives the event: the active one, or a fresh
/// selection operator when none is active.
pub open spec fn receiving(active: Option<ActiveOperator>) -> Option<ActiveOperator> {
    match active {
        None => Some(ActiveOperator::NodeSelect(NodeSelectOperator { click: None })),
        Some(op) => Some(op),
    }
}

/// What becomes active after the receiving operator reported `r`, given the
/// stack `mid` it left and the shared state `g` after its step: the same
/// operator on `Continue`; a fresh selection operator when it finished or was
/// cancelled; a drag of the reported nodes, a box selection at the pointer, or
/// a link drag from the reported socket when it handed over.
pub open spec fn takes_over(
    r: OperatorResult,
    input: PointerInput,
    positions: Seq<(NodeId, NodePosition)>,
    mid: Option<ActiveOperator>,
    g: GlobalInteractionState,
    active_after: Option<ActiveOperator>,
    g_after: GlobalInteractionState,
) -> bool {
    match r {
        OperatorResult::Continue => active_after == mid && g_after == g,
        OperatorResult::Finished | OperatorResult::Cancelled => {
            &&& active_after == Some(ActiveOperator::NodeSelect(NodeSelectOperator { click: None }))
            &&& g_after == g
        },
        OperatorResult::StartDragNodes { node_ids } => {
            &&& active_after matches Some(ActiveOperator::NodeDrag(d)) && d.dragged() == node_ids@
            &&& drag_started(g_after, node_ids@, input.mouse_world, positions)
        },
        OperatorResult::StartBoxSelect => {
            &&& active_after == Some(ActiveOperator::BoxSelect(BoxSelectOperator { start_mouse_world: input.mouse_world }))
            &&& g_after == g
        },
        OperatorResult::StartLinkDrag { from_socket } => {
            &&& active_after == Some(ActiveOperator::LinkDrag(LinkDragOperator { from_socket }))
            &&& g_after == g
        },
    }
}

/// A node drag is in progress exactly when the drag operator is active.
pub open spec fn drag_consistent(active: Option<ActiveOperator>, g: GlobalInteractionState) -> bool {
    match active {
        Some(ActiveOperator::NodeDrag(_)) => g.node_drag is Some,
        _ => g.node_drag is None,
    }
}

/// Routes pointer events to the operator stack and starts the operator that
/// takes over when one ends or hands over.
pub struct InputDispatcher {
    modifiers: KeyModifiers,
    operator_stack: OperatorStack,
    operator_just_finished: bool,
}

impl InputDispatcher {
    /// The modifiers held.
    pub closed spec fn modifiers(&self) -> KeyModifiers {
        self.modifiers
    }

    /// The operator that receives events.
    pub closed spec fn current(&self) -> Option<ActiveOperator> {
        self.operator_stack.current()
    }

    /// Whether the last event ended or handed over an operator.
    pub closed spec fn just_finished(&self) -> bool {
        self.operator_just_finished
    }

    /// A dispatcher with no operator, no modifier and no finished operator.
    pub fn new() -> (d: Self)
        ensures
            d.current() is None,
            !d.just_finished(),
            d.modifiers() == (KeyModifiers { shift: false, ctrl: false, alt: false }),
    {
        InputDispatcher {
            modifiers: KeyModifiers { shift: false, ctrl: false, alt: false },
            operator_stack: OperatorStack::new(),
            operator_just_finished: false,
        }
    }

    /// Records the modifiers held.
    pub fn set_modifiers(&mut self, modifiers: KeyModifiers)
        ensures
            final(self).modifiers() == modifiers,
            final(self).current() == old(self).current(),
            final(self).just_finished() == old(self).just_finished(),
    {
        self.modifiers = modifiers;
    }

    /// Where the pending click of the active selection operator started, if any.
    pub fn click_start(&self) -> (r: Option<NodePosition>)
        ensures
            r == (match self.current() {
                Some(ActiveOperator::NodeSelect(op)) => match op.click {
                    Some(c) => Some(c.start_mouse_world),
                    None => None,
                },
                _ => None,
            }),
    {
        self.operator_stack.click_start()
    }

    /// Handles one pointer event: the receiving operator takes a step, the
    /// "just finished" flag records whether it ended or handed over, and the
    /// operator that takes over is started.
    pub fn handle_mouse_event(
        &mut self,
        input: &PointerInput,
        visual: &mut ViewVisualState,
        global: &mut GlobalInteractionState,
        node_positions: &Vec<(NodeId, NodePosition)>,
    ) -> (r: OperatorResult)
        ensures
            dispatch_step(*old(self), *final(self), *input, *old(visual), *final(visual), *old(global), *final(global), node_positions@, r),
            old(visual).wf() ==> final(visual).wf(),
            final(self).current() is Some,
            drag_consistent(old(self).current(), *old(global)) ==> drag_consistent(final(self).current(), *final(global)),
    {
        if !self.operator_stack.has_active() {
            self.operator_stack.start(
                ActiveOperator::NodeSelect(NodeSelectOperator::new()),
                input.mouse_world,
                node_positions,
                global,
            );
        }
        let ghost g0 = *global;
        assert(g0 == *old(global));
        let r = self.operator_stack.handle_event(input, self.modifiers.shift, visual, global);
        let ghost mid = self.operator_stack.current();
        let ghost g = *global;
        self.operator_just_finished = false;
        match &r {
            OperatorResult::Continue => {},
            OperatorResult::Finished => {
                self.operator_just_finished = true;
                self.operator_stack.start(
                    ActiveOperator::NodeSelect(NodeSelectOperator::new()),
                    input.mouse_world,
                    node_positions,
                    global,
                );
            },
            OperatorResult::Cancelled => {
                self.operator_just_finished = true;
                self.operator_stack.start(
                    ActiveOperator::NodeSelect(NodeSelectOperator::new()),
                    input.mouse_world,
                    node_positions,
                    global,
                );
            },
            OperatorResult::StartDragNodes { node_ids } => {
                self.operator_just_finished = true;
                self.operator_stack.start(
                    ActiveOperator::NodeDrag(NodeDragOperator::new(node_ids.clone())),
                    input.mouse_world,
                    node_positions,
                    global,
                );
            },
            OperatorResult::StartBoxSelect => {
                self.operator_just_finished = true;
                self.operator_stack.start(
                    ActiveOperator::BoxSelect(BoxSelectOperator::new(input.mouse_world)),
                    input.mouse_world,
                    node_positions,
                    global,
                );
            },
            OperatorResult::StartLinkDrag { from_socket } => {
                self.operator_just_finished = true;
                self.operator_stack.start(
                    ActiveOperator::LinkDrag(LinkDragOperator::new(*from_socket)),
                    input.mouse_world,
                    node_positions,
                    global,
                );
            },
        }
        assert(takes_over(r, *input, node_positions@, mid, g, self.current(), *global));
        r
    }

    /// Whether an operator is active.
    pub fn has_active_operator(&self) -> (r: bool)
        ensures
            r == self.current() is Some,
    {
        self.operator_stack.has_active()
    }

    /// Whether the last event ended or handed over an operator.
    pub fn operator_just_finished(&self) -> (r: bool)
        ensures
            r == self.just_finished(),
    {
        self.operator_just_finished
    }

    /// Forgets that an operator just finished.
    pub fn clear_operator_finished_flag(&mut self)
        ensures
            !final(self).just_finished(),
            final(self).current() == old(self).current(),
            final(self).modifiers() == old(self).modifiers(),
    {
        self.operator_just_finished = false;
    }
}

/// One event handled by the dispatcher `before`, becoming `after`: the
/// receiving operator takes a step (`stack_step`), the "just finished" flag
/// records whether it ended or handed over, and the operator that takes over
/// is started (`takes_over`). The modifiers are kept.
pub open spec fn dispatch_step(
    before: InputDispatcher,
    after: InputDispatcher,
    input: PointerInput,
    vis_b: ViewVisualState,
    vis_a: ViewVisualState,
    g_b: GlobalInteractionState,
    g_a: GlobalInteractionState,
    positions: Seq<(NodeId, NodePosition)>,
    r: OperatorResult,
) -> bool {
    &&& after.modifiers() == before.modifiers()
    &&& after.just_finished() == (r != OperatorResult::Continue)
    &&& exists|mid: Option<ActiveOperator>, g: GlobalInteractionState| {
        &&& stack_step(receiving(before.current()), input, before.modifiers().shift, vis_b, vis_a, g_b, g, r, mid)
        &&& takes_over(r, input, positions, mid, g, after.current(), g_a)
    }
}

/// What follows an operator's result: on `Continue` the same operator keeps
/// receiving events; an operator that finished or was cancelled gives way to a
/// fresh selection operator; a requested node drag starts with exactly the
/// requested nodes, at the pointer, with a zero offset; a box selection starts
/// at the pointer; a link drag starts from the requested socket. The "just
/// finished" flag is set exactly when the result is not `Continue`, and the
/// modifiers are kept.
pub proof fn lemma_dispatch_hands_over(
    before: InputDispatcher,
    after: InputDispatcher,
    input: PointerInput,
    vis_b: ViewVisualState,
    vis_a: ViewVisualState,
    g_b: GlobalInteractionState,
    g_a: GlobalInteractionState,
    positions: Seq<(NodeId, NodePosition)>,
    r: OperatorResult,
)
    requires
        dispatch_step(before, after, input, vis_b, vis_a, g_b, g_a, positions, r),
    ensures
        after.just_finished() == (r != OperatorResult::Continue),
        after.modifiers() == before.modifiers(),
        after.current() is Some,
        (r == OperatorResult::Finished || r == OperatorResult::Cancelled)
            ==> after.current() == Some(ActiveOperator::NodeSelect(NodeSelectOperator { click: None })),
        r is StartDragNodes ==> {
            &&& after.current() matches Some(ActiveOperator::NodeDrag(d)) && d.dragged() == r->node_ids@
            &&& g_a.node_drag is Some
            &&& g_a.node_drag->0.node_ids@ == r->node_ids@
            &&& g_a.node_drag->0.start_mouse_world == input.mouse_world
            &&& g_a.node_drag->0.drag_delta == (NodePosition { x_bits: 0, y_bits: 0 })
        },
        r == OperatorResult::StartBoxSelect
            ==> after.current() == Some(ActiveOperator::BoxSelect(BoxSelectOperator { start_mouse_world: input.mouse_world })),
        r is StartLinkDrag
            ==> after.current() == Some(ActiveOperator::LinkDrag(LinkDragOperator { from_socket: r->from_socket })),
{
    let (mid, g) = choose|mid: Option<ActiveOperator>, g: GlobalInteractionState| {
        &&& stack_step(receiving(before.current()), input, before.modifiers().shift, vis_b, vis_a, g_b, g, r, mid)
        &&& takes_over(r, input, positions, mid, g, after.current(), g_a)
    };
    if r == OperatorResult::Continue {
        assert(receiving(before.current()) is Some);
    }
}

} // verus!
