//! Redraw scheduling: which views need drawing, and what each frame draws.
use vstd::prelude::*;
use crate::registry::{GpuViewRegistry, GpuViewState};

verus! {

/// The names of the views, in order.
pub open spec fn names(s: Seq<String>) -> Seq<Seq<char>> {
    s.map_values(|x: String| x@)
}

/// Whether some element of `v` is named `name`.
fn position_of(v: &Vec<String>, name: &String) -> (r: Option<usize>)
    ensures
        r is None <==> !names(v@).contains(name@),
        r matches Some(i) ==> i < v@.len() && v@[i as int]@ == name@,
{
    let mut i: usize = 0;
    while i < v.len()
        invariant
            i <= v@.len(),
            forall|j: int| 0 <= j < i ==> v@[j]@ != name@,
        decreases v@.len() - i,
    {
        if v[i] == *name {
            assert(names(v@)[i as int] == name@);
            return Some(i);
        }
        i = i + 1;
    }
    proof {
        if names(v@).contains(name@) {
            let k = choose|k: int| 0 <= k < names(v@).len() && names(v@)[k] == name@;
            assert(v@[k]@ == name@);
        }
    }
    None
}

/// The views that need drawing, each once, in the order they were marked.
pub struct Scheduler {
    dirty: Vec<String>,
}

impl Scheduler {
    #[verifier::type_invariant]
    spec fn marked_once(&self) -> bool {
        names(self.dirty@).no_duplicates()
    }

    /// The names of the views that need drawing, in marking order.
    pub closed spec fn dirty_list(&self) -> Seq<Seq<char>> {
        names(self.dirty@)
    }

    /// A scheduler with no view to draw.
    pub fn new() -> (s: Self)
        ensures
            s.dirty_list().len() == 0,
    {
        Scheduler { dirty: Vec::new() }
    }

    /// Marks view `id` as needing a draw; a view already marked keeps its place.
    pub fn mark_dirty(&mut self, id: &str)
        ensures
            final(self).dirty_list() == marked(old(self).dirty_list(), id@),
    {
        proof {
            use_type_invariant(&*self);
        }
        let name = id.to_owned();
        match position_of(&self.dirty, &name) {
            Some(_) => {},
            None => {
                let ghost before = self.dirty@;
                let mut dirty = Vec::new();
                std::mem::swap(&mut dirty, &mut self.dirty);
                dirty.push(name);
                proof {
                    assert(names(dirty@) =~= names(before).push(id@));
                    assert forall|a: int, b: int| 0 <= a < dirty@.len() && 0 <= b < dirty@.len() && a != b
                        implies names(dirty@)[a] != names(dirty@)[b] by {
                        if a < before.len() && b < before.len() {
                            assert(names(dirty@)[a] == names(before)[a]);
                            assert(names(dirty@)[b] == names(before)[b]);
                        } else if a < before.len() {
                            assert(names(dirty@)[a] == names(before)[a]);
                        } else {
                            assert(names(dirty@)[b] == names(before)[b]);
                        }
                    }
                }
                self.dirty = dirty;
            },
        }
    }

    /// Marks view `id` as drawn.
    pub fn clear_dirty(&mut self, id: &str)
        ensures
            !final(self).dirty_list().contains(id@),
            forall|k: Seq<char>| k != id@ ==> (#[trigger] final(self).dirty_list().contains(k) == old(self).dirty_list().contains(k)),
    {
        proof {
            use_type_invariant(&*self);
        }
        let name = id.to_owned();
        match position_of(&self.dirty, &name) {
            None => {},
            Some(i) => {
                let ghost before = self.dirty@;
                let mut dirty = Vec::new();
                std::mem::swap(&mut dirty, &mut self.dirty);
                let _gone = dirty.remove(i);
                proof {
                    let nb = names(before);
                    let nd = names(dirty@);
                    assert(nd =~= nb.remove(i as int));
                    assert forall|a: int, b: int| 0 <= a < nd.len() && 0 <= b < nd.len() && a != b implies nd[a] != nd[b] by {
                        let sa = if a < i { a } else { a + 1 };
                        let sb = if b < i { b } else { b + 1 };
                        assert(nd[a] == nb[sa]);
                        assert(nd[b] == nb[sb]);
                    }
                    assert forall|k: Seq<char>| #![trigger nd.contains(k)] (k == id@ ==> !nd.contains(k))
                        && (k != id@ ==> nd.contains(k) == nb.contains(k)) by {
                        if nd.contains(k) {
                            let a = choose|a: int| 0 <= a < nd.len() && nd[a] == k;
                            let sa = if a < i { a } else { a + 1 };
                            assert(nb[sa] == k);
                            assert(nb[i as int] == id@);
                            assert(sa != i);
                        }
                        if k != id@ && nb.contains(k) {
                            let a = choose|a: int| 0 <= a < nb.len() && nb[a] == k;
                            assert(a != i);
                            let ta = if a < i { a } else { a - 1 };
                            assert(nd[ta] == k);
                        }
                    }
                }
                self.dirty = dirty;
            },
        }
    }

    /// Whether view `id` needs a draw.
    pub fn is_dirty(&self, id: &str) -> (r: bool)
        ensures
            r == self.dirty_list().contains(id@),
    {
        position_of(&self.dirty, &id.to_owned()).is_some()
    }

    /// The views that need a draw, in marking order.
    pub fn dirty_views(&self) -> (r: Vec<String>)
        ensures
            names(r@) == self.dirty_list(),
    {
        let mut r: Vec<String> = Vec::new();
        let mut i: usize = 0;
        while i < self.dirty.len()
            invariant
                i <= self.dirty@.len(),
                names(r@) == names(self.dirty@).subrange(0, i as int),
            decreases self.dirty@.len() - i,
        {
            let ghost prev = r@;
            let item = self.dirty[i].clone();
            assert(item@ == self.dirty@[i as int]@);
            r.push(item);
            proof {
                assert(r@ == prev.push(item));
                assert(names(prev).len() == prev.len());
                assert(names(self.dirty@).subrange(0, i as int).len() == i);
                assert(prev.len() == i);
                assert(names(r@).len() == r@.len());
                assert(names(r@).len() == i + 1);
                assert forall|j: int| 0 <= j < i + 1 implies names(r@)[j] == names(self.dirty@).subrange(0, i + 1)[j] by {
                    if j < i {
                        assert(names(r@)[j] == names(prev)[j]);
                    }
                }
                assert(names(r@) =~= names(self.dirty@).subrange(0, i + 1));
            }
            i = i + 1;
        }
        proof {
            assert(names(self.dirty@).subrange(0, i as int) =~= names(self.dirty@));
        }
        r
    }

    /// The number of views that need a draw.
    pub fn dirty_count(&self) -> (n: usize)
        ensures
            n == self.dirty_list().len(),
    {
        self.dirty.len()
    }
}

/// The dirty list after marking `id`.
pub open spec fn marked(l: Seq<Seq<char>>, id: Seq<char>) -> Seq<Seq<char>> {
    if l.contains(id) { l } else { l.push(id) }
}

/// Marking a view twice is the same as marking it once, and a marked view is dirty.
pub proof fn lemma_mark_idempotent(l: Seq<Seq<char>>, id: Seq<char>)
    ensures
        marked(l, id).contains(id),
        marked(marked(l, id), id) == marked(l, id),
{
    if !l.contains(id) {
        assert(l.push(id)[l.len() as int] == id);
    }
}

/// What one frame of the render loop does.
#[derive(Debug, Clone, Copy, PartialEq, Eq, Structural)]
pub enum TickAction {
    /// A modal operator is running: every view is redrawn, every frame.
    RenderAllViews,
    /// An operator just ended: every view is redrawn once, and the flag cleared.
    RenderAllViewsOnce,
    /// Only the views marked dirty are redrawn.
    RenderDirtyViews,
    /// Nothing to draw.
    Idle,
}

/// The frame's action: a modal operator redraws everything every frame; an
/// operator that just ended redraws everything once; otherwise only dirty
/// views, if there are any.
pub open spec fn tick_action_spec(modal_active: bool, operator_finished: bool, dirty_count: nat) -> TickAction {
    if modal_active {
        TickAction::RenderAllViews
    } else if operator_finished {
        TickAction::RenderAllViewsOnce
    } else if dirty_count > 0 {
        TickAction::RenderDirtyViews
    } else {
        TickAction::Idle
    }
}

/// A running modal operator redraws every view on every frame, whatever else
/// holds. Without one, an operator that just ended redraws every view, however
/// many views are dirty; it is answered by one full redraw only: once its flag
/// is cleared, a frame redraws everything again only for a modal operator, and
/// otherwise draws the dirty views exactly when there are some.
pub proof fn lemma_full_redraw_once(operator_finished: bool, dirty_count: nat)
    ensures
        tick_action_spec(true, operator_finished, dirty_count) == TickAction::RenderAllViews,
        tick_action_spec(false, true, dirty_count) == TickAction::RenderAllViewsOnce,
        tick_action_spec(false, false, dirty_count) == TickAction::RenderDirtyViews <==> dirty_count > 0,
        tick_action_spec(false, false, dirty_count) != TickAction::RenderAllViewsOnce,
        tick_action_spec(false, false, dirty_count) != TickAction::RenderAllViews,
{
}

/// Decides what the current frame draws.
pub fn tick_action(modal_active: bool, operator_finished: bool, dirty_count: usize) -> (a: TickAction)
    ensures
        a == tick_action_spec(modal_active, operator_finished, dirty_count as nat),
{
    if modal_active {
        TickAction::RenderAllViews
    } else if operator_finished {
        TickAction::RenderAllViewsOnce
    } else if dirty_count > 0 {
        TickAction::RenderDirtyViews
    } else {
        TickAction::Idle
    }
}

/// The view named `k` can be drawn: it is registered, attached and visible.
pub open spec fn drawable<R>(views: Map<Seq<char>, GpuViewState<R>>, k: Seq<char>) -> bool {
    &&& views.contains_key(k)
    &&& views[k].attached
    &&& views[k].visible
}

/// The dirty views that can be drawn now, in marking order.
pub fn views_to_render<R>(scheduler: &Scheduler, registry: &GpuViewRegistry<R>) -> (r: Vec<String>)
    ensures
        names(r@) == scheduler.dirty_list().filter(|k: Seq<char>| drawable(registry.views(), k)),
{
    let dirty = scheduler.dirty_views();
    let ghost d = names(dirty@);
    let ghost pred = |k: Seq<char>| drawable(registry.views(), k);
    let mut r: Vec<String> = Vec::new();
    let mut i: usize = 0;
    while i < dirty.len()
        invariant
            i <= dirty@.len(),
            d == names(dirty@),
            pred == (|k: Seq<char>| drawable(registry.views(), k)),
            names(r@) == d.subrange(0, i as int).filter(pred),
        decreases dirty@.len() - i,
    {
        let take = match registry.get(dirty[i].as_str()) {
            Some(st) => st.attached && st.visible,
            None => false,
        };
        proof {
            reveal_with_fuel(Seq::<_>::filter, 1);
            assert(d.subrange(0, i + 1).drop_last() =~= d.subrange(0, i as int));
            assert(d.subrange(0, i + 1).last() == d[i as int]);
        }
        if take {
            r.push(dirty[i].clone());
            proof {
                assert(names(r@) =~= names(r@).drop_last().push(dirty@[i as int]@));
            }
        }
        proof {
            assert(names(r@) =~= d.subrange(0, i + 1).filter(pred));
        }
        i = i + 1;
    }
    proof {
        assert(d.subrange(0, i as int) =~= d);
    }
    r
}

/// A view is drawn in a frame of dirty views exactly when it is dirty,
/// registered, attached and visible; the views drawn are never more than the
/// dirty ones.
pub proof fn lemma_render_only_drawable<R>(dirty: Seq<Seq<char>>, views: Map<Seq<char>, GpuViewState<R>>, k: Seq<char>)
    ensures
        dirty.filter(|v: Seq<char>| drawable(views, v)).contains(k)
            <==> (dirty.contains(k) && views.contains_key(k) && views[k].attached && views[k].visible),
        dirty.filter(|v: Seq<char>| drawable(views, v)).len() <= dirty.len(),
{
    let pred = |v: Seq<char>| drawable(views, v);
    dirty.filter_lemma(pred);
    if dirty.filter(pred).contains(k) {
        dirty.lemma_filter_contains_rev(pred, k);
        let j = choose|j: int| 0 <= j < dirty.filter(pred).len() && dirty.filter(pred)[j] == k;
        assert(pred(dirty.filter(pred)[j]));
    }
    if dirty.contains(k) && drawable(views, k) {
        let i = choose|i: int| 0 <= i < dirty.len() && dirty[i] == k;
        assert(pred(dirty[i]));
    }
}

} // verus!
