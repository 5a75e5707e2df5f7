//! The editor runtime: GPU context, GPU-side view registry, redraw
//! scheduler and engine, and the requests the embedding makes of them. `G` is
//! the GPU context, `R` the GPU resources of an attached view, `D` the document.
use vstd::prelude::*;
use crate::adapter::DocumentAdapter;
use crate::engine::{EditorEngine, ViewId};
use crate::errors::RuntimeError;
use crate::registry::{GpuViewRegistry, GpuViewState};
use crate::scheduler::{tick_action_spec, tick_action, views_to_render, Scheduler, TickAction, drawable, names};

verus! {

/// The runtime of one editor instance.
pub struct EditorRuntime<G, R, D> {
    gpu: Option<G>,
    gpu_views: GpuViewRegistry<R>,
    scheduler: Scheduler,
    engine: EditorEngine<D>,
}

impl<G, R, D: DocumentAdapter> EditorRuntime<G, R, D> {
    /// The GPU context, once initialized.
    pub closed spec fn gpu_context(&self) -> Option<G> {
        self.gpu
    }

    /// The GPU-side views by name.
    pub closed spec fn gpu_view_map(&self) -> Map<Seq<char>, GpuViewState<R>> {
        self.gpu_views.views()
    }

    /// The scheduler.
    pub closed spec fn scheduler_state(&self) -> Scheduler {
        self.scheduler
    }

    /// The engine.
    pub closed spec fn engine_state(&self) -> EditorEngine<D> {
        self.engine
    }

    /// A runtime over `document` with no GPU, no views and nothing to draw.
    pub fn new(document: D) -> (rt: Self)
        ensures
            rt.gpu_context() is None,
            rt.gpu_view_map() == Map::<Seq<char>, GpuViewState<R>>::empty(),
            rt.scheduler_state().dirty_list().len() == 0,
            rt.engine_state().view_map() == Map::<Seq<char>, crate::engine::EditorView>::empty(),
            rt.engine_state().doc() == document,
    {
        EditorRuntime {
            gpu: None,
            gpu_views: GpuViewRegistry::new(),
            scheduler: Scheduler::new(),
            engine: EditorEngine::new(document),
        }
    }

    /// The GPU context, once initialized.
    pub fn gpu(&self) -> (r: Option<&G>)
        ensures
            r is None <==> self.gpu_context() is None,
            r matches Some(g) ==> *g == self.gpu_context()->0,
    {
        self.gpu.as_ref()
    }

    /// The GPU-side view registry.
    pub fn gpu_views(&self) -> (r: &GpuViewRegistry<R>)
        ensures
            r.views() == self.gpu_view_map(),
    {
        &self.gpu_views
    }

    /// The scheduler.
    pub fn scheduler(&self) -> (r: &Scheduler)
        ensures
            *r == self.scheduler_state(),
    {
        &self.scheduler
    }

    /// The engine.
    pub fn engine(&self) -> (r: &EditorEngine<D>)
        ensures
            *r == self.engine_state(),
    {
        &self.engine
    }

    /// The engine, for changes.
    pub fn engine_mut(&mut self) -> (r: &mut EditorEngine<D>)
        ensures
            *r == old(self).engine_state(),
            final(self).engine_state() == *final(r),
            final(self).gpu_context() == old(self).gpu_context(),
            final(self).gpu_view_map() == old(self).gpu_view_map(),
            final(self).scheduler_state() == old(self).scheduler_state(),
    {
        &mut self.engine
    }

    /// Engine start-up; nothing can fail.
    pub fn init_engine(&mut self) -> (r: Result<(), RuntimeError>)
        ensures
            r is Ok,
            *final(self) == *old(self),
    {
        Ok(())
    }

    /// Installs the GPU context; a context already installed is kept.
    pub fn init_gpu(&mut self, gpu: G) -> (r: Result<(), RuntimeError>)
        ensures
            r is Ok,
            final(self).gpu_context() == (if old(self).gpu_context() is Some { old(self).gpu_context() } else { Some(gpu) }),
            final(self).gpu_view_map() == old(self).gpu_view_map(),
            final(self).scheduler_state() == old(self).scheduler_state(),
            final(self).engine_state() == old(self).engine_state(),
    {
        if self.gpu.is_some() {
            return Ok(());
        }
        self.gpu = Some(gpu);
        Ok(())
    }

    /// Creates view `id` in the GPU registry and in the engine; fails, changing
    /// nothing, when the registry already has it.
    pub fn create_view(&mut self, id: &str) -> (r: Result<(), RuntimeError>)
        ensures
            old(self).gpu_view_map().contains_key(id@) ==> {
                &&& r matches Err(RuntimeError::ViewAlreadyExists(n)) && n@ == id@
                &&& final(self).gpu_view_map() == old(self).gpu_view_map()
                &&& final(self).engine_state().view_map() == old(self).engine_state().view_map()
            },
            !old(self).gpu_view_map().contains_key(id@) ==> {
                &&& r is Ok
                &&& final(self).gpu_view_map() == old(self).gpu_view_map().insert(id@, crate::registry::fresh_state::<R>())
                &&& final(self).engine_state().view_map().contains_key(id@)
                &&& final(self).engine_state().view_map().remove(id@) == old(self).engine_state().view_map().remove(id@)
            },
            final(self).gpu_context() == old(self).gpu_context(),
            final(self).scheduler_state() == old(self).scheduler_state(),
            final(self).engine_state().global_state() == old(self).engine_state().global_state(),
            final(self).engine_state().dispatcher() == old(self).engine_state().dispatcher(),
            final(self).engine_state().doc() == old(self).engine_state().doc(),
    {
        match self.gpu_views.create_view(id) {
            Err(e) => Err(e),
            Ok(()) => {
                let ghost before = self.engine.view_map();
                self.engine.create_view(ViewId::new(id.to_owned()));
                proof {
                    let after = self.engine.view_map();
                    assert(after.remove(id@) =~= before.remove(id@)) by {
                        assert(after == before.insert(id@, after[id@]));
                    }
                }
                Ok(())
            },
        }
    }

    /// Destroys view `id` in the GPU registry and in the engine; fails,
    /// changing nothing, when the registry does not have it.
    pub fn destroy_view(&mut self, id: &str) -> (r: Result<(), RuntimeError>)
        ensures
            old(self).gpu_view_map().contains_key(id@) ==> {
                &&& r is Ok
                &&& final(self).gpu_view_map() == old(self).gpu_view_map().remove(id@)
                &&& final(self).engine_state().view_map() == old(self).engine_state().view_map().remove(id@)
            },
            !old(self).gpu_view_map().contains_key(id@) ==> {
                &&& r matches Err(RuntimeError::ViewNotFound(n)) && n@ == id@
                &&& final(self).gpu_view_map() == old(self).gpu_view_map()
                &&& final(self).engine_state().view_map() == old(self).engine_state().view_map()
            },
            final(self).gpu_context() == old(self).gpu_context(),
            final(self).scheduler_state() == old(self).scheduler_state(),
    {
        match self.gpu_views.destroy_view(id) {
            Err(e) => Err(e),
            Ok(()) => {
                self.engine.destroy_view(&ViewId::new(id.to_owned()));
                Ok(())
            },
        }
    }

    /// Attaches GPU resources to view `id`, configured at `width` by `height`;
    /// fails without a GPU context, or when the registry does not have the view.
    pub fn attach_view(&mut self, id: &str, resources: R, width: u32, height: u32) -> (r: Result<(), RuntimeError>)
        ensures
            old(self).gpu_context() is None ==> {
                &&& r matches Err(RuntimeError::GpuNotInitialized)
                &&& final(self).gpu_view_map() == old(self).gpu_view_map()
            },
            old(self).gpu_context() is Some && !old(self).gpu_view_map().contains_key(id@) ==> {
                &&& r matches Err(RuntimeError::ViewNotFound(n)) && n@ == id@
                &&& final(self).gpu_view_map() == old(self).gpu_view_map()
            },
            old(self).gpu_context() is Some && old(self).gpu_view_map().contains_key(id@) ==> {
                &&& r is Ok
                &&& final(self).gpu_view_map() == old(self).gpu_view_map().insert(id@, GpuViewState {
                    visible: old(self).gpu_view_map()[id@].visible,
                    attached: true,
                    config_size: Some((width, height)),
                    resources: Some(resources),
                })
            },
            final(self).gpu_context() == old(self).gpu_context(),
            final(self).scheduler_state() == old(self).scheduler_state(),
            final(self).engine_state() == old(self).engine_state(),
    {
        if self.gpu.is_none() {
            return Err(RuntimeError::GpuNotInitialized);
        }
        self.gpu_views.attach_view(id, resources, width, height)
    }

    /// Detaches view `id`; fails when the registry does not have it.
    pub fn detach_view(&mut self, id: &str) -> (r: Result<(), RuntimeError>)
        ensures
            old(self).gpu_view_map().contains_key(id@) ==> {
                &&& r is Ok
                &&& final(self).gpu_view_map() == old(self).gpu_view_map().insert(id@, GpuViewState {
                    visible: old(self).gpu_view_map()[id@].visible,
                    attached: false,
                    config_size: None,
                    resources: None,
                })
            },
            !old(self).gpu_view_map().contains_key(id@) ==> {
                &&& r matches Err(RuntimeError::ViewNotFound(n)) && n@ == id@
                &&& final(self).gpu_view_map() == old(self).gpu_view_map()
            },
            final(self).gpu_context() == old(self).gpu_context(),
            final(self).scheduler_state() == old(self).scheduler_state(),
            final(self).engine_state() == old(self).engine_state(),
    {
        self.gpu_views.detach_view(id)
    }

    /// Records the new surface size of view `id`; fails without a GPU context,
    /// or when the registry does not have the view.
    pub fn resize_view(&mut self, id: &str, width: u32, height: u32) -> (r: Result<(), RuntimeError>)
        ensures
            old(self).gpu_context() is None ==> {
                &&& r matches Err(RuntimeError::GpuNotInitialized)
                &&& final(self).gpu_view_map() == old(self).gpu_view_map()
            },
            old(self).gpu_context() is Some && !old(self).gpu_view_map().contains_key(id@) ==> {
                &&& r matches Err(RuntimeError::ViewNotFound(n)) && n@ == id@
                &&& final(self).gpu_view_map() == old(self).gpu_view_map()
            },
            old(self).gpu_context() is Some && old(self).gpu_view_map().contains_key(id@) ==> {
                let st = old(self).gpu_view_map()[id@];
                &&& r is Ok
                &&& if st.attached && st.config_size is Some && st.resources is Some {
                    final(self).gpu_view_map() == old(self).gpu_view_map().insert(id@, GpuViewState {
                        config_size: Some((width, height)),
                        ..st
                    })
                } else {
                    final(self).gpu_view_map() == old(self).gpu_view_map()
                }
            },
            final(self).gpu_context() == old(self).gpu_context(),
            final(self).scheduler_state() == old(self).scheduler_state(),
            final(self).engine_state() == old(self).engine_state(),
    {
        if self.gpu.is_none() {
            return Err(RuntimeError::GpuNotInitialized);
        }
        self.gpu_views.resize_view(id, width, height)
    }

    /// Places the camera of view `id`; fails when the engine has no such view.
    pub fn set_view_camera(&mut self, id: &str, x_bits: u32, y_bits: u32, zoom_bits: u32) -> (r: Result<(), RuntimeError>)
        ensures
            old(self).engine_state().view_map().contains_key(id@) ==> {
                let v = final(self).engine_state().view_map()[id@];
                let w = old(self).engine_state().view_map()[id@];
                &&& r is Ok
                &&& final(self).engine_state().view_map() == old(self).engine_state().view_map().insert(id@, v)
                &&& v.camera_pan() == (crate::ids::NodePosition { x_bits, y_bits })
                &&& v.camera_zoom() == zoom_bits
                &&& v.css_size() == w.css_size()
                &&& v.backing_size() == w.backing_size()
                &&& v.scale() == w.scale()
                &&& v.visual_state() == w.visual_state()
            },
            !old(self).engine_state().view_map().contains_key(id@) ==> {
                &&& r matches Err(RuntimeError::ViewNotFound(n)) && n@ == id@
                &&& final(self).engine_state().view_map() == old(self).engine_state().view_map()
            },
            final(self).gpu_context() == old(self).gpu_context(),
            final(self).gpu_view_map() == old(self).gpu_view_map(),
            final(self).scheduler_state() == old(self).scheduler_state(),
            final(self).engine_state().global_state() == old(self).engine_state().global_state(),
            final(self).engine_state().dispatcher() == old(self).engine_state().dispatcher(),
    {
        let view_id = ViewId::new(id.to_owned());
        if !self.engine.has_view(&view_id) {
            return Err(RuntimeError::ViewNotFound(id.to_owned()));
        }
        self.engine.set_view_camera(&view_id, x_bits, y_bits, zoom_bits);
        Ok(())
    }

    /// Puts the camera of view `id` back at the origin with zoom 1 and asks for
    /// a redraw; fails, changing nothing, when the engine has no such view.
    pub fn reset_view(&mut self, id: &str) -> (r: Result<(), RuntimeError>)
        ensures
            old(self).engine_state().view_map().contains_key(id@) ==> {
                let v = final(self).engine_state().view_map()[id@];
                let w = old(self).engine_state().view_map()[id@];
                &&& r is Ok
                &&& final(self).engine_state().view_map() == old(self).engine_state().view_map().insert(id@, v)
                &&& v.camera_pan() == (crate::ids::NodePosition { x_bits: 0, y_bits: 0 })
                &&& v.camera_zoom() == crate::engine::ONE_BITS
                &&& v.css_size() == w.css_size()
                &&& v.backing_size() == w.backing_size()
                &&& v.scale() == w.scale()
                &&& v.visual_state() == w.visual_state()
                &&& final(self).scheduler_state().dirty_list().contains(id@)
            },
            !old(self).engine_state().view_map().contains_key(id@) ==> {
                &&& r matches Err(RuntimeError::ViewNotFound(n)) && n@ == id@
                &&& final(self).engine_state().view_map() == old(self).engine_state().view_map()
                &&& final(self).scheduler_state() == old(self).scheduler_state()
            },
            final(self).gpu_context() == old(self).gpu_context(),
            final(self).gpu_view_map() == old(self).gpu_view_map(),
    {
        match self.set_view_camera(id, 0, 0, crate::engine::ONE_BITS) {
            Err(e) => Err(e),
            Ok(()) => {
                self.scheduler.mark_dirty(id);
                proof {
                    let l = self.scheduler.dirty_list();
                    if !old(self).scheduler_state().dirty_list().contains(id@) {
                        assert(l[l.len() - 1] == id@);
                    }
                }
                Ok(())
            },
        }
    }

    /// Asks for view `id` to be drawn.
    pub fn request_render(&mut self, id: &str) -> (r: Result<(), RuntimeError>)
        ensures
            r is Ok,
            final(self).scheduler_state().dirty_list() == (if old(self).scheduler_state().dirty_list().contains(id@) {
                old(self).scheduler_state().dirty_list()
            } else {
                old(self).scheduler_state().dirty_list().push(id@)
            }),
            final(self).gpu_context() == old(self).gpu_context(),
            final(self).gpu_view_map() == old(self).gpu_view_map(),
            final(self).engine_state() == old(self).engine_state(),
    {
        self.scheduler.mark_dirty(id);
        Ok(())
    }

    /// Shows or hides view `id`; fails when the registry does not have it.
    pub fn set_visible(&mut self, id: &str, visible: bool) -> (r: Result<(), RuntimeError>)
        ensures
            old(self).gpu_view_map().contains_key(id@) ==> {
                &&& r is Ok
                &&& final(self).gpu_view_map() == old(self).gpu_view_map().insert(id@, GpuViewState {
                    visible,
                    ..old(self).gpu_view_map()[id@]
                })
            },
            !old(self).gpu_view_map().contains_key(id@) ==> {
                &&& r matches Err(RuntimeError::ViewNotFound(n)) && n@ == id@
                &&& final(self).gpu_view_map() == old(self).gpu_view_map()
            },
            final(self).gpu_context() == old(self).gpu_context(),
            final(self).scheduler_state() == old(self).scheduler_state(),
            final(self).engine_state() == old(self).engine_state(),
    {
        self.gpu_views.set_visible(id, visible)
    }

    /// The dirty views to draw now: those attached and visible, in marking
    /// order. Fails without a GPU context.
    pub fn dirty_views_to_render(&self) -> (r: Result<Vec<String>, RuntimeError>)
        ensures
            self.gpu_context() is None ==> r matches Err(RuntimeError::GpuNotInitialized),
            self.gpu_context() is Some ==> (r matches Ok(ids) && names(ids@)
                == self.scheduler_state().dirty_list().filter(|k: Seq<char>| drawable(self.gpu_view_map(), k))),
    {
        if self.gpu.is_none() {
            return Err(RuntimeError::GpuNotInitialized);
        }
        Ok(views_to_render(&self.scheduler, &self.gpu_views))
    }

    /// Checks that view `id` can be drawn: a GPU context exists, the registry
    /// has the view, it holds its surface and renderers, and its surface is
    /// configured. The first check that fails gives the error.
    pub fn render_target_ready(&self, id: &str) -> (r: Result<(), RuntimeError>)
        ensures
            self.gpu_context() is None ==> r matches Err(RuntimeError::GpuNotInitialized),
            self.gpu_context() is Some && !self.gpu_view_map().contains_key(id@) ==> (r matches Err(RuntimeError::ViewNotFound(n)) && n@ == id@),
            self.gpu_context() is Some && self.gpu_view_map().contains_key(id@) ==> {
                let st = self.gpu_view_map()[id@];
                &&& st.resources is None ==> (r matches Err(RuntimeError::InvalidState(m)) && m@ == "Surface not available"@)
                &&& st.resources is Some && st.config_size is None ==> (r matches Err(RuntimeError::InvalidState(m)) && m@ == "Surface not configured"@)
                &&& st.resources is Some && st.config_size is Some ==> r is Ok
            },
    {
        if self.gpu.is_none() {
            return Err(RuntimeError::GpuNotInitialized);
        }
        match self.gpu_views.get(id) {
            None => Err(RuntimeError::ViewNotFound(id.to_owned())),
            Some(st) => {
                if st.resources.is_none() {
                    Err(RuntimeError::InvalidState("Surface not available".to_owned()))
                } else if st.config_size.is_none() {
                    Err(RuntimeError::InvalidState("Surface not configured".to_owned()))
                } else {
                    Ok(())
                }
            },
        }
    }

    /// Records that view `id` was drawn.
    pub fn mark_rendered(&mut self, id: &str)
        ensures
            !final(self).scheduler_state().dirty_list().contains(id@),
            forall|k: Seq<char>| k != id@ ==> (#[trigger] final(self).scheduler_state().dirty_list().contains(k)
                == old(self).scheduler_state().dirty_list().contains(k)),
            final(self).gpu_context() == old(self).gpu_context(),
            final(self).gpu_view_map() == old(self).gpu_view_map(),
            final(self).engine_state() == old(self).engine_state(),
    {
        self.scheduler.clear_dirty(id);
    }

    /// Marks every registered view as needing a draw (after a document change).
    pub fn mark_all_dirty(&mut self)
        ensures
            forall|k: Seq<char>| #[trigger] final(self).scheduler_state().dirty_list().contains(k)
                == (old(self).scheduler_state().dirty_list().contains(k) || old(self).gpu_view_map().contains_key(k)),
            final(self).gpu_context() == old(self).gpu_context(),
            final(self).gpu_view_map() == old(self).gpu_view_map(),
            final(self).engine_state() == old(self).engine_state(),
    {
        let ids = self.gpu_views.all_view_ids();
        let ghost start = self.scheduler.dirty_list();
        let mut i: usize = 0;
        while i < ids.len()
            invariant
                i <= ids@.len(),
                self.gpu_views == old(self).gpu_views,
                self.gpu == old(self).gpu,
                self.engine == old(self).engine,
                start == old(self).scheduler_state().dirty_list(),
                forall|k: Seq<char>| #[trigger] self.scheduler.dirty_list().contains(k)
                    == (start.contains(k) || exists|j: int| 0 <= j < i && ids@[j]@ == k),
            decreases ids@.len() - i,
        {
            let ghost before = self.scheduler.dirty_list();
            self.scheduler.mark_dirty(ids[i].as_str());
            proof {
                assert forall|k: Seq<char>| #[trigger] self.scheduler.dirty_list().contains(k)
                    == (start.contains(k) || exists|j: int| 0 <= j < i + 1 && ids@[j]@ == k) by {
                    let after = self.scheduler.dirty_list();
                    if !before.contains(ids@[i as int]@) {
                        assert(after == before.push(ids@[i as int]@));
                        if after.contains(k) {
                            let x = choose|x: int| 0 <= x < after.len() && after[x] == k;
                            if x < before.len() {
                                assert(before[x] == k);
                            }
                        }
                        if before.contains(k) {
                            let x = choose|x: int| 0 <= x < before.len() && before[x] == k;
                            assert(after[x] == k);
                        }
                        if k == ids@[i as int]@ {
                            assert(after[before.len() as int] == k);
                        }
                    }
                    if exists|j: int| 0 <= j < i + 1 && ids@[j]@ == k {
                        let j = choose|j: int| 0 <= j < i + 1 && ids@[j]@ == k;
                        if j < i {
                            assert(exists|j2: int| 0 <= j2 < i && ids@[j2]@ == k);
                        }
                    }
                }
            }
            i = i + 1;
        }
        proof {
            assert forall|k: Seq<char>| #[trigger] self.scheduler.dirty_list().contains(k)
                == (start.contains(k) || old(self).gpu_view_map().contains_key(k)) by {
                if old(self).gpu_view_map().contains_key(k) {
                    let j = choose|j: int| 0 <= j < ids@.len() && ids@[j]@ == k;
                }
                if exists|j: int| 0 <= j < ids@.len() && ids@[j]@ == k {
                    let j = choose|j: int| 0 <= j < ids@.len() && ids@[j]@ == k;
                    assert(self.gpu_views.views().contains_key(ids@[j]@));
                }
            }
        }
    }

    /// Decides what this frame draws: every view while a modal operator runs;
    /// every view once after an operator ended (forgetting that it ended);
    /// otherwise the dirty views, if any.
    pub fn tick(&mut self) -> (a: TickAction)
        ensures
            a == tick_action_spec(
                old(self).engine_state().global_state().node_drag is Some,
                old(self).engine_state().dispatcher().just_finished(),
                old(self).scheduler_state().dirty_list().len(),
            ),
            a == TickAction::RenderAllViewsOnce ==> !final(self).engine_state().dispatcher().just_finished(),
            a != TickAction::RenderAllViewsOnce ==> final(self).engine_state() == old(self).engine_state(),
            final(self).engine_state().view_map() == old(self).engine_state().view_map(),
            final(self).engine_state().global_state() == old(self).engine_state().global_state(),
            final(self).engine_state().dispatcher().current() == old(self).engine_state().dispatcher().current(),
            final(self).gpu_context() == old(self).gpu_context(),
            final(self).gpu_view_map() == old(self).gpu_view_map(),
            final(self).scheduler_state() == old(self).scheduler_state(),
    {
        let modal_active = self.engine.is_modal_active();
        let operator_finished = self.engine.operator_just_finished();
        let a = tick_action(modal_active, operator_finished, self.scheduler.dirty_count());
        match a {
            TickAction::RenderAllViewsOnce => {
                self.engine.clear_operator_finished_flag();
            },
            _ => {},
        }
        a
    }
}

} // verus!
