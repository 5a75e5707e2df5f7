//! The registry of views known to the GPU side: which exist, which are
//! attached to a surface, which are visible. `R` is whatever GPU resources the
//! embedding keeps for an attached view.
use vstd::prelude::*;
use crate::view_table::ViewTable;
use crate::errors::RuntimeError;

verus! {

/// The GPU-side state of one view.
#[derive(Debug)]
pub struct GpuViewState<R> {
    pub visible: bool,
    pub attached: bool,
    /// Width and height of the configured surface, once attached.
    pub config_size: Option<(u32, u32)>,
    pub resources: Option<R>,
}

/// The state of a view that was just created: hidden, detached, without resources.
pub open spec fn fresh_state<R>() -> GpuViewState<R> {
    GpuViewState { visible: false, attached: false, config_size: None, resources: None }
}

/// The views known to the GPU side, by name.
pub struct GpuViewRegistry<R> {
    views: ViewTable<GpuViewState<R>>,
}

impl<R> GpuViewRegistry<R> {
    /// The registered views, by name.
    pub closed spec fn views(&self) -> Map<Seq<char>, GpuViewState<R>> {
        self.views.map()
    }

    /// A registry with no views.
    pub fn new() -> (r: Self)
        ensures
            r.views() == Map::<Seq<char>, GpuViewState<R>>::empty(),
    {
        GpuViewRegistry { views: ViewTable::new() }
    }

    pub fn create_view(&mut self, id: &str) -> (r: Result<(), RuntimeError>)
        ensures
            old(self).views().contains_key(id@) ==> {
                &&& r matches Err(RuntimeError::ViewAlreadyExists(n)) && n@ == id@
                &&& final(self).views() == old(self).views()
            },
            !old(self).views().contains_key(id@) ==> {
                &&& r is Ok
                &&& final(self).views() == old(self).views().insert(id@, fresh_state::<R>())
            },
    {
        if self.views.contains(id) {
            Err(RuntimeError::ViewAlreadyExists(id.to_owned()))
        } else {
            self.views.insert(id, GpuViewState { visible: false, attached: false, config_size: None, resources: None });
            Ok(())
        }
    }

    pub fn destroy_view(&mut self, id: &str) -> (r: Result<(), RuntimeError>)
        ensures
            old(self).views().contains_key(id@) ==> {
                &&& r is Ok
                &&& final(self).views() == old(self).views().remove(id@)
            },
            !old(self).views().contains_key(id@) ==> {
                &&& r matches Err(RuntimeError::ViewNotFound(n)) && n@ == id@
                &&& final(self).views() == old(self).views()
            },
    {
        match self.views.remove(id) {
            None => Err(RuntimeError::ViewNotFound(id.to_owned())),
            Some(_state) => Ok(()),
        }
    }

    pub fn attach_view(&mut self, id: &str, resources: R, width: u32, height: u32) -> (r: Result<(), RuntimeError>)
        ensures
            old(self).views().contains_key(id@) ==> {
                &&& r is Ok
                &&& final(self).views() == old(self).views().insert(id@, GpuViewState {
                    visible: old(self).views()[id@].visible,
                    attached: true,
                    config_size: Some((width, height)),
                    resources: Some(resources),
                })
            },
            !old(self).views().contains_key(id@) ==> {
                &&& r matches Err(RuntimeError::ViewNotFound(n)) && n@ == id@
                &&& final(self).views() == old(self).views()
            },
    {
        match self.views.remove(id) {
            None => Err(RuntimeError::ViewNotFound(id.to_owned())),
            Some(state) => {
                self.views.insert(id, GpuViewState {
                    visible: state.visible,
                    attached: true,
                    config_size: Some((width, height)),
                    resources: Some(resources),
                });
                proof {
                    assert(old(self).views().remove(id@).insert(id@, self.views()[id@]) =~= old(self).views().insert(id@, self.views()[id@]));
                }
                Ok(())
            },
        }
    }

    pub fn detach_view(&mut self, id: &str) -> (r: Result<(), RuntimeError>)
        ensures
            old(self).views().contains_key(id@) ==> {
                &&& r is Ok
                &&& final(self).views() == old(self).views().insert(id@, GpuViewState {
                    visible: old(self).views()[id@].visible,
                    attached: false,
                    config_size: None,
                    resources: None,
                })
            },
            !old(self).views().contains_key(id@) ==> {
                &&& r matches Err(RuntimeError::ViewNotFound(n)) && n@ == id@
                &&& final(self).views() == old(self).views()
            },
    {
        match self.views.remove(id) {
            None => Err(RuntimeError::ViewNotFound(id.to_owned())),
            Some(state) => {
                self.views.insert(id, GpuViewState { visible: state.visible, attached: false, config_size: None, resources: None });
                proof {
                    assert(old(self).views().remove(id@).insert(id@, self.views()[id@]) =~= old(self).views().insert(id@, self.views()[id@]));
                }
                Ok(())
            },
        }
    }

    pub fn set_visible(&mut self, id: &str, visible: bool) -> (r: Result<(), RuntimeError>)
        ensures
            old(self).views().contains_key(id@) ==> {
                &&& r is Ok
                &&& final(self).views() == old(self).views().insert(id@, GpuViewState {
                    visible,
                    ..old(self).views()[id@]
                })
            },
            !old(self).views().contains_key(id@) ==> {
                &&& r matches Err(RuntimeError::ViewNotFound(n)) && n@ == id@
                &&& final(self).views() == old(self).views()
            },
    {
        match self.views.remove(id) {
            None => Err(RuntimeError::ViewNotFound(id.to_owned())),
            Some(state) => {
                self.views.insert(id, GpuViewState { visible, ..state });
                proof {
                    assert(old(self).views().remove(id@).insert(id@, self.views()[id@]) =~= old(self).views().insert(id@, self.views()[id@]));
                }
                Ok(())
            },
        }
    }

    pub fn resize_view(&mut self, id: &str, width: u32, height: u32) -> (r: Result<(), RuntimeError>)
        ensures
            old(self).views().contains_key(id@) ==> {
                let st = old(self).views()[id@];
                &&& r is Ok
                &&& if st.attached && st.config_size is Some && st.resources is Some {
                    final(self).views() == old(self).views().insert(id@, GpuViewState {
                        config_size: Some((width, height)),
                        ..st
                    })
                } else {
                    final(self).views() == old(self).views()
                }
            },
            !old(self).views().contains_key(id@) ==> {
                &&& r matches Err(RuntimeError::ViewNotFound(n)) && n@ == id@
                &&& final(self).views() == old(self).views()
            },
    {
        match self.views.remove(id) {
            None => Err(RuntimeError::ViewNotFound(id.to_owned())),
            Some(state) => {
                let due = state.attached && state.config_size.is_some() && state.resources.is_some();
                if due {
                    self.views.insert(id, GpuViewState { config_size: Some((width, height)), ..state });
                    proof {
                        assert(old(self).views().remove(id@).insert(id@, self.views()[id@]) =~= old(self).views().insert(id@, self.views()[id@]));
                    }
                } else {
                    self.views.insert(id, state);
                    proof {
                        assert(old(self).views().remove(id@).insert(id@, old(self).views()[id@]) =~= old(self).views());
                    }
                }
                Ok(())
            },
        }
    }

    pub fn reconfigure_surface(&mut self, id: &str, width: u32, height: u32) -> (r: Result<(), RuntimeError>)
        ensures
            old(self).views().contains_key(id@) ==> {
                let st = old(self).views()[id@];
                &&& r is Ok
                &&& if st.attached && st.config_size is Some && st.resources is Some {
                    final(self).views() == old(self).views().insert(id@, GpuViewState {
                        config_size: Some((width, height)),
                        ..st
                    })
                } else {
                    final(self).views() == old(self).views()
                }
            },
            !old(self).views().contains_key(id@) ==> {
                &&& r matches Err(RuntimeError::ViewNotFound(n)) && n@ == id@
                &&& final(self).views() == old(self).views()
            },
    {
        self.resize_view(id, width, height)
    }

    pub fn get(&self, id: &str) -> (r: Option<&GpuViewState<R>>)
        ensures
            r is None <==> !self.views().contains_key(id@),
            r matches Some(st) ==> *st == self.views()[id@],
    {
        self.views.get(id)
    }

    pub fn len(&self) -> (n: usize)
        ensures
            n == self.views().len(),
    {
        self.views.len()
    }

    pub fn all_view_ids(&self) -> (ids: Vec<String>)
        ensures
            ids@.len() == self.views().len(),
            forall|i: int| 0 <= i < ids@.len() ==> #[trigger] self.views().contains_key(ids@[i]@),
            forall|k: Seq<char>| #[trigger] self.views().contains_key(k) ==> exists|i: int| 0 <= i < ids@.len() && ids@[i]@ == k,
    {
        self.views.keys()
    }
}

/// Creating a view that did not exist and then destroying it leaves the
/// registry as it was; right after its creation a view exists, so creating it
/// again fails.
pub proof fn lemma_create_then_destroy<R>(views: Map<Seq<char>, GpuViewState<R>>, id: Seq<char>)
    requires
        !views.contains_key(id),
    ensures
        views.insert(id, fresh_state::<R>()).contains_key(id),
        views.insert(id, fresh_state::<R>()).remove(id) == views,
{
    assert(views.insert(id, fresh_state::<R>()).remove(id) =~= views);
}

/// What was set is what is read back: after showing or hiding a view, its
/// visibility is the one set and the other views are untouched.
pub proof fn lemma_visibility_read_back<R>(views: Map<Seq<char>, GpuViewState<R>>, id: Seq<char>, visible: bool, other: Seq<char>)
    requires
        views.contains_key(id),
    ensures
        views.insert(id, GpuViewState { visible, ..views[id] })[id].visible == visible,
        other != id ==> views.insert(id, GpuViewState { visible, ..views[id] }).contains_key(other) == views.contains_key(other),
        other != id && views.contains_key(other) ==> views.insert(id, GpuViewState { visible, ..views[id] })[other] == views[other],
{
}

} // verus!
