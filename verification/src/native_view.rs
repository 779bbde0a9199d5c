//! Bookkeeping of the platform views embedded in a window.
//!
//! Each embedded view gets an id that no other view ever had; its placement
//! can be changed until it is removed. The placement `R` and the fixed data
//! `K` (what kind of view it is, and whatever the platform attaches to it)
//! are carried as they are.
use std::collections::HashMap;
use vstd::prelude::*;

verus! {

broadcast use vstd::std_specs::hash::group_hash_axioms;

/// The id of an embedded view.
#[derive(Debug, Clone, Copy, PartialEq, Eq, Structural)]
pub struct ViewHandle {
    pub id: u64,
}

/// An embedded view: where it is placed, and what never changes about it.
pub struct ManagedView<R, K> {
    pub rect: R,
    pub kind: K,
}

/// The views embedded in a window, by id, and the id the next one gets.
pub struct NativeViewManager<R, K> {
    next_id: u64,
    views: HashMap<u64, ManagedView<R, K>>,
}

/// The abstract state of a [`NativeViewManager`].
pub struct NativeViewsView<R, K> {
    pub next_id: nat,
    pub views: Map<u64, ManagedView<R, K>>,
}

impl<R, K> View for NativeViewManager<R, K> {
    type V = NativeViewsView<R, K>;

    closed spec fn view(&self) -> NativeViewsView<R, K> {
        NativeViewsView { next_id: self.next_id as nat, views: self.views@ }
    }
}

impl<R, K> NativeViewManager<R, K> {
    /// Ids start at 1, and every id in use is below the next one to be given.
    pub open spec fn wf(&self) -> bool {
        &&& self@.next_id >= 1
        &&& forall|id: u64| #[trigger] self@.views.contains_key(id) ==> 1 <= id < self@.next_id
    }

    /// No view, and the first id is 1.
    pub fn new() -> (r: Self)
        ensures
            r@.next_id == 1,
            r@.views == Map::<u64, ManagedView<R, K>>::empty(),
            r.wf(),
    {
        NativeViewManager { next_id: 1, views: HashMap::new() }
    }

    /// Embeds a view placed at `rect`; answers with its id, which no view
    /// had before.
    pub fn embed(&mut self, rect: R, kind: K) -> (handle: ViewHandle)
        requires
            old(self).wf(),
            old(self)@.next_id < u64::MAX,
        ensures
            final(self).wf(),
            handle.id == old(self)@.next_id,
            !old(self)@.views.contains_key(handle.id),
            final(self)@.next_id == old(self)@.next_id + 1,
            final(self)@.views == old(self)@.views.insert(handle.id, ManagedView { rect, kind }),
    {
        let id = self.next_id;
        self.next_id = id + 1;
        self.views.insert(id, ManagedView { rect, kind });
        assert forall|k: u64| #[trigger] self@.views.contains_key(k) implies 1 <= k < self@.next_id by {
            if k != id {
                assert(old(self)@.views.contains_key(k));
            }
        }
        ViewHandle { id }
    }

    /// Places the view `handle` at `rect`, if it is still embedded; answers
    /// whether it was.
    pub fn update_rect(&mut self, handle: &ViewHandle, rect: R) -> (found: bool)
        requires
            old(self).wf(),
        ensures
            final(self).wf(),
            found == old(self)@.views.contains_key(handle.id),
            final(self)@.next_id == old(self)@.next_id,
            found ==> final(self)@.views == old(self)@.views.insert(
                handle.id,
                ManagedView { rect, kind: old(self)@.views[handle.id].kind },
            ),
            !found ==> final(self)@.views == old(self)@.views,
    {
        match self.views.remove(&handle.id) {
            Some(view) => {
                self.views.insert(handle.id, ManagedView { rect, kind: view.kind });
                assert(self@.views =~= old(self)@.views.insert(
                    handle.id,
                    ManagedView { rect, kind: old(self)@.views[handle.id].kind },
                ));
                true
            },
            None => false,
        }
    }

    /// Removes the view `handle`; answers with it if it was embedded.
    pub fn remove(&mut self, handle: &ViewHandle) -> (removed: Option<ManagedView<R, K>>)
        requires
            old(self).wf(),
        ensures
            final(self).wf(),
            final(self)@.next_id == old(self)@.next_id,
            final(self)@.views == old(self)@.views.remove(handle.id),
            match removed {
                Some(v) => old(self)@.views.contains_key(handle.id) && v == old(self)@.views[handle.id],
                None => !old(self)@.views.contains_key(handle.id),
            },
    {
        let removed = self.views.remove(&handle.id);
        assert forall|k: u64| #[trigger] self@.views.contains_key(k) implies 1 <= k < self@.next_id by {
            assert(old(self)@.views.contains_key(k));
        }
        removed
    }

    /// The view `handle`, if it is embedded.
    pub fn get(&self, handle: &ViewHandle) -> (r: Option<&ManagedView<R, K>>)
        ensures
            match r {
                Some(v) => self@.views.contains_key(handle.id) && *v == self@.views[handle.id],
                None => !self@.views.contains_key(handle.id),
            },
    {
        self.views.get(&handle.id)
    }

    /// The id the next embedded view gets.
    pub fn next_id(&self) -> (r: u64)
        ensures
            r == self@.next_id,
    {
        self.next_id
    }

    /// How many views are embedded.
    pub fn len(&self) -> (r: usize)
        ensures
            r == self@.views.len(),
    {
        self.views.len()
    }
}

/// One call of `embed` from `before` to `after` that gave `id`, as its
/// contract states it: the id is the counter, and the counter moves on by one.
pub open spec fn embed_step<R, K>(before: NativeViewsView<R, K>, after: NativeViewsView<R, K>, id: u64) -> bool {
    &&& id == before.next_id
    &&& after.next_id == before.next_id + 1
}

/// One call of `update_rect` or `remove` from `before` to `after`, as far as
/// the counter goes: it stays.
pub open spec fn counter_kept<R, K>(before: NativeViewsView<R, K>, after: NativeViewsView<R, K>) -> bool {
    after.next_id == before.next_id
}

/// A run of calls on one manager: `states[k]` to `states[k + 1]` is an
/// `embed` that gave `given[k]` where that is `Some`, else an `update_rect`
/// or a `remove`.
pub open spec fn is_run<R, K>(states: Seq<NativeViewsView<R, K>>, given: Seq<Option<u64>>) -> bool {
    &&& states.len() == given.len() + 1
    &&& forall|k: int|
        0 <= k < given.len() ==> match #[trigger] given[k] {
            Some(id) => embed_step(states[k], states[k + 1], id),
            None => counter_kept(states[k], states[k + 1]),
        }
}

/// Along a run, the counter never goes back.
proof fn lemma_counter_grows<R, K>(states: Seq<NativeViewsView<R, K>>, given: Seq<Option<u64>>, i: int, j: int)
    requires
        is_run(states, given),
        0 <= i <= j < states.len(),
    ensures
        states[i].next_id <= states[j].next_id,
    decreases j - i,
{
    if i < j {
        lemma_counter_grows(states, given, i, j - 1);
        assert(given[j - 1] is Some || given[j - 1] is None);
    }
}

/// Ids are never given twice: in any run of `embed`, `update_rect` and
/// `remove` calls on one manager, removals included, two embeds give two
/// different ids, the later one the larger.
pub proof fn law_embed_ids_fresh<R, K>(states: Seq<NativeViewsView<R, K>>, given: Seq<Option<u64>>, i: int, j: int)
    requires
        is_run(states, given),
        0 <= i < j < given.len(),
        given[i] is Some,
        given[j] is Some,
    ensures
        given[i]->0 < given[j]->0,
{
    lemma_counter_grows(states, given, i + 1, j);
}

/// Embedding a view and removing it again leaves the embedded views as they
/// were (only the id counter has moved on).
pub proof fn law_embed_then_remove<R, K>(before: Map<u64, ManagedView<R, K>>, id: u64, view: ManagedView<R, K>)
    requires
        !before.contains_key(id),
    ensures
        before.insert(id, view).remove(id) == before,
{
    assert(before.insert(id, view).remove(id) =~= before);
}

} // verus!
