//! The life cycle of the Windows platform plugin and the platform context
//! that embeds native views.
use crate::native_view::{ManagedView, NativeViewManager, ViewHandle};
use vstd::prelude::*;

verus! {

/// The Windows platform plugin: whether it is initialised.
pub struct WindowsPlatform {
    initialized: bool,
}

impl View for WindowsPlatform {
    type V = bool;

    closed spec fn view(&self) -> bool {
        self.initialized
    }
}

impl WindowsPlatform {
    /// A plugin not yet initialised.
    pub fn new() -> (r: Self)
        ensures
            r@ == false,
    {
        WindowsPlatform { initialized: false }
    }

    /// Initialises the plugin.
    pub fn init(&mut self)
        ensures
            final(self)@ == true,
    {
        self.initialized = true;
    }

    /// The app was paused: nothing changes.
    pub fn on_pause(&mut self)
        ensures
            final(self)@ == old(self)@,
    {
    }

    /// The app was resumed: nothing changes.
    pub fn on_resume(&mut self)
        ensures
            final(self)@ == old(self)@,
    {
    }

    /// The app is going away: the plugin is no longer initialised.
    pub fn on_destroy(&mut self)
        ensures
            final(self)@ == false,
    {
        self.initialized = false;
    }

    /// Whether the plugin is initialised.
    pub fn is_initialized(&self) -> (r: bool)
        ensures
            r == self@,
    {
        self.initialized
    }
}

impl Default for WindowsPlatform {
    /// A plugin not yet initialised.
    fn default() -> (r: Self)
        ensures
            r@ == false,
    {
        WindowsPlatform::new()
    }
}

/// What the Windows platform offers the framework: the native views embedded
/// in its windows (placement `R`, fixed data `K`).
pub struct WindowsPlatformContext<R, K> {
    native_view_manager: NativeViewManager<R, K>,
}

impl<R, K> WindowsPlatformContext<R, K> {
    /// The embedded views.
    pub closed spec fn views(&self) -> NativeViewManager<R, K> {
        self.native_view_manager
    }

    /// No view embedded.
    pub fn new() -> (r: Self)
        ensures
            r.views()@.next_id == 1,
            r.views()@.views == Map::<u64, ManagedView<R, K>>::empty(),
            r.views().wf(),
    {
        WindowsPlatformContext { native_view_manager: NativeViewManager::new() }
    }

    /// Embeds a native view placed at `rect`.
    pub fn embed_native_view(&mut self, rect: R, kind: K) -> (handle: ViewHandle)
        requires
            old(self).views().wf(),
            old(self).views()@.next_id < u64::MAX,
        ensures
            final(self).views().wf(),
            handle.id == old(self).views()@.next_id,
            !old(self).views()@.views.contains_key(handle.id),
            final(self).views()@.next_id == old(self).views()@.next_id + 1,
            final(self).views()@.views == old(self).views()@.views.insert(
                handle.id,
                ManagedView { rect, kind },
            ),
    {
        self.native_view_manager.embed(rect, kind)
    }

    /// Places the native view `handle` at `rect`, if it is still embedded.
    pub fn update_native_view_rect(&mut self, handle: &ViewHandle, rect: R) -> (found: bool)
        requires
            old(self).views().wf(),
        ensures
            final(self).views().wf(),
            found == old(self).views()@.views.contains_key(handle.id),
            final(self).views()@.next_id == old(self).views()@.next_id,
            found ==> final(self).views()@.views == old(self).views()@.views.insert(
                handle.id,
                ManagedView { rect, kind: old(self).views()@.views[handle.id].kind },
            ),
            !found ==> final(self).views()@.views == old(self).views()@.views,
    {
        self.native_view_manager.update_rect(handle, rect)
    }

    /// Removes the native view `handle`; answers with it if it was embedded.
    pub fn remove_native_view(&mut self, handle: &ViewHandle) -> (removed: Option<ManagedView<R, K>>)
        requires
            old(self).views().wf(),
        ensures
            final(self).views().wf(),
            final(self).views()@.next_id == old(self).views()@.next_id,
            final(self).views()@.views == old(self).views()@.views.remove(handle.id),
            match removed {
                Some(v) => old(self).views()@.views.contains_key(handle.id) && v == old(
                    self,
                ).views()@.views[handle.id],
                None => !old(self).views()@.views.contains_key(handle.id),
            },
    {
        self.native_view_manager.remove(handle)
    }
}

} // verus!
