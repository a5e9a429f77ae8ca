//! React-style hooks for component state: state cells, memoized values,
//! effects with cleanups, and refs, all kept in a per-component hook store
//! and addressed by the order in which a render calls them.

pub mod hooks;

use vstd::prelude::*;
use crate::hooks::HasHooks;
use crate::hooks::store::rewind;

verus! {

/// A hook that can be run: a callback registered on a component and run
/// before each of its renders.
pub trait Hook {
    /// Whether the hook may be run.
    spec fn ready(&self) -> bool;

    /// That a run of the hook has happened and returned.
    spec fn ran(&self) -> bool;

    /// Runs the hook.
    fn execute(&self)
        requires
            self.ready(),
        ensures
            self.ran(),
    ;
}

/// Every function with no arguments is a hook; running it calls it.
impl<F: Fn()> Hook for F {
    open spec fn ready(&self) -> bool {
        call_requires(*self, ())
    }

    open spec fn ran(&self) -> bool {
        call_ensures(*self, (), ())
    }

    fn execute(&self) {
        (self)()
    }
}

/// What a component with hooks offers: the callbacks registered on it, a
/// way to register one, and the reset of the cursor that starts each render.
pub trait HookedElement<V: 'static, C: FnOnce() + 'static>: HasHooks<V, C> {
    /// Registers a callback, run before each render; the hooks do not change.
    fn _use(&mut self, hook: Self::Callback)
        requires
            hook.ready(),
        ensures
            final(self).hooks_view() == old(self).hooks_view(),
            final(self).callbacks_view().callbacks == old(self).callbacks_view().callbacks.push(hook),
    {
        self._hooks_storage_mut().register(hook)
    }

    /// The callbacks registered, in registration order.
    fn _hooks(&self) -> (r: &[Self::Callback])
        ensures
            r@ == self.callbacks_view().callbacks,
    {
        self._hooks_storage().callbacks()
    }

    /// Starts a render: the next hook call addresses the first hook.
    fn _reset(&mut self)
        ensures
            final(self).hooks_view() == rewind(old(self).hooks_view(), 0),
            final(self).callbacks_view() == old(self).callbacks_view(),
    {
        self._hooks_storage_mut().rewind_cursor()
    }
}

impl<V: 'static, C: FnOnce() + 'static, T: HasHooks<V, C>> HookedElement<V, C> for T {}

/// A component rendered with hooks: every render starts with the cursor at
/// the first hook, so that its hook calls address the hooks of the render
/// before in the same order.
pub trait HookedRender<V: 'static, C: FnOnce() + 'static>: HookedElement<V, C> + Sized {
    /// What a render produces.
    type Element;

    /// What a render did: from `before` it left `after` and produced `element`.
    spec fn rendered(before: Self, after: Self, element: Self::Element) -> bool;

    /// Runs before each render: runs every registered callback once, in
    /// registration order, then moves the cursor back to the first hook.
    fn pre_render(&mut self)
        ensures
            forall|i: int| 0 <= i < old(self).callbacks_view().callbacks.len()
                ==> (#[trigger] old(self).callbacks_view().callbacks[i]).ran(),
            final(self).hooks_view() == rewind(old(self).hooks_view(), 0),
            final(self).callbacks_view() == old(self).callbacks_view(),
    {
        self._hooks_storage().run_callbacks();
        self._reset();
    }

    /// The render itself, which makes the component's hook calls; it starts
    /// with the cursor at the first hook.
    fn render(&mut self) -> (element: Self::Element)
        requires
            old(self).hooks_view().index == 0,
        ensures
            Self::rendered(*old(self), *final(self), element),
    ;
}

/// A whole render of a component: `pre_render`, then `render` once. The
/// registered callbacks have run, and the result is what `render` returned
/// from the component as `pre_render` left it: its cursor at the first
/// hook, its hooks and callbacks otherwise as before.
pub fn execute_hooked_render<V: 'static, C: FnOnce() + 'static, T: HookedRender<V, C>>(this: &mut T) -> (element: T::Element)
    ensures
        forall|i: int| 0 <= i < old(this).callbacks_view().callbacks.len()
            ==> (#[trigger] old(this).callbacks_view().callbacks[i]).ran(),
        exists|mid: T|
            mid.hooks_view() == rewind(old(this).hooks_view(), 0)
            && mid.callbacks_view() == old(this).callbacks_view()
            && T::rendered(mid, *final(this), element),
{
    this.pre_render();
    let ghost mid = *this;
    let element = this.render();
    assert(T::rendered(mid, *final(this), element));
    element
}

} // verus!
