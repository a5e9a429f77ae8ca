//! A ref: a value that persists across renders and is changed without a render.

use vstd::prelude::*;
use crate::hooks::HasHooks;
use crate::hooks::store::{initial_called_only_for_new_hook, HookView, StoreView, cursor_is_ref, ref_call};

verus! {

/// A ref hook: a value kept across renders, read and written in place.
pub struct UseRef<T> {
    current: T,
}

impl<T> View for UseRef<T> {
    type V = T;

    closed spec fn view(&self) -> T {
        self.current
    }
}

impl<T> UseRef<T> {
    /// A ref holding `initial`.
    pub fn new(initial: T) -> (r: Self)
        ensures
            r@ == initial,
    {
        UseRef { current: initial }
    }

    /// The value held.
    pub fn get_ref(&self) -> (r: &T)
        ensures
            *r == self@,
    {
        &self.current
    }

    /// Mutable access to the value held.
    pub fn get_ref_mut(&mut self) -> (r: &mut T)
        ensures
            *r == old(self)@,
            final(self)@ == *final(r),
    {
        &mut self.current
    }
}

/// Ref hooks of a component that keeps a hook store.
pub trait UseRefHook<V: 'static, C: FnOnce() + 'static>: HasHooks<V, C> {
    /// A ref hook; see [`HookStore::use_ref`](crate::hooks::HookStore::use_ref).
    fn use_ref<F: FnOnce() -> V>(&mut self, initial: F) -> (h: usize)
        requires
            cursor_is_ref(old(self).hooks_view()),
            initial_called_only_for_new_hook(old(self).hooks_view(), initial),
        ensures
            final(self).callbacks_view() == old(self).callbacks_view(),
            h == old(self).hooks_view().index,
            ref_call(old(self).hooks_view(), final(self).hooks_view(), initial),
            h < final(self).hooks_view().hooks.len(),
            final(self).hooks_view().hooks[h as int] is Ref,
    {
        self._hooks_storage_mut().use_ref(initial)
    }

    /// The value of the ref at `h`.
    fn ref_value(&self, h: usize) -> (r: &V)
        requires
            h < self.hooks_view().hooks.len(),
            self.hooks_view().hooks[h as int] is Ref,
        ensures
            *r == self.hooks_view().hooks[h as int]->Ref_0,
    {
        self._hooks_storage().ref_value(h)
    }

    /// Replaces the value of the ref at `h`, with no new render asked for.
    fn set_ref(&mut self, h: usize, value: V)
        requires
            h < old(self).hooks_view().hooks.len(),
            old(self).hooks_view().hooks[h as int] is Ref,
        ensures
            final(self).callbacks_view() == old(self).callbacks_view(),
            final(self).hooks_view() == (StoreView {
                hooks: old(self).hooks_view().hooks.update(h as int, HookView::Ref(value)),
                index: old(self).hooks_view().index,
            }),
    {
        self._hooks_storage_mut().set_ref(h, value)
    }
}

impl<V: 'static, C: FnOnce() + 'static, T: HasHooks<V, C>> UseRefHook<V, C> for T {}

} // verus!
