//! A state cell: a value and the number of times it was set.

use vstd::prelude::*;
use crate::hooks::HasHooks;
use crate::hooks::store::{initial_called_only_for_new_hook, cursor_is_state, state_call, set_state_step};

verus! {

/// A state hook: the current value, and a version that counts the sets
/// (each set asks for a new render).
pub struct UseState<T> {
    value: T,
    version: usize,
}

/// The contents of a state hook.
pub struct StateView<T> {
    pub value: T,
    pub version: nat,
}

impl<T> View for UseState<T> {
    type V = StateView<T>;

    closed spec fn view(&self) -> StateView<T> {
        StateView { value: self.value, version: self.version as nat }
    }
}

/// A state after a set of `value`: the value replaced, one version later.
pub open spec fn state_set<T>(s: StateView<T>, value: T) -> StateView<T> {
    StateView { value, version: s.version + 1 }
}

/// A state after its value is changed in place to `value`: the version stays.
pub open spec fn state_modify<T>(s: StateView<T>, value: T) -> StateView<T> {
    StateView { value, version: s.version }
}

impl<T> UseState<T> {
    /// A state holding `initial`, at version 0.
    pub fn new(initial: T) -> (s: Self)
        ensures
            s@ == (StateView { value: initial, version: 0 }),
    {
        UseState { value: initial, version: 0 }
    }

    /// The current value.
    pub fn get(&self) -> (r: &T)
        ensures
            *r == self@.value,
    {
        &self.value
    }

    /// Mutable access to the current value; the version does not change.
    pub fn get_mut(&mut self) -> (r: &mut T)
        ensures
            *r == old(self)@.value,
            final(self)@ == state_modify(old(self)@, *final(r)),
    {
        &mut self.value
    }

    /// Replaces the value and counts one more version.
    pub fn set(&mut self, new_value: T)
        requires
            old(self)@.version < usize::MAX,
        ensures
            final(self)@ == state_set(old(self)@, new_value),
    {
        self.value = new_value;
        self.version = self.version + 1;
    }

    /// The number of times the value was set.
    pub fn version(&self) -> (r: usize)
        ensures
            r == self@.version,
    {
        self.version
    }
}

/// State hooks of a component that keeps a hook store.
pub trait UseStateHook<V: 'static, C: FnOnce() + 'static>: HasHooks<V, C> {
    /// A state hook; see [`HookStore::use_state`](crate::hooks::HookStore::use_state).
    fn use_state<F: FnOnce() -> V>(&mut self, initial: F) -> (h: usize)
        requires
            cursor_is_state(old(self).hooks_view()),
            initial_called_only_for_new_hook(old(self).hooks_view(), initial),
        ensures
            final(self).callbacks_view() == old(self).callbacks_view(),
            h == old(self).hooks_view().index,
            state_call(old(self).hooks_view(), final(self).hooks_view(), initial),
            h < final(self).hooks_view().hooks.len(),
            final(self).hooks_view().hooks[h as int] is State,
    {
        self._hooks_storage_mut().use_state(initial)
    }

    /// The current value of the state at `h`.
    fn state(&self, h: usize) -> (r: &V)
        requires
            h < self.hooks_view().hooks.len(),
            self.hooks_view().hooks[h as int] is State,
        ensures
            *r == self.hooks_view().hooks[h as int]->State_0.value,
    {
        self._hooks_storage().state(h)
    }

    /// The number of times the state at `h` was set.
    fn state_version(&self, h: usize) -> (r: usize)
        requires
            h < self.hooks_view().hooks.len(),
            self.hooks_view().hooks[h as int] is State,
        ensures
            r == self.hooks_view().hooks[h as int]->State_0.version,
    {
        self._hooks_storage().state_version(h)
    }

    /// Sets the state at `h` to `value`, one version later.
    fn set_state(&mut self, h: usize, value: V)
        requires
            h < old(self).hooks_view().hooks.len(),
            old(self).hooks_view().hooks[h as int] is State,
            old(self).hooks_view().hooks[h as int]->State_0.version < usize::MAX,
        ensures
            final(self).callbacks_view() == old(self).callbacks_view(),
            final(self).hooks_view() == set_state_step(old(self).hooks_view(), h as int, value),
    {
        self._hooks_storage_mut().set_state(h, value)
    }
}

impl<V: 'static, C: FnOnce() + 'static, T: HasHooks<V, C>> UseStateHook<V, C> for T {}

} // verus!
