//! A callback: a memo whose value is a function.

use vstd::prelude::*;
use crate::hooks::{Dependency, deps_of};
use crate::hooks::store::{compute_called_only_when_computing, cursor_is_memo, memo_call};
use crate::hooks::use_memo::UseMemoHook;

verus! {

/// A callback hook: a memo whose value is a function returning `R`; it is
/// made with [`UseCallbackHook::use_callback`] and kept as a memo.
pub struct UseCallback<R>(std::marker::PhantomData<R>);

/// Callback hooks of a component that keeps a hook store.
pub trait UseCallbackHook<V: 'static, C: FnOnce() + 'static>: UseMemoHook<V, C> {
    /// A callback hook: a memo whose value is the callback `factory` makes;
    /// a new callback is made only when `deps` change. Returns the position
    /// of the memo, by which the callback is read with `memo`.
    fn use_callback<F: FnOnce() -> V, D: Dependency>(&mut self, factory: F, deps: &[D]) -> (h: usize)
        requires
            cursor_is_memo(old(self).hooks_view()),
            compute_called_only_when_computing(old(self).hooks_view(), deps_of(deps@), factory),
        ensures
            final(self).callbacks_view() == old(self).callbacks_view(),
            h == old(self).hooks_view().index,
            memo_call(old(self).hooks_view(), final(self).hooks_view(), deps_of(deps@), factory),
            h < final(self).hooks_view().hooks.len(),
            final(self).hooks_view().hooks[h as int] is Memo,
            final(self).hooks_view().hooks[h as int]->Memo_0.value is Some,
    {
        self.use_memo(factory, deps)
    }
}

impl<V: 'static, C: FnOnce() + 'static, T: UseMemoHook<V, C>> UseCallbackHook<V, C> for T {}

} // verus!
