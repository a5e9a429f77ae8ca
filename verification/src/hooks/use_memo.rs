//! A memo: a value computed again only when its dependencies change.

use vstd::prelude::*;
use crate::hooks::store::{compute_called_only_when_computing, cursor_is_memo, memo_call};
use crate::hooks::{
    Dependency, DepValue, DepView, HasHooks, deps_of, deps_view, deps_equal, spec_deps_changed,
};

verus! {

/// A memo hook: the cached value, the dependencies it was computed for,
/// and whether it was computed at all.
pub struct UseMemo<T> {
    value: Option<T>,
    deps: Vec<DepValue>,
    has_run: bool,
}

/// The contents of a memo hook.
pub struct MemoView<T> {
    pub value: Option<T>,
    pub deps: Seq<DepView>,
    pub has_run: bool,
}

impl<T> View for UseMemo<T> {
    type V = MemoView<T>;

    closed spec fn view(&self) -> MemoView<T> {
        MemoView { value: self.value, deps: deps_view(self.deps@), has_run: self.has_run }
    }
}

/// A memo after an update: it holds `value`, computed for `deps`.
pub open spec fn memo_update<T>(m: MemoView<T>, value: T, deps: Seq<DepView>) -> MemoView<T> {
    MemoView { value: Some(value), deps, has_run: true }
}

impl<T> UseMemo<T> {
    /// A memo that has not computed yet, recording `deps`.
    pub fn new(deps: Vec<DepValue>) -> (m: Self)
        ensures
            m@ == (MemoView::<T> { value: None, deps: deps_view(deps@), has_run: false }),
    {
        UseMemo { value: None, deps, has_run: false }
    }

    /// Whether the value must be computed again for `new_deps`: when it was
    /// never computed, or the dependencies differ from those recorded.
    pub fn deps_changed(&self, new_deps: &[DepValue]) -> (r: bool)
        ensures
            r == spec_deps_changed(self@.has_run, self@.deps, deps_view(new_deps@)),
    {
        if !self.has_run {
            return true;
        }
        !deps_equal(self.deps.as_slice(), new_deps)
    }

    /// Stores a newly computed value and the dependencies it was computed for.
    pub fn update(&mut self, value: T, new_deps: Vec<DepValue>)
        ensures
            final(self)@ == memo_update(old(self)@, value, deps_view(new_deps@)),
    {
        self.value = Some(value);
        self.deps = new_deps;
        self.has_run = true;
    }

    /// The cached value, if any was computed.
    pub fn get(&self) -> (r: Option<&T>)
        ensures
            r matches Some(v) ==> self@.value == Some(*v),
            r is None ==> self@.value is None,
    {
        match &self.value {
            Some(v) => Some(v),
            None => None,
        }
    }
}

/// Memo hooks of a component that keeps a hook store.
pub trait UseMemoHook<V: 'static, C: FnOnce() + 'static>: HasHooks<V, C> {
    /// A memo hook; see [`HookStore::use_memo`](crate::hooks::HookStore::use_memo).
    fn use_memo<F: FnOnce() -> V, D: Dependency>(&mut self, compute: F, deps: &[D]) -> (h: usize)
        requires
            cursor_is_memo(old(self).hooks_view()),
            compute_called_only_when_computing(old(self).hooks_view(), deps_of(deps@), compute),
        ensures
            final(self).callbacks_view() == old(self).callbacks_view(),
            h == old(self).hooks_view().index,
            memo_call(old(self).hooks_view(), final(self).hooks_view(), deps_of(deps@), compute),
            h < final(self).hooks_view().hooks.len(),
            final(self).hooks_view().hooks[h as int] is Memo,
            final(self).hooks_view().hooks[h as int]->Memo_0.value is Some,
    {
        self._hooks_storage_mut().use_memo(compute, deps)
    }

    /// The value of the memo at `h`.
    fn memo(&self, h: usize) -> (r: &V)
        requires
            h < self.hooks_view().hooks.len(),
            self.hooks_view().hooks[h as int] is Memo,
            self.hooks_view().hooks[h as int]->Memo_0.value is Some,
        ensures
            Some(*r) == self.hooks_view().hooks[h as int]->Memo_0.value,
    {
        self._hooks_storage().memo(h)
    }
}

impl<V: 'static, C: FnOnce() + 'static, T: HasHooks<V, C>> UseMemoHook<V, C> for T {}

} // verus!
