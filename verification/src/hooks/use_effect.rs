//! An effect: work run after a render when its dependencies change, with a
//! cleanup run before the next run or when the component goes away.

use vstd::prelude::*;
use crate::hooks::store::{cursor_is_effect, effect_call, effect_callable, cleanups_cleared};
use crate::hooks::{
    Dependency, DepValue, DepView, HasHooks, deps_of, deps_view, deps_equal, spec_deps_changed,
};

verus! {

/// An effect hook: the dependencies of its last run, the cleanup that run
/// left, and whether it ran at all.
pub struct UseEffect<C> {
    deps: Vec<DepValue>,
    cleanup: Option<C>,
    has_run: bool,
}

/// The contents of an effect hook.
pub struct EffectView<C> {
    pub deps: Seq<DepView>,
    pub cleanup: Option<C>,
    pub has_run: bool,
}

impl<C> View for UseEffect<C> {
    type V = EffectView<C>;

    closed spec fn view(&self) -> EffectView<C> {
        EffectView { deps: deps_view(self.deps@), cleanup: self.cleanup, has_run: self.has_run }
    }
}

/// Whether a stored cleanup, if any, may be called.
pub open spec fn cleanup_callable<C: FnOnce()>(cleanup: Option<C>) -> bool {
    cleanup matches Some(c) ==> call_requires(c, ())
}

/// That a cleanup, if there was one, has been called and returned.
pub open spec fn cleanup_ran<C: FnOnce()>(cleanup: Option<C>) -> bool {
    cleanup matches Some(c) ==> call_ensures(c, (), ())
}

impl<C: FnOnce()> UseEffect<C> {
    /// An effect that has not run, recording `deps`, with no cleanup.
    pub fn new(deps: Vec<DepValue>) -> (e: Self)
        ensures
            e@ == (EffectView::<C> { deps: deps_view(deps@), cleanup: None, has_run: false }),
    {
        UseEffect { deps, cleanup: None, has_run: false }
    }

    /// Whether the effect must run for `new_deps`: when it never ran, or the
    /// dependencies differ from those recorded.
    pub fn deps_changed(&self, new_deps: &[DepValue]) -> (r: bool)
        ensures
            r == spec_deps_changed(self@.has_run, self@.deps, deps_view(new_deps@)),
    {
        if !self.has_run {
            return true;
        }
        !deps_equal(self.deps.as_slice(), new_deps)
    }

    /// Records the dependencies of a new run.
    pub fn update_deps(&mut self, new_deps: Vec<DepValue>)
        ensures
            final(self)@ == (EffectView { deps: deps_view(new_deps@), ..old(self)@ }),
    {
        self.deps = new_deps;
    }

    /// Records that the effect has run.
    pub fn mark_run(&mut self)
        ensures
            final(self)@ == (EffectView { has_run: true, ..old(self)@ }),
    {
        self.has_run = true;
    }

    /// Stores the cleanup of a new run; the cleanup stored before, if any,
    /// is called first.
    pub fn set_cleanup(&mut self, cleanup: C)
        requires
            cleanup_callable(old(self)@.cleanup),
        ensures
            cleanup_ran(old(self)@.cleanup),
            final(self)@ == (EffectView { cleanup: Some(cleanup), ..old(self)@ }),
    {
        if let Some(prev_cleanup) = self.cleanup.take() {
            prev_cleanup();
        }
        self.cleanup = Some(cleanup);
    }

    /// Calls the stored cleanup, if any, and forgets it.
    pub fn run_cleanup(&mut self)
        requires
            cleanup_callable(old(self)@.cleanup),
        ensures
            cleanup_ran(old(self)@.cleanup),
            final(self)@ == (EffectView { cleanup: None, ..old(self)@ }),
    {
        if let Some(cleanup) = self.cleanup.take() {
            cleanup();
        }
    }
}

/// Effect hooks of a component that keeps a hook store.
pub trait UseEffectHook<V: 'static, C: FnOnce() + 'static>: HasHooks<V, C> {
    /// An effect hook; see [`HookStore::use_effect`](crate::hooks::HookStore::use_effect).
    fn use_effect<F: FnOnce() -> Option<C>, D: Dependency>(&mut self, effect: F, deps: &[D])
        requires
            cursor_is_effect(old(self).hooks_view()),
            effect_callable(old(self).hooks_view(), deps_of(deps@), effect),
        ensures
            final(self).callbacks_view() == old(self).callbacks_view(),
            effect_call(old(self).hooks_view(), final(self).hooks_view(), deps_of(deps@), effect),
    {
        self._hooks_storage_mut().use_effect(effect, deps)
    }

    /// Calls the cleanup kept by every effect, and forgets it; meant for when
    /// the component goes away.
    fn cleanup_effects(&mut self)
        ensures
            final(self).callbacks_view() == old(self).callbacks_view(),
            cleanups_cleared(old(self).hooks_view(), final(self).hooks_view()),
    {
        self._hooks_storage_mut().cleanup_effects()
    }
}

impl<V: 'static, C: FnOnce() + 'static, T: HasHooks<V, C>> UseEffectHook<V, C> for T {}

} // verus!
