//! The hooks of one component in call order, with the cursor of the next
//! hook call: the storage behind a hook store.

use vstd::prelude::*;
use crate::hooks::{Dependency, collect_deps, deps_of};
use crate::hooks::use_effect::{UseEffect, EffectView, cleanup_ran};
use crate::hooks::use_memo::{UseMemo, MemoView};
use crate::hooks::use_ref::UseRef;
use crate::hooks::use_state::{UseState, StateView};
use crate::hooks::store::{
    Hook, HookView, StoreView, store_wf, hook_wf, advance, rewind, append, state_step, ref_step,
    memo_step, effect_step, cursor_is_state, cursor_is_memo, cursor_is_effect, cursor_is_ref,
    state_call, ref_call, memo_call, effect_call, effect_callable, cleanups_cleared,
    initial_called_only_for_new_hook, compute_called_only_when_computing,
    without_cleanup, set_state_step,
};

verus! {

/// The hooks of a component and the position of the next hook call.
pub(crate) struct HookList<V, C> {
    hooks: Vec<Hook<V, C>>,
    index: usize,
}

impl<V, C> View for HookList<V, C> {
    type V = StoreView<V, C>;

    closed spec fn view(&self) -> StoreView<V, C> {
        StoreView { hooks: self.hooks@.map_values(|h: Hook<V, C>| h@), index: self.index as nat }
    }
}

impl<V, C> HookList<V, C> {
    /// Moves the cursor back to the first hook.
    pub(crate) fn rewind_cursor(&mut self)
        ensures
            final(self)@ == rewind(old(self)@, 0),
    {
        self.index = 0;
    }

}

impl<V, C: FnOnce()> HookList<V, C> {
    /// Whether the store is well formed.
    pub(crate) open spec fn wf(&self) -> bool {
        store_wf(self@)
    }

    /// A store with no hooks, its cursor at the start.
    pub(crate) fn new() -> (s: Self)
        ensures
            s@.hooks == Seq::<HookView<V, C>>::empty(),
            s@.index == 0,
            s.wf(),
    {
        let s = HookList { hooks: Vec::new(), index: 0 };
        assert(s@.hooks =~= Seq::<HookView<V, C>>::empty());
        s
    }

    /// The number of hooks kept.
    pub(crate) fn len(&self) -> (r: usize)
        ensures
            r == self@.hooks.len(),
    {
        self.hooks.len()
    }

    /// The position of the next hook call.
    pub(crate) fn hook_index(&self) -> (r: usize)
        ensures
            r == self@.index,
    {
        self.index
    }

    /// Moves the cursor past the hook it stands on.
    fn step_existing(&mut self)
        requires
            old(self).wf(),
            old(self)@.index < old(self)@.hooks.len(),
        ensures
            final(self)@ == advance(old(self)@),
            final(self).wf(),
    {
        let n = self.hooks.len();
        proof {
            assert(self.index < n);
        }
        self.index = self.index + 1;
    }

    /// Appends a hook at the cursor, which stands at the end, and moves past it.
    fn append_hook(&mut self, hook: Hook<V, C>)
        requires
            old(self).wf(),
            old(self)@.index == old(self)@.hooks.len(),
            hook_wf(hook@),
        ensures
            final(self)@ == append(old(self)@, hook@),
            final(self).wf(),
    {
        self.hooks.push(hook);
        let n = self.hooks.len();
        self.index = n;
        assert(self@.hooks =~= old(self)@.hooks.push(hook@));
    }

    /// A state hook: on the first render the state holds what `initial`
    /// returns; later renders keep its value. Returns the position of the
    /// state, by which it is read and set.
    pub(crate) fn use_state<F: FnOnce() -> V>(&mut self, initial: F) -> (h: usize)
        requires
            old(self).wf(),
            cursor_is_state(old(self)@),
            initial_called_only_for_new_hook(old(self)@, initial),
        ensures
            h == old(self)@.index,
            final(self).wf(),
            state_call(old(self)@, final(self)@, initial),
            h < final(self)@.hooks.len(),
            final(self)@.hooks[h as int] is State,
    {
        let idx = self.index;
        if idx < self.hooks.len() {
            self.step_existing();
        } else {
            let v = initial();
            self.append_hook(Hook::State(UseState::new(v)));
            assert(final(self)@ == state_step(old(self)@, v));
        }
        idx
    }

    /// A memo hook: `compute` runs on the first render, and on a later one
    /// when `deps` differ from those of the last computation; otherwise the
    /// value computed before is kept. Returns the position of the memo, by
    /// which its value is read.
    pub(crate) fn use_memo<F: FnOnce() -> V, D: Dependency>(&mut self, compute: F, deps: &[D]) -> (h: usize)
        requires
            old(self).wf(),
            cursor_is_memo(old(self)@),
            compute_called_only_when_computing(old(self)@, deps_of(deps@), compute),
        ensures
            h == old(self)@.index,
            final(self).wf(),
            memo_call(old(self)@, final(self)@, deps_of(deps@), compute),
            h < final(self)@.hooks.len(),
            final(self)@.hooks[h as int] is Memo,
            final(self)@.hooks[h as int]->Memo_0.value is Some,
    {
        let idx = self.index;
        let new_deps = collect_deps(deps);
        if idx < self.hooks.len() {
            let changed = match &self.hooks[idx] {
                Hook::Memo(m) => m.deps_changed(new_deps.as_slice()),
                _ => true,
            };
            if changed {
                let v = compute();
                let ghost gv = v;
                let ghost old_hooks = self.hooks@;
                match &mut self.hooks[idx] {
                    Hook::Memo(m) => m.update(v, new_deps),
                    _ => {},
                }
                self.index = idx + 1;
                proof {
                    assert(self.hooks@ =~= old_hooks.update(idx as int, self.hooks@[idx as int]));
                    assert(self@.hooks =~= old(self)@.hooks.update(
                        idx as int,
                        HookView::Memo(MemoView { value: Some(gv), deps: deps_of(deps@), has_run: true }),
                    ));
                    assert(final(self)@ == memo_step(old(self)@, deps_of(deps@), gv));
                }
            } else {
                self.step_existing();
            }
        } else {
            let v = compute();
            let ghost gv = v;
            let mut memo = UseMemo::new(collect_deps(deps));
            memo.update(v, new_deps);
            self.append_hook(Hook::Memo(memo));
            assert(final(self)@ == memo_step(old(self)@, deps_of(deps@), gv));
        }
        idx
    }

    /// An effect hook: `effect` runs on the first render, and on a later one
    /// when `deps` differ from those of its last run; before it runs again,
    /// the cleanup its last run returned, if any, is called. The cleanup
    /// `effect` returns is kept for the next run or for `cleanup_effects`.
    pub(crate) fn use_effect<F: FnOnce() -> Option<C>, D: Dependency>(&mut self, effect: F, deps: &[D])
        requires
            old(self).wf(),
            cursor_is_effect(old(self)@),
            effect_callable(old(self)@, deps_of(deps@), effect),
        ensures
            final(self).wf(),
            effect_call(old(self)@, final(self)@, deps_of(deps@), effect),
    {
        let idx = self.index;
        let new_deps = collect_deps(deps);
        if idx < self.hooks.len() {
            let changed = match &self.hooks[idx] {
                Hook::Effect(e) => e.deps_changed(new_deps.as_slice()),
                _ => true,
            };
            if changed {
                let ghost old_hooks = self.hooks@;
                let ghost mut gr: Option<C> = None;
                proof {
                    assert(hook_wf(old(self)@.hooks[idx as int]));
                }
                match &mut self.hooks[idx] {
                    Hook::Effect(e) => {
                        e.run_cleanup();
                        e.update_deps(new_deps);
                        let r = effect();
                        proof {
                            gr = r;
                        }
                        match r {
                            Some(cleanup) => e.set_cleanup(cleanup),
                            None => {},
                        }
                        e.mark_run();
                    },
                    _ => {},
                }
                self.index = idx + 1;
                proof {
                    assert(self.hooks@ =~= old_hooks.update(idx as int, self.hooks@[idx as int]));
                    assert(self@.hooks =~= old(self)@.hooks.update(
                        idx as int,
                        HookView::Effect(EffectView { deps: deps_of(deps@), cleanup: gr, has_run: true }),
                    ));
                    assert(final(self)@ == effect_step(old(self)@, deps_of(deps@), gr));
                    assert forall|i: int| 0 <= i < final(self)@.hooks.len() implies
                        hook_wf(#[trigger] final(self)@.hooks[i]) by {
                        if i != idx {
                            assert(hook_wf(old(self)@.hooks[i]));
                        }
                    }
                }
            } else {
                self.step_existing();
            }
        } else {
            let mut e: UseEffect<C> = UseEffect::new(new_deps);
            let r = effect();
            let ghost gr = r;
            match r {
                Some(cleanup) => e.set_cleanup(cleanup),
                None => {},
            }
            e.mark_run();
            self.append_hook(Hook::Effect(e));
            assert(final(self)@ == effect_step(old(self)@, deps_of(deps@), gr));
        }
    }

    /// Calls the cleanup kept by every effect, and forgets it; meant for when
    /// the component goes away.
    pub(crate) fn cleanup_effects(&mut self)
        requires
            old(self).wf(),
        ensures
            final(self).wf(),
            cleanups_cleared(old(self)@, final(self)@),
    {
        let n = self.hooks.len();
        let mut i: usize = 0;
        while i < n
            invariant
                n == self.hooks@.len(),
                n == old(self)@.hooks.len(),
                i <= n,
                self.index == old(self).index,
                store_wf(old(self)@),
                forall|j: int| 0 <= j < i ==> #[trigger] self@.hooks[j] == without_cleanup(old(self)@.hooks[j]),
                forall|j: int| i <= j < n ==> #[trigger] self@.hooks[j] == old(self)@.hooks[j],
                forall|j: int| 0 <= j < i ==>
                    (#[trigger] old(self)@.hooks[j] matches HookView::Effect(e) ==> cleanup_ran(e.cleanup)),
            decreases n - i,
        {
            let ghost before = self.hooks@;
            let ghost before_v = self@.hooks;
            proof {
                assert(self@.hooks[i as int] == old(self)@.hooks[i as int]);
                assert(hook_wf(old(self)@.hooks[i as int]));
            }
            match &mut self.hooks[i] {
                Hook::Effect(e) => e.run_cleanup(),
                _ => {},
            }
            proof {
                assert(self.hooks@ =~= before.update(i as int, self.hooks@[i as int]));
                assert(self@.hooks[i as int] == without_cleanup(old(self)@.hooks[i as int]));
                assert(self@.hooks =~= before_v.update(i as int, without_cleanup(old(self)@.hooks[i as int])));
            }
            i = i + 1;
        }
        proof {
            assert(final(self)@.hooks =~= old(self)@.hooks.map_values(|h: HookView<V, C>| without_cleanup(h)));
            assert forall|j: int| 0 <= j < final(self)@.hooks.len() implies
                hook_wf(#[trigger] final(self)@.hooks[j]) by {
                assert(final(self)@.hooks[j] == without_cleanup(old(self)@.hooks[j]));
            }
        }
    }
    /// A ref hook: on the first render the ref holds what `initial` returns;
    /// later renders keep its value. Returns the position of the ref, by
    /// which it is read and written.
    pub(crate) fn use_ref<F: FnOnce() -> V>(&mut self, initial: F) -> (h: usize)
        requires
            old(self).wf(),
            cursor_is_ref(old(self)@),
            initial_called_only_for_new_hook(old(self)@, initial),
        ensures
            h == old(self)@.index,
            final(self).wf(),
            ref_call(old(self)@, final(self)@, initial),
            h < final(self)@.hooks.len(),
            final(self)@.hooks[h as int] is Ref,
    {
        let idx = self.index;
        if idx < self.hooks.len() {
            self.step_existing();
        } else {
            let v = initial();
            self.append_hook(Hook::Ref(UseRef::new(v)));
            assert(final(self)@ == ref_step(old(self)@, v));
        }
        idx
    }

    /// The current value of the state at `h`.
    pub(crate) fn state(&self, h: usize) -> (r: &V)
        requires
            h < self@.hooks.len(),
            self@.hooks[h as int] is State,
        ensures
            *r == self@.hooks[h as int]->State_0.value,
    {
        match &self.hooks[h] {
            Hook::State(s) => s.get(),
            _ => vstd::pervasive::unreached(),
        }
    }

    /// The number of times the state at `h` was set.
    pub(crate) fn state_version(&self, h: usize) -> (r: usize)
        requires
            h < self@.hooks.len(),
            self@.hooks[h as int] is State,
        ensures
            r == self@.hooks[h as int]->State_0.version,
    {
        match &self.hooks[h] {
            Hook::State(s) => s.version(),
            _ => vstd::pervasive::unreached(),
        }
    }

    /// Sets the state at `h` to `value`, one version later.
    pub(crate) fn set_state(&mut self, h: usize, value: V)
        requires
            old(self).wf(),
            h < old(self)@.hooks.len(),
            old(self)@.hooks[h as int] is State,
            old(self)@.hooks[h as int]->State_0.version < usize::MAX,
        ensures
            final(self).wf(),
            final(self)@ == set_state_step(old(self)@, h as int, value),
    {
        let ghost old_hooks = self.hooks@;
        match &mut self.hooks[h] {
            Hook::State(s) => s.set(value),
            _ => {},
        }
        proof {
            assert(self.hooks@ =~= old_hooks.update(h as int, self.hooks@[h as int]));
            assert(self@.hooks =~= set_state_step(old(self)@, h as int, value).hooks);
            assert forall|i: int| 0 <= i < self@.hooks.len() implies
                hook_wf(#[trigger] self@.hooks[i]) by {
                if i != h {
                    assert(hook_wf(old(self)@.hooks[i]));
                }
            }
        }
    }

    /// The value of the memo at `h`.
    pub(crate) fn memo(&self, h: usize) -> (r: &V)
        requires
            h < self@.hooks.len(),
            self@.hooks[h as int] is Memo,
            self@.hooks[h as int]->Memo_0.value is Some,
        ensures
            Some(*r) == self@.hooks[h as int]->Memo_0.value,
    {
        match &self.hooks[h] {
            Hook::Memo(m) => match m.get() {
                Some(v) => v,
                None => vstd::pervasive::unreached(),
            },
            _ => vstd::pervasive::unreached(),
        }
    }

    /// The value of the ref at `h`.
    pub(crate) fn ref_value(&self, h: usize) -> (r: &V)
        requires
            h < self@.hooks.len(),
            self@.hooks[h as int] is Ref,
        ensures
            *r == self@.hooks[h as int]->Ref_0,
    {
        match &self.hooks[h] {
            Hook::Ref(r) => r.get_ref(),
            _ => vstd::pervasive::unreached(),
        }
    }

    /// Replaces the value of the ref at `h`, with no new render asked for.
    pub(crate) fn set_ref(&mut self, h: usize, value: V)
        requires
            old(self).wf(),
            h < old(self)@.hooks.len(),
            old(self)@.hooks[h as int] is Ref,
        ensures
            final(self).wf(),
            final(self)@ == (StoreView {
                hooks: old(self)@.hooks.update(h as int, HookView::Ref(value)),
                index: old(self)@.index,
            }),
    {
        let ghost old_hooks = self.hooks@;
        match &mut self.hooks[h] {
            Hook::Ref(r) => {
                let cell = r.get_ref_mut();
                *cell = value;
            },
            _ => {},
        }
        proof {
            assert(self.hooks@ =~= old_hooks.update(h as int, self.hooks@[h as int]));
            assert(self@.hooks =~= old(self)@.hooks.update(h as int, HookView::Ref(value)));
            assert forall|i: int| 0 <= i < self@.hooks.len() implies
                hook_wf(#[trigger] self@.hooks[i]) by {
                if i != h {
                    assert(hook_wf(old(self)@.hooks[i]));
                }
            }
        }
    }
}

} // verus!
