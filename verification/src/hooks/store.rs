//! The hooks of one component, addressed by the order in which a render
//! calls them.

use vstd::prelude::*;
use crate::hooks::{Dependency, DepView, deps_of, spec_deps_changed};
use crate::hooks::hook_list::HookList;
use crate::hooks::use_effect::{UseEffect, EffectView, cleanup_callable, cleanup_ran};
use crate::hooks::use_memo::{UseMemo, MemoView};
use crate::hooks::use_ref::UseRef;
use crate::hooks::use_state::{UseState, StateView};

verus! {

/// One hook of a component.
pub enum Hook<V, C> {
    State(UseState<V>),
    Effect(UseEffect<C>),
    Memo(UseMemo<V>),
    Ref(UseRef<V>),
}

/// The contents of one hook.
pub enum HookView<V, C> {
    State(StateView<V>),
    Effect(EffectView<C>),
    Memo(MemoView<V>),
    Ref(V),
}

impl<V, C> View for Hook<V, C> {
    type V = HookView<V, C>;

    open spec fn view(&self) -> HookView<V, C> {
        match self {
            Hook::State(s) => HookView::State(s@),
            Hook::Effect(e) => HookView::Effect(e@),
            Hook::Memo(m) => HookView::Memo(m@),
            Hook::Ref(r) => HookView::Ref(r@),
        }
    }
}

/// The contents of a hook store: the hooks in call order, and the cursor.
pub struct StoreView<V, C> {
    pub hooks: Seq<HookView<V, C>>,
    pub index: nat,
}

/// A well-formed store: the cursor never passes the end of the hooks, and
/// every hook is well formed.
pub open spec fn store_wf<V, C: FnOnce()>(s: StoreView<V, C>) -> bool {
    &&& s.index <= s.hooks.len()
    &&& forall|i: int| 0 <= i < s.hooks.len() ==> hook_wf(#[trigger] s.hooks[i])
}

/// A well-formed hook: an effect keeps a cleanup that may be called, if any;
/// a memo that has computed holds its value.
pub open spec fn hook_wf<V, C: FnOnce()>(h: HookView<V, C>) -> bool {
    match h {
        HookView::Effect(e) => cleanup_callable(e.cleanup),
        HookView::Memo(m) => m.has_run ==> m.value is Some,
        _ => true,
    }
}

/// The store with the cursor moved past one existing hook.
pub open spec fn advance<V, C>(s: StoreView<V, C>) -> StoreView<V, C> {
    StoreView { hooks: s.hooks, index: s.index + 1 }
}

/// The store with the cursor moved back to `index`.
pub open spec fn rewind<V, C>(s: StoreView<V, C>, index: nat) -> StoreView<V, C> {
    StoreView { hooks: s.hooks, index }
}

/// The store with `hook` appended at the cursor, which is at the end.
pub open spec fn append<V, C>(s: StoreView<V, C>, hook: HookView<V, C>) -> StoreView<V, C> {
    StoreView { hooks: s.hooks.push(hook), index: s.index + 1 }
}

/// The store with the hook at the cursor replaced, and the cursor moved past it.
pub open spec fn replace_at_cursor<V, C>(s: StoreView<V, C>, hook: HookView<V, C>) -> StoreView<V, C> {
    StoreView { hooks: s.hooks.update(s.index as int, hook), index: s.index + 1 }
}

/// Whether the hook at the cursor, if there is one, is a state.
pub open spec fn cursor_is_state<V, C>(s: StoreView<V, C>) -> bool {
    s.index < s.hooks.len() ==> s.hooks[s.index as int] is State
}

/// Whether the hook at the cursor, if there is one, is an effect.
pub open spec fn cursor_is_effect<V, C>(s: StoreView<V, C>) -> bool {
    s.index < s.hooks.len() ==> s.hooks[s.index as int] is Effect
}

/// Whether the hook at the cursor, if there is one, is a memo.
pub open spec fn cursor_is_memo<V, C>(s: StoreView<V, C>) -> bool {
    s.index < s.hooks.len() ==> s.hooks[s.index as int] is Memo
}

/// Whether the hook at the cursor, if there is one, is a ref.
pub open spec fn cursor_is_ref<V, C>(s: StoreView<V, C>) -> bool {
    s.index < s.hooks.len() ==> s.hooks[s.index as int] is Ref
}

/// A state call: a new state holding `initial` at the end, or the existing
/// state at the cursor kept as it is.
pub open spec fn state_step<V, C>(s: StoreView<V, C>, initial: V) -> StoreView<V, C> {
    if s.index < s.hooks.len() {
        advance(s)
    } else {
        append(s, HookView::State(StateView { value: initial, version: 0 }))
    }
}

/// A ref call: a new ref holding `initial` at the end, or the existing ref kept.
pub open spec fn ref_step<V, C>(s: StoreView<V, C>, initial: V) -> StoreView<V, C> {
    if s.index < s.hooks.len() {
        advance(s)
    } else {
        append(s, HookView::Ref(initial))
    }
}

/// Whether a memo call with `deps` computes: for a new memo, or when the
/// memo at the cursor must be computed again.
pub open spec fn memo_computes<V, C>(s: StoreView<V, C>, deps: Seq<DepView>) -> bool {
    s.index < s.hooks.len() ==> match s.hooks[s.index as int] {
        HookView::Memo(m) => spec_deps_changed(m.has_run, m.deps, deps),
        _ => true,
    }
}

/// A memo call with `deps`, where `computed` is what the computation
/// returned if it ran.
pub open spec fn memo_step<V, C>(s: StoreView<V, C>, deps: Seq<DepView>, computed: V) -> StoreView<V, C> {
    let fresh = HookView::Memo(MemoView { value: Some(computed), deps, has_run: true });
    if s.index >= s.hooks.len() {
        append(s, fresh)
    } else if memo_computes(s, deps) {
        replace_at_cursor(s, fresh)
    } else {
        advance(s)
    }
}

/// Whether an effect call with `deps` runs the effect: for a new effect, or
/// when the effect at the cursor must run again.
pub open spec fn effect_runs<V, C>(s: StoreView<V, C>, deps: Seq<DepView>) -> bool {
    s.index < s.hooks.len() ==> match s.hooks[s.index as int] {
        HookView::Effect(e) => spec_deps_changed(e.has_run, e.deps, deps),
        _ => true,
    }
}

/// An effect call with `deps`, where `cleanup` is what the effect returned
/// if it ran.
pub open spec fn effect_step<V, C>(s: StoreView<V, C>, deps: Seq<DepView>, cleanup: Option<C>) -> StoreView<V, C> {
    let fresh = HookView::Effect(EffectView { deps, cleanup, has_run: true });
    if s.index >= s.hooks.len() {
        append(s, fresh)
    } else if effect_runs(s, deps) {
        replace_at_cursor(s, fresh)
    } else {
        advance(s)
    }
}

/// The cleanup left by the effect at the cursor, if there is one.
pub open spec fn cleanup_at_cursor<V, C>(s: StoreView<V, C>) -> Option<C> {
    if s.index < s.hooks.len() {
        match s.hooks[s.index as int] {
            HookView::Effect(e) => e.cleanup,
            _ => None,
        }
    } else {
        None
    }
}

/// A hook with its cleanup, if it is an effect, dropped.
pub open spec fn without_cleanup<V, C>(h: HookView<V, C>) -> HookView<V, C> {
    match h {
        HookView::Effect(e) => HookView::Effect(EffectView { cleanup: None, ..e }),
        _ => h,
    }
}

/// What a state call does to the store `pre`, giving `post`: it moves past
/// the existing state at the cursor, or appends a state holding what
/// `initial` returned.
pub open spec fn state_call<V, C, F: FnOnce() -> V>(pre: StoreView<V, C>, post: StoreView<V, C>, initial: F) -> bool {
    &&& pre.index < pre.hooks.len() ==> post == advance(pre)
    &&& pre.index >= pre.hooks.len() ==> exists|v: V|
        call_ensures(initial, (), v) && post == state_step(pre, v)
}

/// What a ref call does to the store `pre`, giving `post`: it moves past the
/// existing ref at the cursor, or appends a ref holding what `initial` returned.
pub open spec fn ref_call<V, C, F: FnOnce() -> V>(pre: StoreView<V, C>, post: StoreView<V, C>, initial: F) -> bool {
    &&& pre.index < pre.hooks.len() ==> post == advance(pre)
    &&& pre.index >= pre.hooks.len() ==> exists|v: V|
        call_ensures(initial, (), v) && post == ref_step(pre, v)
}

/// What a memo call with `deps` does to the store `pre`, giving `post`:
/// when the memo computes, it holds what `compute` returned; otherwise the
/// call only moves past the memo.
pub open spec fn memo_call<V, C, F: FnOnce() -> V>(
    pre: StoreView<V, C>,
    post: StoreView<V, C>,
    deps: Seq<DepView>,
    compute: F,
) -> bool {
    &&& !memo_computes(pre, deps) ==> post == advance(pre)
    &&& memo_computes(pre, deps) ==> exists|v: V|
        call_ensures(compute, (), v) && post == memo_step(pre, deps, v)
}

/// What an effect call with `deps` does to the store `pre`, giving `post`:
/// when the effect runs, the cleanup of its last run has been called, and
/// the effect keeps the cleanup `effect` returned; otherwise the call only
/// moves past the effect.
pub open spec fn effect_call<V, C: FnOnce(), F: FnOnce() -> Option<C>>(
    pre: StoreView<V, C>,
    post: StoreView<V, C>,
    deps: Seq<DepView>,
    effect: F,
) -> bool {
    &&& !effect_runs(pre, deps) ==> post == advance(pre)
    &&& effect_runs(pre, deps) ==> cleanup_ran(cleanup_at_cursor(pre))
    &&& effect_runs(pre, deps) ==> exists|r: Option<C>|
        call_ensures(effect, (), r) && post == effect_step(pre, deps, r)
}

/// The closure `initial` of a state or ref call may be called only when
/// the call makes a new hook: the cursor stands at the end of the store.
pub open spec fn initial_called_only_for_new_hook<V, C, F: FnOnce() -> V>(pre: StoreView<V, C>, initial: F) -> bool {
    pre.index >= pre.hooks.len() ==> call_requires(initial, ())
}

/// The computation of a memo call with `deps` may be called only when the
/// memo computes: it is new, or its dependencies changed.
pub open spec fn compute_called_only_when_computing<V, C, F: FnOnce() -> V>(
    pre: StoreView<V, C>,
    deps: Seq<DepView>,
    compute: F,
) -> bool {
    memo_computes(pre, deps) ==> call_requires(compute, ())
}

/// The effect of an effect call with `deps` may be called only when the
/// effect runs (it is new, or its dependencies changed), and only after the
/// cleanup of its last run, if any, has been called and returned; a cleanup
/// it returns may be called.
pub open spec fn effect_callable<V, C: FnOnce(), F: FnOnce() -> Option<C>>(
    pre: StoreView<V, C>,
    deps: Seq<DepView>,
    effect: F,
) -> bool {
    &&& (effect_runs(pre, deps) && cleanup_ran(cleanup_at_cursor(pre))) ==> call_requires(effect, ())
    &&& forall|r: Option<C>| call_ensures(effect, (), r) ==> cleanup_callable(r)
}

/// What clearing the cleanups does to the store `pre`, giving `post`: every
/// cleanup kept has been called, and no effect keeps one.
pub open spec fn cleanups_cleared<V, C: FnOnce()>(pre: StoreView<V, C>, post: StoreView<V, C>) -> bool {
    &&& post.index == pre.index
    &&& post.hooks == pre.hooks.map_values(|h: HookView<V, C>| without_cleanup(h))
    &&& forall|i: int| 0 <= i < pre.hooks.len() ==>
        (#[trigger] pre.hooks[i] matches HookView::Effect(e) ==> cleanup_ran(e.cleanup))
}

/// The store with the state at `h` set to `value`, one version later.
pub open spec fn set_state_step<V, C>(s: StoreView<V, C>, h: int, value: V) -> StoreView<V, C> {
    let old_version = s.hooks[h]->State_0.version;
    StoreView {
        hooks: s.hooks.update(h, HookView::State(StateView { value, version: old_version + 1 })),
        index: s.index,
    }
}

/// The hooks of a component and the position of the next hook call; always
/// well formed.
pub struct HookStore<V, C: FnOnce(), E: crate::Hook> {
    list: HookList<V, C>,
    callbacks: Vec<E>,
}

impl<V, C: FnOnce(), E: crate::Hook> View for HookStore<V, C, E> {
    type V = StoreView<V, C>;

    closed spec fn view(&self) -> StoreView<V, C> {
        self.list@
    }
}

impl<V, C: FnOnce(), E: crate::Hook> Default for HookStore<V, C, E> {
    /// A store with no hooks and no callbacks, its cursor at the start.
    fn default() -> (s: Self)
        ensures
            s@.hooks == Seq::<HookView<V, C>>::empty(),
            s@.index == 0,
            s.registered() == Seq::<E>::empty(),
    {
        Self::new()
    }
}

impl<V, C: FnOnce(), E: crate::Hook> HookStore<V, C, E> {
    #[verifier::type_invariant]
    closed spec fn inv(self) -> bool {
        &&& self.list.wf()
        &&& forall|i: int| 0 <= i < self.callbacks@.len() ==> (#[trigger] self.callbacks@[i]).ready()
    }

    /// The callbacks registered on the component, in registration order.
    pub closed spec fn registered(&self) -> Seq<E> {
        self.callbacks@
    }

    /// A store with no hooks and no callbacks, its cursor at the start.
    pub fn new() -> (s: Self)
        ensures
            s@.hooks == Seq::<HookView<V, C>>::empty(),
            s@.index == 0,
            s.registered() == Seq::<E>::empty(),
    {
        HookStore { list: HookList::new(), callbacks: Vec::new() }
    }

    /// Registers a callback, run before each render; the hooks do not change.
    pub fn register(&mut self, callback: E)
        requires
            callback.ready(),
        ensures
            final(self)@ == old(self)@,
            final(self).registered() == old(self).registered().push(callback),
    {
        proof {
            use_type_invariant(&*self);
        }
        let mut callbacks = Vec::new();
        std::mem::swap(&mut self.callbacks, &mut callbacks);
        callbacks.push(callback);
        proof {
            assert forall|i: int| 0 <= i < callbacks@.len() implies (#[trigger] callbacks@[i]).ready() by {
                if i < old(self).registered().len() {
                    assert(callbacks@[i] == old(self).registered()[i]);
                }
            }
        }
        self.callbacks = callbacks;
    }

    /// The callbacks registered, in registration order.
    pub fn callbacks(&self) -> (r: &[E])
        ensures
            r@ == self.registered(),
    {
        self.callbacks.as_slice()
    }

    /// Runs every registered callback once, in registration order.
    pub fn run_callbacks(&self)
        ensures
            forall|i: int| 0 <= i < self.registered().len() ==> (#[trigger] self.registered()[i]).ran(),
    {
        proof {
            use_type_invariant(self);
        }
        let n = self.callbacks.len();
        let mut i: usize = 0;
        while i < n
            invariant
                n == self.registered().len(),
                i <= n,
                forall|j: int| 0 <= j < self.registered().len() ==> (#[trigger] self.registered()[j]).ready(),
                forall|j: int| 0 <= j < i ==> (#[trigger] self.registered()[j]).ran(),
            decreases n - i,
        {
            self.callbacks[i].execute();
            i = i + 1;
        }
    }

    /// Every store is well formed.
    pub fn check_wf(&self)
        ensures
            store_wf(self@),
    {
        proof {
            use_type_invariant(self);
        }
    }

    /// Takes the hooks out for a change, leaving an empty store behind.
    fn take_list(&mut self) -> (list: HookList<V, C>)
        ensures
            list@ == old(self)@,
            list.wf(),
            final(self).registered() == old(self).registered(),
            forall|i: int| 0 <= i < final(self).registered().len()
                ==> (#[trigger] final(self).registered()[i]).ready(),
    {
        proof {
            use_type_invariant(&*self);
        }
        let mut list = HookList::new();
        std::mem::swap(&mut self.list, &mut list);
        list
    }

    /// The number of hooks kept.
    pub fn len(&self) -> (r: usize)
        ensures
            r == self@.hooks.len(),
    {
        self.list.len()
    }

    /// The position of the next hook call.
    pub fn hook_index(&self) -> (r: usize)
        ensures
            r == self@.index,
    {
        self.list.hook_index()
    }

    /// Moves the cursor back to the first hook.
    pub(crate) fn rewind_cursor(&mut self)
        ensures
            final(self).registered() == old(self).registered(),
            final(self)@ == rewind(old(self)@, 0),
    {
        let mut list = self.take_list();
        list.rewind_cursor();
        self.list = list;
    }

    /// A state hook: on the first render the state holds what `initial`
    /// returns; later renders keep its value. Returns the position of the
    /// state, by which it is read and set.
    pub fn use_state<F: FnOnce() -> V>(&mut self, initial: F) -> (h: usize)
        requires
            cursor_is_state(old(self)@),
            initial_called_only_for_new_hook(old(self)@, initial),
        ensures
            final(self).registered() == old(self).registered(),
            h == old(self)@.index,
            state_call(old(self)@, final(self)@, initial),
            h < final(self)@.hooks.len(),
            final(self)@.hooks[h as int] is State,
    {
        let mut list = self.take_list();
        let h = list.use_state(initial);
        self.list = list;
        h
    }

    /// A memo hook: `compute` runs on the first render, and on a later one
    /// when `deps` differ from those of the last computation; otherwise the
    /// value computed before is kept. Returns the position of the memo, by
    /// which its value is read.
    pub fn use_memo<F: FnOnce() -> V, D: Dependency>(&mut self, compute: F, deps: &[D]) -> (h: usize)
        requires
            cursor_is_memo(old(self)@),
            compute_called_only_when_computing(old(self)@, deps_of(deps@), compute),
        ensures
            final(self).registered() == old(self).registered(),
            h == old(self)@.index,
            memo_call(old(self)@, final(self)@, deps_of(deps@), compute),
            h < final(self)@.hooks.len(),
            final(self)@.hooks[h as int] is Memo,
            final(self)@.hooks[h as int]->Memo_0.value is Some,
    {
        let mut list = self.take_list();
        let h = list.use_memo(compute, deps);
        self.list = list;
        h
    }

    /// An effect hook: `effect` runs on the first render, and on a later one
    /// when `deps` differ from those of its last run; before it runs again,
    /// the cleanup its last run returned, if any, is called. The cleanup
    /// `effect` returns is kept for the next run or for `cleanup_effects`.
    pub fn use_effect<F: FnOnce() -> Option<C>, D: Dependency>(&mut self, effect: F, deps: &[D])
        requires
            cursor_is_effect(old(self)@),
            effect_callable(old(self)@, deps_of(deps@), effect),
        ensures
            final(self).registered() == old(self).registered(),
            effect_call(old(self)@, final(self)@, deps_of(deps@), effect),
    {
        let mut list = self.take_list();
        list.use_effect(effect, deps);
        self.list = list;
    }

    /// Calls the cleanup kept by every effect, and forgets it; meant for when
    /// the component goes away.
    pub fn cleanup_effects(&mut self)
        ensures
            final(self).registered() == old(self).registered(),
            cleanups_cleared(old(self)@, final(self)@),
    {
        let mut list = self.take_list();
        list.cleanup_effects();
        self.list = list;
    }

    /// A ref hook: on the first render the ref holds what `initial` returns;
    /// later renders keep its value. Returns the position of the ref, by
    /// which it is read and written.
    pub fn use_ref<F: FnOnce() -> V>(&mut self, initial: F) -> (h: usize)
        requires
            cursor_is_ref(old(self)@),
            initial_called_only_for_new_hook(old(self)@, initial),
        ensures
            final(self).registered() == old(self).registered(),
            h == old(self)@.index,
            ref_call(old(self)@, final(self)@, initial),
            h < final(self)@.hooks.len(),
            final(self)@.hooks[h as int] is Ref,
    {
        let mut list = self.take_list();
        let h = list.use_ref(initial);
        self.list = list;
        h
    }

    /// The current value of the state at `h`.
    pub fn state(&self, h: usize) -> (r: &V)
        requires
            h < self@.hooks.len(),
            self@.hooks[h as int] is State,
        ensures
            *r == self@.hooks[h as int]->State_0.value,
    {
        self.list.state(h)
    }

    /// The number of times the state at `h` was set.
    pub fn state_version(&self, h: usize) -> (r: usize)
        requires
            h < self@.hooks.len(),
            self@.hooks[h as int] is State,
        ensures
            r == self@.hooks[h as int]->State_0.version,
    {
        self.list.state_version(h)
    }

    /// Sets the state at `h` to `value`, one version later.
    pub fn set_state(&mut self, h: usize, value: V)
        requires
            h < old(self)@.hooks.len(),
            old(self)@.hooks[h as int] is State,
            old(self)@.hooks[h as int]->State_0.version < usize::MAX,
        ensures
            final(self).registered() == old(self).registered(),
            final(self)@ == set_state_step(old(self)@, h as int, value),
    {
        let mut list = self.take_list();
        list.set_state(h, value);
        self.list = list;
    }

    /// The value of the memo at `h`.
    pub fn memo(&self, h: usize) -> (r: &V)
        requires
            h < self@.hooks.len(),
            self@.hooks[h as int] is Memo,
            self@.hooks[h as int]->Memo_0.value is Some,
        ensures
            Some(*r) == self@.hooks[h as int]->Memo_0.value,
    {
        self.list.memo(h)
    }

    /// The value of the ref at `h`.
    pub fn ref_value(&self, h: usize) -> (r: &V)
        requires
            h < self@.hooks.len(),
            self@.hooks[h as int] is Ref,
        ensures
            *r == self@.hooks[h as int]->Ref_0,
    {
        self.list.ref_value(h)
    }

    /// Replaces the value of the ref at `h`, with no new render asked for.
    pub fn set_ref(&mut self, h: usize, value: V)
        requires
            h < old(self)@.hooks.len(),
            old(self)@.hooks[h as int] is Ref,
        ensures
            final(self).registered() == old(self).registered(),
            final(self)@ == (StoreView {
                hooks: old(self)@.hooks.update(h as int, HookView::Ref(value)),
                index: old(self)@.index,
            }),
    {
        let mut list = self.take_list();
        list.set_ref(h, value);
        self.list = list;
    }
}

} // verus!
