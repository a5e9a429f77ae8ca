//! What holds of the hooks across calls and renders.

use vstd::prelude::*;
use crate::hooks::{DepView, spec_deps_changed};
use crate::hooks::store::{
    HookView, StoreView, advance, rewind, state_step, ref_step, memo_step, memo_computes,
    effect_step, effect_runs, set_state_step, without_cleanup, cursor_is_effect, cursor_is_memo,
    cleanup_at_cursor,
};
use crate::hooks::use_state::{StateView, state_set, state_modify};
use crate::hooks::use_effect::EffectView;
use crate::hooks::use_memo::{MemoView, memo_update};
use crate::hooks::Dependency;

verus! {

/// A memo or an effect must run when it never ran; once it ran, exactly
/// when the dependencies differ from those of its last run.
pub proof fn lemma_deps_decide_rerun(recorded: Seq<DepView>, deps: Seq<DepView>)
    ensures
        spec_deps_changed(false, recorded, deps),
        !spec_deps_changed(true, deps, deps),
        recorded != deps ==> spec_deps_changed(true, recorded, deps),
{
}

/// Every hook call addresses the hook at the cursor and moves the cursor by
/// one: after a reset, the n-th call of a render addresses hook n, whatever
/// the call and whatever its outcome.
pub proof fn lemma_calls_advance_cursor<V, C>(
    s: StoreView<V, C>,
    value: V,
    deps: Seq<DepView>,
    cleanup: Option<C>,
)
    requires
        s.index <= s.hooks.len(),
    ensures
        state_step(s, value).index == s.index + 1,
        ref_step(s, value).index == s.index + 1,
        memo_step(s, deps, value).index == s.index + 1,
        effect_step(s, deps, cleanup).index == s.index + 1,
        state_step(s, value).index <= state_step(s, value).hooks.len(),
        ref_step(s, value).index <= ref_step(s, value).hooks.len(),
        memo_step(s, deps, value).index <= memo_step(s, deps, value).hooks.len(),
        effect_step(s, deps, cleanup).index <= effect_step(s, deps, cleanup).hooks.len(),
{
}

/// A hook call on a hook that exists never adds a hook: a render that calls
/// the hooks of an earlier render in the same order reuses them.
pub proof fn lemma_existing_hooks_are_reused<V, C>(
    s: StoreView<V, C>,
    value: V,
    deps: Seq<DepView>,
    cleanup: Option<C>,
)
    requires
        s.index < s.hooks.len(),
    ensures
        state_step(s, value).hooks == s.hooks,
        ref_step(s, value).hooks == s.hooks,
        memo_step(s, deps, value).hooks.len() == s.hooks.len(),
        effect_step(s, deps, cleanup).hooks.len() == s.hooks.len(),
{
}

/// The initial value of a state counts only on the first render: when a
/// later render reaches the state again, its value is the one it holds.
pub proof fn lemma_state_kept_across_renders<V, C>(s: StoreView<V, C>, h: nat, initial: V)
    requires
        h < s.hooks.len(),
        s.hooks[h as int] is State,
    ensures
        state_step(rewind(s, h), initial).hooks == s.hooks,
{
}

/// A value set on a state is what the state holds when the next render
/// reaches it, one version later than before the set.
pub proof fn lemma_set_state_seen_next_render<V, C>(
    s: StoreView<V, C>,
    h: nat,
    value: V,
    initial: V,
)
    requires
        h < s.hooks.len(),
        s.hooks[h as int] is State,
    ensures
        ({
            let after = state_step(rewind(set_state_step(s, h as int, value), h), initial);
            after.hooks[h as int] == HookView::<V, C>::State(
                StateView { value, version: s.hooks[h as int]->State_0.version + 1 },
            )
        }),
{
}

/// An effect does not run again on a render whose dependencies equal those
/// of the render before: the second call only moves the cursor.
pub proof fn lemma_effect_skipped_for_same_deps<V, C>(
    s: StoreView<V, C>,
    deps: Seq<DepView>,
    first: Option<C>,
    second: Option<C>,
)
    requires
        s.index <= s.hooks.len(),
        cursor_is_effect(s),
    ensures
        ({
            let again = rewind(effect_step(s, deps, first), s.index);
            &&& !effect_runs(again, deps)
            &&& effect_step(again, deps, second) == advance(again)
        }),
{
}

/// An effect runs again on a render whose dependencies differ from those
/// of the render before.
pub proof fn lemma_effect_reruns_for_new_deps<V, C>(
    s: StoreView<V, C>,
    deps: Seq<DepView>,
    new_deps: Seq<DepView>,
    first: Option<C>,
)
    requires
        s.index <= s.hooks.len(),
        cursor_is_effect(s),
        effect_runs(s, deps),
        deps != new_deps,
    ensures
        effect_runs(rewind(effect_step(s, deps, first), s.index), new_deps),
{
}

/// A memo is not computed again on a render whose dependencies equal those
/// of the render before, and keeps its value.
pub proof fn lemma_memo_kept_for_same_deps<V, C>(
    s: StoreView<V, C>,
    deps: Seq<DepView>,
    first: V,
    second: V,
)
    requires
        s.index <= s.hooks.len(),
        cursor_is_memo(s),
    ensures
        ({
            let again = rewind(memo_step(s, deps, first), s.index);
            &&& !memo_computes(again, deps)
            &&& memo_step(again, deps, second) == advance(again)
        }),
{
}

/// A memo is computed again, and holds the new value, on a render whose
/// dependencies differ from those of the render before.
pub proof fn lemma_memo_recomputed_for_new_deps<V, C>(
    s: StoreView<V, C>,
    deps: Seq<DepView>,
    new_deps: Seq<DepView>,
    first: V,
    second: V,
)
    requires
        s.index <= s.hooks.len(),
        cursor_is_memo(s),
        memo_computes(s, deps),
        deps != new_deps,
    ensures
        ({
            let again = rewind(memo_step(s, deps, first), s.index);
            &&& memo_computes(again, new_deps)
            &&& memo_step(again, new_deps, second).hooks[s.index as int]->Memo_0.value == Some(second)
        }),
{
}

/// A cleanup is called at most once: once the cleanups are cleared, no
/// effect keeps one, and clearing again changes nothing.
pub proof fn lemma_cleanup_runs_once<V, C>(hooks: Seq<HookView<V, C>>)
    ensures
        ({
            let cleared = hooks.map_values(|h: HookView<V, C>| without_cleanup(h));
            &&& cleared.map_values(|h: HookView<V, C>| without_cleanup(h)) == cleared
            &&& forall|i: int| 0 <= i < cleared.len() ==>
                (#[trigger] cleared[i] matches HookView::Effect(e) ==> e.cleanup is None)
        }),
{
    let cleared = hooks.map_values(|h: HookView<V, C>| without_cleanup(h));
    assert(cleared.map_values(|h: HookView<V, C>| without_cleanup(h)) =~= cleared);
}

/// Over successive renders with the dependency lists `ds`, whether render
/// `i` runs its effect or computes its memo: the first render does, and each
/// whose list differs from that of the render before.
pub open spec fn reruns(ds: Seq<Seq<DepView>>, i: int) -> bool {
    i == 0 || ds[i] != ds[i - 1]
}

/// The last render up to render `i` that ran its effect or computed its memo.
pub open spec fn last_run(ds: Seq<Seq<DepView>>, i: int) -> int
    decreases i,
{
    if i <= 0 || reruns(ds, i) {
        i
    } else {
        last_run(ds, i - 1)
    }
}

/// Successive renders, each calling an effect at position `idx` with the
/// dependencies `ds[k]`; `rs[k]` is what the effect returns if it runs.
pub open spec fn effect_renders<V, C>(
    s: StoreView<V, C>,
    idx: nat,
    ds: Seq<Seq<DepView>>,
    rs: Seq<Option<C>>,
) -> StoreView<V, C>
    decreases ds.len(),
{
    if ds.len() == 0 || rs.len() == 0 {
        s
    } else {
        effect_step(
            rewind(effect_renders(s, idx, ds.drop_last(), rs.drop_last()), idx),
            ds.last(),
            rs.last(),
        )
    }
}

/// Successive renders, each calling a memo at position `idx` with the
/// dependencies `ds[k]`; `vs[k]` is what the computation returns if it runs.
pub open spec fn memo_renders<V, C>(
    s: StoreView<V, C>,
    idx: nat,
    ds: Seq<Seq<DepView>>,
    vs: Seq<V>,
) -> StoreView<V, C>
    decreases ds.len(),
{
    if ds.len() == 0 || vs.len() == 0 {
        s
    } else {
        memo_step(rewind(memo_renders(s, idx, ds.drop_last(), vs.drop_last()), idx), ds.last(), vs.last())
    }
}

/// Whether a render reruns, and which render last ran, depend only on the
/// renders up to it.
proof fn lemma_last_run_prefix(ds: Seq<Seq<DepView>>, i: int)
    requires
        0 <= i < ds.len() - 1,
    ensures
        reruns(ds.drop_last(), i) == reruns(ds, i),
        last_run(ds.drop_last(), i) == last_run(ds, i),
        0 <= last_run(ds, i) <= i,
    decreases i,
{
    if i > 0 {
        lemma_last_run_prefix(ds, i - 1);
    }
}

/// Over any number of renders that call an effect at a new position with
/// the dependency lists `ds`: each render runs the effect exactly when it
/// is the first or its dependencies differ from those of the render before;
/// when it runs again, the cleanup it finds (and calls first) is the one
/// returned by the last run before it; and afterwards the effect keeps the
/// dependencies of the last render and the cleanup of the last run, so each
/// cleanup is called at most once, just before the next run.
pub proof fn lemma_effect_over_renders<V, C>(
    s: StoreView<V, C>,
    ds: Seq<Seq<DepView>>,
    rs: Seq<Option<C>>,
)
    requires
        s.index == s.hooks.len(),
        ds.len() == rs.len(),
        ds.len() > 0,
    ensures
        ({
            let n = ds.len() as int;
            let before = rewind(effect_renders(s, s.index, ds.drop_last(), rs.drop_last()), s.index);
            let after = effect_renders(s, s.index, ds, rs);
            &&& effect_runs(before, ds.last()) == reruns(ds, n - 1)
            &&& (n > 1 && reruns(ds, n - 1)) ==> cleanup_at_cursor(before) == rs[last_run(ds, n - 2)]
            &&& after.index == s.index + 1
            &&& after.hooks == s.hooks.push(HookView::Effect(EffectView {
                deps: ds.last(),
                cleanup: rs[last_run(ds, n - 1)],
                has_run: true,
            }))
        }),
    decreases ds.len(),
{
    let n = ds.len() as int;
    let ds0 = ds.drop_last();
    let rs0 = rs.drop_last();
    if n == 1 {
        assert(effect_renders(s, s.index, ds0, rs0) == s);
        assert(rewind(s, s.index) == s);
    } else {
        lemma_effect_over_renders(s, ds0, rs0);
        lemma_last_run_prefix(ds, n - 2);
        assert(ds0.last() == ds[n - 2]);
        assert(rs0[last_run(ds0, n - 2)] == rs[last_run(ds, n - 2)]);
    }
}

/// Over any number of renders that call a memo at a new position with the
/// dependency lists `ds`: each render computes exactly when it is the first
/// or its dependencies differ from those of the render before, and the memo
/// then holds the value of the last computation.
pub proof fn lemma_memo_over_renders<V, C>(s: StoreView<V, C>, ds: Seq<Seq<DepView>>, vs: Seq<V>)
    requires
        s.index == s.hooks.len(),
        ds.len() == vs.len(),
        ds.len() > 0,
    ensures
        ({
            let n = ds.len() as int;
            let before = rewind(memo_renders(s, s.index, ds.drop_last(), vs.drop_last()), s.index);
            let after = memo_renders(s, s.index, ds, vs);
            &&& memo_computes(before, ds.last()) == reruns(ds, n - 1)
            &&& after.index == s.index + 1
            &&& after.hooks == s.hooks.push(HookView::Memo(MemoView {
                value: Some(vs[last_run(ds, n - 1)]),
                deps: ds.last(),
                has_run: true,
            }))
        }),
    decreases ds.len(),
{
    let n = ds.len() as int;
    let ds0 = ds.drop_last();
    let vs0 = vs.drop_last();
    if n == 1 {
        assert(memo_renders(s, s.index, ds0, vs0) == s);
        assert(rewind(s, s.index) == s);
    } else {
        lemma_memo_over_renders(s, ds0, vs0);
        lemma_last_run_prefix(ds, n - 2);
        assert(ds0.last() == ds[n - 2]);
        assert(vs0[last_run(ds0, n - 2)] == vs[last_run(ds, n - 2)]);
    }
}

/// A value written to a ref is what the ref holds when the next render
/// reaches it; the initial value does not count again.
pub proof fn lemma_set_ref_seen_next_render<V, C>(s: StoreView<V, C>, h: nat, value: V, initial: V)
    requires
        h < s.hooks.len(),
        s.hooks[h as int] is Ref,
    ensures
        ({
            let written = StoreView { hooks: s.hooks.update(h as int, HookView::Ref(value)), index: s.index };
            ref_step(rewind(written, h), initial).hooks[h as int] == HookView::<V, C>::Ref(value)
        }),
{
}

/// Dependencies of different types never compare equal: an owned string
/// and a string slice with the same text, or two integers of different
/// widths with the same value.
pub proof fn lemma_types_never_equal(text: String, slice: &str, a: i32, b: i64, c: u32, d: usize)
    ensures
        text.dep_view() != slice.dep_view(),
        a.dep_view() != b.dep_view(),
        c.dep_view() != d.dep_view(),
        a.dep_view() != c.dep_view(),
{
}

/// A change made to a state cell: a set, or a change of the value in place
/// (through `get_mut`).
pub enum StateChange<T> {
    Assign(T),
    Modify(T),
}

/// A state after the changes `changes`, in order.
pub open spec fn state_after<T>(s: StateView<T>, changes: Seq<StateChange<T>>) -> StateView<T>
    decreases changes.len(),
{
    if changes.len() == 0 {
        s
    } else {
        let before = state_after(s, changes.drop_last());
        match changes.last() {
            StateChange::Assign(v) => state_set(before, v),
            StateChange::Modify(v) => state_modify(before, v),
        }
    }
}

/// The number of sets among `changes`.
pub open spec fn set_count<T>(changes: Seq<StateChange<T>>) -> nat
    decreases changes.len(),
{
    if changes.len() == 0 {
        0
    } else {
        set_count(changes.drop_last()) + if changes.last() is Assign { 1nat } else { 0nat }
    }
}

/// The version of a state counts exactly its sets: changes in place through
/// `get_mut`, and reads, leave it as it is; the value is the last one
/// written.
pub proof fn lemma_version_counts_sets<T>(s: StateView<T>, changes: Seq<StateChange<T>>)
    ensures
        state_after(s, changes).version == s.version + set_count(changes),
        changes.len() > 0 ==> state_after(s, changes).value == match changes.last() {
            StateChange::Assign(v) => v,
            StateChange::Modify(v) => v,
        },
    decreases changes.len(),
{
    if changes.len() > 0 {
        lemma_version_counts_sets(s, changes.drop_last());
    }
}

/// A memo after the updates `updates`, in order, each a value and the
/// dependencies it was computed for.
pub open spec fn memo_after<T>(m: MemoView<T>, updates: Seq<(T, Seq<DepView>)>) -> MemoView<T>
    decreases updates.len(),
{
    if updates.len() == 0 {
        m
    } else {
        memo_update(memo_after(m, updates.drop_last()), updates.last().0, updates.last().1)
    }
}

/// A new memo holds no value; after any updates it holds the value of the
/// last one.
pub proof fn lemma_memo_holds_last_update<T>(deps: Seq<DepView>, updates: Seq<(T, Seq<DepView>)>)
    ensures
        ({
            let fresh = MemoView::<T> { value: None, deps, has_run: false };
            &&& updates.len() == 0 ==> memo_after(fresh, updates).value is None
            &&& updates.len() > 0 ==> memo_after(fresh, updates).value == Some(updates.last().0)
        }),
{
}

/// A dependency that is a number, a flag or a character is converted one
/// to one: two values of one such type are the same dependency exactly when
/// they are equal, so a change of the value is a change of the dependency.
pub proof fn lemma_scalar_dependencies_one_to_one(
    bool_x: bool,
    bool_y: bool,
    char_x: char,
    char_y: char,
    i8_x: i8,
    i8_y: i8,
    i16_x: i16,
    i16_y: i16,
    i32_x: i32,
    i32_y: i32,
    i64_x: i64,
    i64_y: i64,
    isize_x: isize,
    isize_y: isize,
    i128_x: i128,
    i128_y: i128,
    u8_x: u8,
    u8_y: u8,
    u16_x: u16,
    u16_y: u16,
    u32_x: u32,
    u32_y: u32,
    u64_x: u64,
    u64_y: u64,
    usize_x: usize,
    usize_y: usize,
    u128_x: u128,
    u128_y: u128,
)
    ensures
        (bool_x.dep_view() == bool_y.dep_view()) == (bool_x == bool_y),
        (char_x.dep_view() == char_y.dep_view()) == (char_x == char_y),
        (i8_x.dep_view() == i8_y.dep_view()) == (i8_x == i8_y),
        (i16_x.dep_view() == i16_y.dep_view()) == (i16_x == i16_y),
        (i32_x.dep_view() == i32_y.dep_view()) == (i32_x == i32_y),
        (i64_x.dep_view() == i64_y.dep_view()) == (i64_x == i64_y),
        (isize_x.dep_view() == isize_y.dep_view()) == (isize_x == isize_y),
        (i128_x.dep_view() == i128_y.dep_view()) == (i128_x == i128_y),
        (u8_x.dep_view() == u8_y.dep_view()) == (u8_x == u8_y),
        (u16_x.dep_view() == u16_y.dep_view()) == (u16_x == u16_y),
        (u32_x.dep_view() == u32_y.dep_view()) == (u32_x == u32_y),
        (u64_x.dep_view() == u64_y.dep_view()) == (u64_x == u64_y),
        (usize_x.dep_view() == usize_y.dep_view()) == (usize_x == usize_y),
        (u128_x.dep_view() == u128_y.dep_view()) == (u128_x == u128_y),
{
}

/// A unit dependency never changes.
pub proof fn lemma_unit_dependency_constant(x: (), y: ())
    ensures
        x.dep_view() == y.dep_view(),
{
}

/// A text dependency, owned or a slice, is the same dependency exactly when
/// its text is the same.
pub proof fn lemma_text_dependencies_one_to_one(a: String, b: String, c: &str, d: &str)
    ensures
        (a.dep_view() == b.dep_view()) == (a@ == b@),
        (c.dep_view() == d.dep_view()) == (c@ == d@),
{
}

/// A pair of dependencies is the same dependency as another exactly when
/// both their parts are.
pub proof fn lemma_pair_dependency_by_parts<A: Dependency, B: Dependency>(x: (A, B), y: (A, B))
    ensures
        (x.dep_view() == y.dep_view()) == (x.0.dep_view() == y.0.dep_view() && x.1.dep_view() == y.1.dep_view()),
{
}

/// A triple of dependencies is the same dependency as another exactly when
/// all three of their parts are.
pub proof fn lemma_triple_dependency_by_parts<A: Dependency, B: Dependency, C: Dependency>(
    x: (A, B, C),
    y: (A, B, C),
)
    ensures
        (x.dep_view() == y.dep_view()) == (x.0.dep_view() == y.0.dep_view() && x.1.dep_view()
            == y.1.dep_view() && x.2.dep_view() == y.2.dep_view()),
{
}

} // verus!
