//! The hooks: dependencies of memos and effects, the hook kinds, and the
//! components that keep hooks.

pub mod use_callback;
pub mod use_effect;
pub mod use_memo;
pub mod use_ref;
pub mod use_state;
pub mod store;
mod hook_list;
pub mod laws;

pub use store::{Hook, HookStore, HookView, StoreView};
pub use use_effect::{EffectView, UseEffect, UseEffectHook};
pub use use_memo::{MemoView, UseMemo, UseMemoHook};
pub use use_ref::{UseRef, UseRefHook};
pub use use_callback::{UseCallback, UseCallbackHook};
pub use use_state::{StateView, UseState, UseStateHook};

use vstd::prelude::*;

verus! {

/// A dependency value with its type erased: what a memo or an effect keeps
/// between renders to decide whether it has to run again. Values of
/// different variants never compare equal, as values of different types
/// do not.
#[derive(Debug)]
pub enum DepValue {
    Unit,
    Bool(bool),
    Char(char),
    I8(i8),
    I16(i16),
    I32(i32),
    I64(i64),
    Isize(isize),
    U8(u8),
    U16(u16),
    U32(u32),
    U64(u64),
    Usize(usize),
    I128(i128),
    U128(u128),
    /// An owned string (`String`).
    Text(String),
    /// A string slice (`&str`), held as an owned copy of its text.
    Str(String),
    /// A pair of dependencies.
    Pair(Box<DepValue>, Box<DepValue>),
    /// A triple of dependencies.
    Triple(Box<DepValue>, Box<DepValue>, Box<DepValue>),
    /// A value of a type of the user's: a kind number that no other type
    /// uses, and bytes that encode the value one to one.
    Custom(u64, Vec<u8>),
}

/// The mathematical value of a [`DepValue`]: text is a sequence of characters.
pub enum DepView {
    Unit,
    Bool(bool),
    /// A character, by its code point.
    Char(u32),
    I8(i8),
    I16(i16),
    I32(i32),
    I64(i64),
    Isize(isize),
    U8(u8),
    U16(u16),
    U32(u32),
    U64(u64),
    Usize(usize),
    I128(i128),
    U128(u128),
    Text(Seq<char>),
    Str(Seq<char>),
    Pair(Box<DepView>, Box<DepView>),
    Triple(Box<DepView>, Box<DepView>, Box<DepView>),
    Custom(u64, Seq<u8>),
}

impl View for DepValue {
    type V = DepView;

    open spec fn view(&self) -> DepView {
        view_of(*self)
    }
}

/// The view of a dependency value.
pub open spec fn view_of(d: DepValue) -> DepView
    decreases d,
{
    match d {
        DepValue::Unit => DepView::Unit,
        DepValue::Bool(b) => DepView::Bool(b),
        DepValue::Char(c) => DepView::Char(c as u32),
        DepValue::I8(x) => DepView::I8(x),
        DepValue::I16(x) => DepView::I16(x),
        DepValue::I32(x) => DepView::I32(x),
        DepValue::I64(x) => DepView::I64(x),
        DepValue::Isize(x) => DepView::Isize(x),
        DepValue::U8(x) => DepView::U8(x),
        DepValue::U16(x) => DepView::U16(x),
        DepValue::U32(x) => DepView::U32(x),
        DepValue::U64(x) => DepView::U64(x),
        DepValue::Usize(x) => DepView::Usize(x),
        DepValue::I128(x) => DepView::I128(x),
        DepValue::U128(x) => DepView::U128(x),
        DepValue::Text(s) => DepView::Text(s@),
        DepValue::Str(s) => DepView::Str(s@),
        DepValue::Pair(a, b) => DepView::Pair(Box::new(view_of(*a)), Box::new(view_of(*b))),
        DepValue::Triple(a, b, c) => DepView::Triple(
            Box::new(view_of(*a)),
            Box::new(view_of(*b)),
            Box::new(view_of(*c)),
        ),
        DepValue::Custom(k, bytes) => DepView::Custom(k, bytes@),
    }
}

/// The views of a list of dependency values.
pub open spec fn deps_view(deps: Seq<DepValue>) -> Seq<DepView> {
    deps.map_values(|d: DepValue| d@)
}

/// Whether a hook with the recorded dependencies `old` must run again for
/// the dependencies `new`: on its first run, or when the two lists differ
/// in length or in any position.
pub open spec fn spec_deps_changed(has_run: bool, old: Seq<DepView>, new: Seq<DepView>) -> bool {
    !has_run || old != new
}

/// Compares two dependency values: equal when of the same kind and the same value.
pub fn dep_equals(a: &DepValue, b: &DepValue) -> (r: bool)
    ensures
        r == (a@ == b@),
    decreases a,
{
    match (a, b) {
        (DepValue::Unit, DepValue::Unit) => true,
        (DepValue::Bool(x), DepValue::Bool(y)) => *x == *y,
        (DepValue::Char(x), DepValue::Char(y)) => *x == *y,
        (DepValue::I8(x), DepValue::I8(y)) => *x == *y,
        (DepValue::I16(x), DepValue::I16(y)) => *x == *y,
        (DepValue::I32(x), DepValue::I32(y)) => *x == *y,
        (DepValue::I64(x), DepValue::I64(y)) => *x == *y,
        (DepValue::Isize(x), DepValue::Isize(y)) => *x == *y,
        (DepValue::U8(x), DepValue::U8(y)) => *x == *y,
        (DepValue::U16(x), DepValue::U16(y)) => *x == *y,
        (DepValue::U32(x), DepValue::U32(y)) => *x == *y,
        (DepValue::U64(x), DepValue::U64(y)) => *x == *y,
        (DepValue::Usize(x), DepValue::Usize(y)) => *x == *y,
        (DepValue::Text(x), DepValue::Text(y)) => x.eq(y),
        (DepValue::I128(x), DepValue::I128(y)) => *x == *y,
        (DepValue::U128(x), DepValue::U128(y)) => *x == *y,
        (DepValue::Str(x), DepValue::Str(y)) => x.eq(y),
        (DepValue::Pair(a0, a1), DepValue::Pair(b0, b1)) => dep_equals(a0, b0) && dep_equals(a1, b1),
        (DepValue::Triple(a0, a1, a2), DepValue::Triple(b0, b1, b2)) => {
            dep_equals(a0, b0) && dep_equals(a1, b1) && dep_equals(a2, b2)
        },
        (DepValue::Custom(ka, xa), DepValue::Custom(kb, xb)) => *ka == *kb && bytes_equal(xa, xb),
        _ => false,
    }
}

/// Compares two byte strings.
fn bytes_equal(a: &Vec<u8>, b: &Vec<u8>) -> (r: bool)
    ensures
        r == (a@ == b@),
{
    if a.len() != b.len() {
        return false;
    }
    let mut i: usize = 0;
    while i < a.len()
        invariant
            a.len() == b.len(),
            i <= a.len(),
            forall|j: int| 0 <= j < i ==> a@[j] == b@[j],
        decreases a.len() - i,
    {
        if a[i] != b[i] {
            return false;
        }
        i = i + 1;
    }
    assert(a@ =~= b@);
    true
}

/// Compares two lists of dependency values position by position.
pub fn deps_equal(a: &[DepValue], b: &[DepValue]) -> (r: bool)
    ensures
        r == (deps_view(a@) == deps_view(b@)),
{
    if a.len() != b.len() {
        assert(deps_view(a@).len() != deps_view(b@).len());
        return false;
    }
    let mut i: usize = 0;
    while i < a.len()
        invariant
            a.len() == b.len(),
            i <= a.len(),
            forall|j: int| 0 <= j < i ==> a@[j]@ == b@[j]@,
        decreases a.len() - i,
    {
        if !dep_equals(&a[i], &b[i]) {
            assert(deps_view(a@)[i as int] != deps_view(b@)[i as int]);
            return false;
        }
        i = i + 1;
    }
    assert(deps_view(a@) =~= deps_view(b@));
    true
}


/// A value that can serve as a dependency of a memo or an effect.
///
/// Each implementing type maps its values to a variant of [`DepValue`] that
/// no other type maps to, so that values of different types never compare
/// equal; the implementations here keep to that, one variant per type (a
/// pair or triple of dependencies by the variants of its parts). A type of
/// the user's maps to `DepValue::Custom` with a kind number of its own and
/// a one-to-one encoding of its values as bytes.
pub trait Dependency {
    /// The dependency value this value stands for.
    spec fn dep_view(&self) -> DepView;

    /// Converts to a type-erased dependency value, keeping what it compares by.
    fn to_dep(&self) -> (d: DepValue)
        ensures
            d@ == self.dep_view(),
    ;

    /// Whether this value equals the recorded dependency `other`.
    fn equals(&self, other: &DepValue) -> (r: bool)
        ensures
            r == (self.dep_view() == other@),
    {
        let mine = self.to_dep();
        dep_equals(&mine, other)
    }
}

/// The views of a list of dependencies.
pub open spec fn deps_of<D: Dependency>(deps: Seq<D>) -> Seq<DepView> {
    deps.map_values(|d: D| d.dep_view())
}

/// Converts a list of dependencies to type-erased values, in order.
pub fn collect_deps<D: Dependency>(deps: &[D]) -> (r: Vec<DepValue>)
    ensures
        deps_view(r@) == deps_of(deps@),
{
    let mut r: Vec<DepValue> = Vec::new();
    let mut i: usize = 0;
    while i < deps.len()
        invariant
            i <= deps.len(),
            r@.len() == i,
            forall|j: int| 0 <= j < i ==> r@[j]@ == deps@[j].dep_view(),
        decreases deps.len() - i,
    {
        let d = deps[i].to_dep();
        r.push(d);
        i = i + 1;
    }
    assert(deps_view(r@) =~= deps_of(deps@));
    r
}

impl Dependency for () {
    open spec fn dep_view(&self) -> DepView {
        DepView::Unit
    }

    fn to_dep(&self) -> (d: DepValue) {
        DepValue::Unit
    }
}

impl<'a> Dependency for &'a str {
    open spec fn dep_view(&self) -> DepView {
        DepView::Str(self@)
    }

    fn to_dep(&self) -> (d: DepValue) {
        DepValue::Str((*self).to_owned())
    }
}

impl Dependency for String {
    open spec fn dep_view(&self) -> DepView {
        DepView::Text(self@)
    }

    fn to_dep(&self) -> (d: DepValue) {
        DepValue::Text(self.clone())
    }
}

impl Dependency for bool {
    open spec fn dep_view(&self) -> DepView {
        DepView::Bool(*self)
    }

    fn to_dep(&self) -> (d: DepValue) {
        DepValue::Bool(*self)
    }
}

/// The dependency value of a character.
fn char_dep(c: char) -> (d: DepValue)
    ensures
        d@ == DepView::Char(c as u32),
{
    DepValue::Char(c)
}

impl Dependency for char {
    open spec fn dep_view(&self) -> DepView {
        DepView::Char(*self as u32)
    }

    fn to_dep(&self) -> (d: DepValue) {
        char_dep(*self)
    }
}

impl Dependency for i8 {
    open spec fn dep_view(&self) -> DepView {
        DepView::I8(*self)
    }

    fn to_dep(&self) -> (d: DepValue) {
        DepValue::I8(*self)
    }
}

impl Dependency for i16 {
    open spec fn dep_view(&self) -> DepView {
        DepView::I16(*self)
    }

    fn to_dep(&self) -> (d: DepValue) {
        DepValue::I16(*self)
    }
}

impl Dependency for i32 {
    open spec fn dep_view(&self) -> DepView {
        DepView::I32(*self)
    }

    fn to_dep(&self) -> (d: DepValue) {
        DepValue::I32(*self)
    }
}

impl Dependency for i64 {
    open spec fn dep_view(&self) -> DepView {
        DepView::I64(*self)
    }

    fn to_dep(&self) -> (d: DepValue) {
        DepValue::I64(*self)
    }
}

impl Dependency for isize {
    open spec fn dep_view(&self) -> DepView {
        DepView::Isize(*self)
    }

    fn to_dep(&self) -> (d: DepValue) {
        DepValue::Isize(*self)
    }
}

impl Dependency for u8 {
    open spec fn dep_view(&self) -> DepView {
        DepView::U8(*self)
    }

    fn to_dep(&self) -> (d: DepValue) {
        DepValue::U8(*self)
    }
}

impl Dependency for u16 {
    open spec fn dep_view(&self) -> DepView {
        DepView::U16(*self)
    }

    fn to_dep(&self) -> (d: DepValue) {
        DepValue::U16(*self)
    }
}

impl Dependency for u32 {
    open spec fn dep_view(&self) -> DepView {
        DepView::U32(*self)
    }

    fn to_dep(&self) -> (d: DepValue) {
        DepValue::U32(*self)
    }
}

impl Dependency for u64 {
    open spec fn dep_view(&self) -> DepView {
        DepView::U64(*self)
    }

    fn to_dep(&self) -> (d: DepValue) {
        DepValue::U64(*self)
    }
}

impl Dependency for usize {
    open spec fn dep_view(&self) -> DepView {
        DepView::Usize(*self)
    }

    fn to_dep(&self) -> (d: DepValue) {
        DepValue::Usize(*self)
    }
}

impl Dependency for i128 {
    open spec fn dep_view(&self) -> DepView {
        DepView::I128(*self)
    }

    fn to_dep(&self) -> (d: DepValue) {
        DepValue::I128(*self)
    }
}

impl Dependency for u128 {
    open spec fn dep_view(&self) -> DepView {
        DepView::U128(*self)
    }

    fn to_dep(&self) -> (d: DepValue) {
        DepValue::U128(*self)
    }
}

/// A pair of dependencies is a dependency.
impl<A: Dependency, B: Dependency> Dependency for (A, B) {
    open spec fn dep_view(&self) -> DepView {
        DepView::Pair(Box::new(self.0.dep_view()), Box::new(self.1.dep_view()))
    }

    fn to_dep(&self) -> (d: DepValue) {
        DepValue::Pair(Box::new(self.0.to_dep()), Box::new(self.1.to_dep()))
    }
}

/// A triple of dependencies is a dependency.
impl<A: Dependency, B: Dependency, C: Dependency> Dependency for (A, B, C) {
    open spec fn dep_view(&self) -> DepView {
        DepView::Triple(
            Box::new(self.0.dep_view()),
            Box::new(self.1.dep_view()),
            Box::new(self.2.dep_view()),
        )
    }

    fn to_dep(&self) -> (d: DepValue) {
        DepValue::Triple(Box::new(self.0.to_dep()), Box::new(self.1.to_dep()), Box::new(self.2.to_dep()))
    }
}

/// The callbacks registered on a component, in registration order.
pub struct CallbackView<E> {
    pub callbacks: Seq<E>,
}

/// A component that keeps its hooks, and the callbacks run before each of
/// its renders, in a [`HookStore`].
pub trait HasHooks<V, C: FnOnce()> {
    /// The type of the callbacks registered on the component.
    type Callback: crate::Hook;

    /// The contents of the component's hook store.
    spec fn hooks_view(&self) -> StoreView<V, C>;

    /// The callbacks registered in the component's hook store.
    spec fn callbacks_view(&self) -> CallbackView<Self::Callback>;

    /// The component's hook store.
    fn _hooks_storage(&self) -> (r: &HookStore<V, C, Self::Callback>)
        ensures
            r@ == self.hooks_view(),
            r.registered() == self.callbacks_view().callbacks,
    ;

    /// The component's hook store, to change it.
    fn _hooks_storage_mut(&mut self) -> (r: &mut HookStore<V, C, Self::Callback>)
        ensures
            r@ == old(self).hooks_view(),
            r.registered() == old(self).callbacks_view().callbacks,
            final(self).hooks_view() == final(r)@,
            final(self).callbacks_view().callbacks == final(r).registered(),
    ;
}

impl<V, C: FnOnce(), E: crate::Hook> HasHooks<V, C> for HookStore<V, C, E> {
    type Callback = E;

    open spec fn hooks_view(&self) -> StoreView<V, C> {
        self@
    }

    open spec fn callbacks_view(&self) -> CallbackView<E> {
        CallbackView { callbacks: self.registered() }
    }

    fn _hooks_storage(&self) -> (r: &HookStore<V, C, E>) {
        self
    }

    fn _hooks_storage_mut(&mut self) -> (r: &mut HookStore<V, C, E>) {
        self
    }
}

} // verus!
