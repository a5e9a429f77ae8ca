use std::cell::RefCell;
use std::rc::Rc;

use lib::hooks::{
    collect_deps, dep_equals, deps_equal, DepValue, Dependency, HasHooks, HookStore,
    UseCallbackHook, UseEffect, UseEffectHook, UseMemo, UseMemoHook, UseRef, UseRefHook,
    UseState, UseStateHook, StoreView, CallbackView,
};
use lib::{execute_hooked_render, HookedElement, HookedRender};

type Cleanup = Box<dyn FnOnce()>;
type Callback = Box<dyn Fn()>;

fn logger() -> Rc<RefCell<Vec<String>>> {
    Rc::new(RefCell::new(Vec::new()))
}

fn cleanup_logging(log: &Rc<RefCell<Vec<String>>>, text: &str) -> Cleanup {
    let log = log.clone();
    let text = text.to_string();
    Box::new(move || log.borrow_mut().push(text))
}

#[test]
fn dep_equals_same_kind_and_value() {
    assert!(dep_equals(&DepValue::I32(3), &DepValue::I32(3)));
    assert!(!dep_equals(&DepValue::I32(3), &DepValue::I32(4)));
    assert!(dep_equals(&DepValue::Text("ab".to_string()), &DepValue::Text("ab".to_string())));
    assert!(!dep_equals(&DepValue::Text("ab".to_string()), &DepValue::Text("abc".to_string())));
    assert!(dep_equals(&DepValue::Unit, &DepValue::Unit));
    assert!(dep_equals(&DepValue::Bool(true), &DepValue::Bool(true)));
    assert!(dep_equals(&DepValue::Char('x'), &DepValue::Char('x')));
}

#[test]
fn dep_equals_different_kinds_never_equal() {
    assert!(!dep_equals(&DepValue::I32(1), &DepValue::I64(1)));
    assert!(!dep_equals(&DepValue::U8(1), &DepValue::Usize(1)));
    assert!(!dep_equals(&DepValue::Unit, &DepValue::Bool(false)));
    assert!(!dep_equals(&DepValue::Text("1".to_string()), &DepValue::Char('1')));
}

#[test]
fn deps_equal_compares_length_and_positions() {
    let a = vec![DepValue::I32(1), DepValue::I32(2)];
    let b = vec![DepValue::I32(1), DepValue::I32(2)];
    let c = vec![DepValue::I32(1)];
    let d = vec![DepValue::I32(2), DepValue::I32(1)];
    assert!(deps_equal(&a, &b));
    assert!(!deps_equal(&a, &c));
    assert!(!deps_equal(&a, &d));
    assert!(deps_equal(&[], &[]));
}

#[test]
fn dependency_conversions() {
    assert!(dep_equals(&5i32.to_dep(), &DepValue::I32(5)));
    assert!(dep_equals(&5u64.to_dep(), &DepValue::U64(5)));
    assert!(dep_equals(&true.to_dep(), &DepValue::Bool(true)));
    assert!(dep_equals(&().to_dep(), &DepValue::Unit));
    assert!(dep_equals(&"hi".to_dep(), &DepValue::Str("hi".to_string())));
    assert!(!dep_equals(&"hi".to_dep(), &DepValue::Text("hi".to_string())));
    assert!(!"hi".to_string().equals(&"hi".to_dep()));
    assert!(!"hi".equals(&"hi".to_string().to_dep()));
    assert!("hi".equals(&"hi".to_dep()));
    assert!(1i32.equals(&1i32.to_dep()));
    assert!(!1i32.equals(&2i32.to_dep()));
    assert!(!1i32.equals(&1i64.to_dep()));
    assert!(dep_equals(&"hi".to_string().to_dep(), &DepValue::Text("hi".to_string())));
    assert!(7usize.equals(&DepValue::Usize(7)));
    assert!(!7usize.equals(&DepValue::U64(7)));
    assert!('q'.equals(&DepValue::Char('q')));
    let v = collect_deps(&[1i64, 2, 3]);
    assert_eq!(v.len(), 3);
    assert!(deps_equal(&v, &[DepValue::I64(1), DepValue::I64(2), DepValue::I64(3)]));
}

#[test]
fn use_state_cell_set_counts_versions() {
    let mut s = UseState::new(10);
    assert_eq!(*s.get(), 10);
    assert_eq!(s.version(), 0);
    s.set(11);
    assert_eq!(*s.get(), 11);
    assert_eq!(s.version(), 1);
    *s.get_mut() = 12;
    assert_eq!(*s.get(), 12);
    assert_eq!(s.version(), 1);
    s.set(13);
    assert_eq!(s.version(), 2);
}

#[test]
fn use_memo_cell_tracks_deps() {
    let mut m: UseMemo<i32> = UseMemo::new(vec![DepValue::I32(1)]);
    assert!(m.get().is_none());
    assert!(m.deps_changed(&[DepValue::I32(1)]));
    m.update(42, vec![DepValue::I32(1)]);
    assert_eq!(m.get(), Some(&42));
    assert!(!m.deps_changed(&[DepValue::I32(1)]));
    assert!(m.deps_changed(&[DepValue::I32(2)]));
    assert!(m.deps_changed(&[DepValue::I32(1), DepValue::I32(1)]));
    assert!(m.deps_changed(&[DepValue::I64(1)]));
}

#[test]
fn use_effect_cell_cleanups() {
    let log = logger();
    let mut e: UseEffect<Cleanup> = UseEffect::new(vec![DepValue::Bool(true)]);
    assert!(e.deps_changed(&[DepValue::Bool(true)]));
    e.mark_run();
    assert!(!e.deps_changed(&[DepValue::Bool(true)]));
    assert!(e.deps_changed(&[DepValue::Bool(false)]));
    e.update_deps(vec![DepValue::Bool(false)]);
    assert!(!e.deps_changed(&[DepValue::Bool(false)]));
    e.set_cleanup(cleanup_logging(&log, "first"));
    assert!(log.borrow().is_empty());
    e.set_cleanup(cleanup_logging(&log, "second"));
    assert_eq!(*log.borrow(), vec!["first".to_string()]);
    e.run_cleanup();
    assert_eq!(*log.borrow(), vec!["first".to_string(), "second".to_string()]);
    e.run_cleanup();
    assert_eq!(log.borrow().len(), 2);
}

#[test]
fn use_ref_cell_reads_and_writes() {
    let mut r = UseRef::new(vec![1, 2]);
    assert_eq!(*r.get_ref(), vec![1, 2]);
    r.get_ref_mut().push(3);
    assert_eq!(*r.get_ref(), vec![1, 2, 3]);
}

#[test]
fn store_starts_empty() {
    let s: HookStore<i32, Cleanup, Callback> = HookStore::new();
    assert_eq!(s.len(), 0);
    assert_eq!(s.hook_index(), 0);
    assert!(s._hooks().is_empty());
}

#[test]
fn state_initial_value_used_only_on_first_render() {
    let calls = Rc::new(RefCell::new(0));
    let mut s: HookStore<i32, Cleanup, Callback> = HookStore::new();
    let c = calls.clone();
    let h = s.use_state(move || {
        *c.borrow_mut() += 1;
        5
    });
    assert_eq!(h, 0);
    assert_eq!(*s.state(h), 5);
    s._reset();
    let c = calls.clone();
    let h2 = s.use_state(move || {
        *c.borrow_mut() += 1;
        99
    });
    assert_eq!(h2, 0);
    assert_eq!(*s.state(h2), 5);
    assert_eq!(*calls.borrow(), 1);
    assert_eq!(s.len(), 1);
}

#[test]
fn set_state_is_seen_next_render() {
    let mut s: HookStore<i32, Cleanup, Callback> = HookStore::new();
    let h = s.use_state(|| 0);
    assert_eq!(s.state_version(h), 0);
    s.set_state(h, *s.state(h) + 1);
    assert_eq!(*s.state(h), 1);
    assert_eq!(s.state_version(h), 1);
    s._reset();
    let h = s.use_state(|| 0);
    assert_eq!(*s.state(h), 1);
    assert_eq!(s.state_version(h), 1);
}

#[test]
fn hooks_are_addressed_by_call_order() {
    let mut s: HookStore<i32, Cleanup, Callback> = HookStore::new();
    let a = s.use_state(|| 1);
    let b = s.use_state(|| 2);
    let r = s.use_ref(|| 3);
    let m = s.use_memo(|| 4, &[0u8]);
    assert_eq!((a, b, r, m), (0, 1, 2, 3));
    assert_eq!(s.hook_index(), 4);
    s.set_state(b, 20);
    s._reset();
    assert_eq!(s.hook_index(), 0);
    let a2 = s.use_state(|| 100);
    let b2 = s.use_state(|| 200);
    let r2 = s.use_ref(|| 300);
    let m2 = s.use_memo(|| 400, &[0u8]);
    assert_eq!((a2, b2, r2, m2), (0, 1, 2, 3));
    assert_eq!(*s.state(a2), 1);
    assert_eq!(*s.state(b2), 20);
    assert_eq!(*s.ref_value(r2), 3);
    assert_eq!(*s.memo(m2), 4);
    assert_eq!(s.len(), 4);
}

#[test]
fn memo_recomputes_only_when_deps_change() {
    let runs = Rc::new(RefCell::new(0));
    let mut s: HookStore<i32, Cleanup, Callback> = HookStore::new();
    for (count, expected, expected_runs) in [(1, 2, 1), (1, 2, 1), (2, 4, 2), (2, 4, 2), (3, 6, 3)] {
        s._reset();
        let r = runs.clone();
        let h = s.use_memo(
            move || {
                *r.borrow_mut() += 1;
                count * 2
            },
            &[count],
        );
        assert_eq!(*s.memo(h), expected);
        assert_eq!(*runs.borrow(), expected_runs);
    }
}

#[test]
fn memo_with_text_deps() {
    let mut s: HookStore<usize, Cleanup, Callback> = HookStore::new();
    let h = s.use_memo(|| "abc".len(), &["abc"]);
    assert_eq!(*s.memo(h), 3);
    s._reset();
    let h = s.use_memo(|| 0, &["abc"]);
    assert_eq!(*s.memo(h), 3);
    s._reset();
    let h = s.use_memo(|| "abcd".len(), &["abcd"]);
    assert_eq!(*s.memo(h), 4);
}

#[test]
fn effect_runs_and_cleans_up_in_order() {
    let log = logger();
    let mut s: HookStore<i32, Cleanup, Callback> = HookStore::new();
    for count in [0, 0, 1, 1, 2] {
        s._reset();
        let l = log.clone();
        s.use_effect(
            move || {
                l.borrow_mut().push(format!("run {}", count));
                Some(cleanup_logging(&l, &format!("cleanup {}", count)))
            },
            &[count],
        );
    }
    assert_eq!(
        *log.borrow(),
        vec!["run 0", "cleanup 0", "run 1", "cleanup 1", "run 2"]
            .into_iter()
            .map(String::from)
            .collect::<Vec<_>>()
    );
    s.cleanup_effects();
    assert_eq!(log.borrow().last().unwrap(), "cleanup 2");
    assert_eq!(log.borrow().len(), 6);
    s.cleanup_effects();
    assert_eq!(log.borrow().len(), 6);
}

#[test]
fn effect_without_cleanup() {
    let log = logger();
    let mut s: HookStore<i32, Cleanup, Callback> = HookStore::new();
    let l = log.clone();
    s.use_effect(
        move || {
            l.borrow_mut().push("run".to_string());
            None
        },
        &[1],
    );
    s.cleanup_effects();
    assert_eq!(*log.borrow(), vec!["run".to_string()]);
}

#[test]
fn effect_with_no_deps_runs_once() {
    let log = logger();
    let mut s: HookStore<i32, Cleanup, Callback> = HookStore::new();
    for _ in 0..3 {
        s._reset();
        let l = log.clone();
        s.use_effect(
            move || {
                l.borrow_mut().push("mount".to_string());
                None
            },
            &[] as &[i32],
        );
    }
    assert_eq!(log.borrow().len(), 1);
}

#[test]
fn cleanup_effects_runs_every_effect_once() {
    let log = logger();
    let mut s: HookStore<i32, Cleanup, Callback> = HookStore::new();
    let _ = s.use_state(|| 0);
    let l = log.clone();
    s.use_effect(move || Some(cleanup_logging(&l, "a")), &[1]);
    let l = log.clone();
    s.use_effect(move || Some(cleanup_logging(&l, "b")), &[1]);
    assert!(log.borrow().is_empty());
    s.cleanup_effects();
    assert_eq!(*log.borrow(), vec!["a".to_string(), "b".to_string()]);
    s.cleanup_effects();
    assert_eq!(log.borrow().len(), 2);
}

#[test]
fn ref_keeps_writes_across_renders() {
    let mut s: HookStore<i32, Cleanup, Callback> = HookStore::new();
    let r = s.use_ref(|| 7);
    assert_eq!(*s.ref_value(r), 7);
    s.set_ref(r, 8);
    s._reset();
    let r = s.use_ref(|| 0);
    assert_eq!(*s.ref_value(r), 8);
}

#[test]
fn callback_is_kept_until_deps_change() {
    let made = Rc::new(RefCell::new(0));
    let mut s: HookStore<fn(i32) -> i32, Cleanup, Callback> = HookStore::new();
    fn double(x: i32) -> i32 {
        x * 2
    }
    fn triple(x: i32) -> i32 {
        x * 3
    }
    let m = made.clone();
    let h = s.use_callback(
        move || {
            *m.borrow_mut() += 1;
            double as fn(i32) -> i32
        },
        &[1],
    );
    assert_eq!((s.memo(h))(5), 10);
    s._reset();
    let m = made.clone();
    let h = s.use_callback(
        move || {
            *m.borrow_mut() += 1;
            triple as fn(i32) -> i32
        },
        &[1],
    );
    assert_eq!((s.memo(h))(5), 10);
    assert_eq!(*made.borrow(), 1);
    s._reset();
    let h = s.use_callback(|| triple as fn(i32) -> i32, &[2]);
    assert_eq!((s.memo(h))(5), 15);
}

#[test]
fn registered_callbacks_run_before_each_render() {
    let log = logger();
    let mut s: HookStore<i32, Cleanup, Callback> = HookStore::new();
    let h = s.use_state(|| 4);
    let l = log.clone();
    s._use(Box::new(move || l.borrow_mut().push("first".to_string())));
    let l = log.clone();
    s._use(Box::new(move || l.borrow_mut().push("second".to_string())));
    assert_eq!(s._hooks().len(), 2);
    assert_eq!(s.len(), 1);
    assert_eq!(s.hook_index(), 1);
    assert!(log.borrow().is_empty());
    s.run_callbacks();
    assert_eq!(*log.borrow(), vec!["first".to_string(), "second".to_string()]);
    s._reset();
    let h2 = s.use_state(|| 0);
    assert_eq!(h, h2);
    assert_eq!(*s.state(h2), 4);
}

#[test]
fn pre_render_runs_callbacks_then_rewinds() {
    let log = logger();
    let mut g = Greeter { hooks: HookStore::new(), log: log.clone() };
    let l = log.clone();
    g._use(Box::new(move || l.borrow_mut().push("before render".to_string())));
    assert_eq!(execute_hooked_render(&mut g), "visits: 0");
    assert_eq!(execute_hooked_render(&mut g), "visits: 0");
    assert_eq!(
        *log.borrow(),
        vec!["before render", "visit 0", "before render"]
            .into_iter()
            .map(String::from)
            .collect::<Vec<_>>()
    );
}

#[test]
fn tuple_and_custom_dependencies() {
    assert!((1i32, "a").equals(&(1i32, "a").to_dep()));
    assert!(!(1i32, "a").equals(&(1i64, "a").to_dep()));
    assert!(!(1i32, "a").equals(&(1i32, "a".to_string()).to_dep()));
    assert!(!(1u8, 2u8).equals(&(1u8, 2u8, 3u8).to_dep()));
    assert!((1u8, 2u8, 3u8).equals(&(1u8, 2u8, 3u8).to_dep()));
    assert!(7i128.equals(&DepValue::I128(7)));
    assert!(!7i128.equals(&DepValue::U128(7)));
    let a = DepValue::Custom(9, vec![1, 2]);
    assert!(dep_equals(&a, &DepValue::Custom(9, vec![1, 2])));
    assert!(!dep_equals(&a, &DepValue::Custom(8, vec![1, 2])));
    assert!(!dep_equals(&a, &DepValue::Custom(9, vec![1, 3])));
    assert!(!dep_equals(&a, &DepValue::Custom(9, vec![1])));
    let mut s: HookStore<i32, Cleanup, Callback> = HookStore::new();
    let h = s.use_memo(|| 1, &[(1u8, 'x')]);
    s._reset();
    let h = s.use_memo(|| 2, &[(1u8, 'x')]);
    assert_eq!(*s.memo(h), 1);
    s._reset();
    let h = s.use_memo(|| 3, &[(1u8, 'y')]);
    assert_eq!(*s.memo(h), 3);
}

struct Counter {
    label: String,
    hooks: HookStore<i32, Cleanup, Callback>,
}

impl HasHooks<i32, Cleanup> for Counter {
    type Callback = Callback;

    fn hooks_view(&self) -> StoreView<i32, Cleanup> {
        self.hooks.hooks_view()
    }

    fn callbacks_view(&self) -> CallbackView<Callback> {
        self.hooks.callbacks_view()
    }

    fn _hooks_storage(&self) -> &HookStore<i32, Cleanup, Callback> {
        &self.hooks
    }

    fn _hooks_storage_mut(&mut self) -> &mut HookStore<i32, Cleanup, Callback> {
        &mut self.hooks
    }
}

impl Counter {
    fn render(&mut self, log: &Rc<RefCell<Vec<String>>>) -> (usize, i32, i32) {
        self._reset();
        let count = self.use_state(|| 0);
        let value = *self.state(count);
        let doubled = self.use_memo(move || value * 2, &[value]);
        let l = log.clone();
        self.use_effect(
            move || {
                l.borrow_mut().push(format!("count {}", value));
                Some(cleanup_logging(&l, &format!("cleanup {}", value)))
            },
            &[value],
        );
        (count, value, *self.memo(doubled))
    }
}

#[test]
fn component_with_hooks_renders() {
    let log = logger();
    let mut c = Counter { label: "counter".to_string(), hooks: HookStore::default() };
    assert_eq!(c.label, "counter");
    let (count, value, doubled) = c.render(&log);
    assert_eq!((value, doubled), (0, 0));
    let (_, value, doubled) = c.render(&log);
    assert_eq!((value, doubled), (0, 0));
    c.set_state(count, value + 1);
    let (_, value, doubled) = c.render(&log);
    assert_eq!((value, doubled), (1, 2));
    assert_eq!(c.state_version(count), 1);
    assert_eq!(c.hooks.len(), 3);
    assert!(c._hooks().is_empty());
    c.cleanup_effects();
    assert_eq!(
        *log.borrow(),
        vec!["count 0", "cleanup 0", "count 1", "cleanup 1"]
            .into_iter()
            .map(String::from)
            .collect::<Vec<_>>()
    );
}

#[test]
fn component_ref_and_callback() {
    let mut c = Counter { label: String::new(), hooks: HookStore::new() };
    let r = c.use_ref(|| 1);
    let cb = c.use_callback(|| 10, &['a']);
    c.set_ref(r, 2);
    c._reset();
    let r = c.use_ref(|| 5);
    let cb2 = c.use_callback(|| 20, &['a']);
    assert_eq!(*c.ref_value(r), 2);
    assert_eq!(cb, cb2);
    assert_eq!(*c.memo(cb2), 10);
}

struct Greeter {
    hooks: HookStore<i32, Cleanup, Callback>,
    log: Rc<RefCell<Vec<String>>>,
}

impl HasHooks<i32, Cleanup> for Greeter {
    type Callback = Callback;

    fn hooks_view(&self) -> StoreView<i32, Cleanup> {
        self.hooks.hooks_view()
    }

    fn callbacks_view(&self) -> CallbackView<Callback> {
        self.hooks.callbacks_view()
    }

    fn _hooks_storage(&self) -> &HookStore<i32, Cleanup, Callback> {
        &self.hooks
    }

    fn _hooks_storage_mut(&mut self) -> &mut HookStore<i32, Cleanup, Callback> {
        &mut self.hooks
    }
}

impl HookedRender<i32, Cleanup> for Greeter {
    type Element = String;

    // This component states nothing about its renders.
    fn rendered(_before: Self, _after: Self, _element: String) -> bool {
        true
    }

    fn render(&mut self) -> String {
        let visits = self.use_state(|| 0);
        let n = *self.state(visits);
        let l = self.log.clone();
        self.use_effect(
            move || {
                l.borrow_mut().push(format!("visit {}", n));
                None
            },
            &[n],
        );
        format!("visits: {}", n)
    }
}

#[test]
fn execute_hooked_render_starts_each_render_at_first_hook() {
    let mut g = Greeter { hooks: HookStore::new(), log: logger() };
    assert_eq!(execute_hooked_render(&mut g), "visits: 0");
    assert_eq!(g.hooks.hook_index(), 2);
    assert_eq!(execute_hooked_render(&mut g), "visits: 0");
    assert_eq!(g.hooks.len(), 2);
    g.set_state(0, 3);
    assert_eq!(execute_hooked_render(&mut g), "visits: 3");
    assert_eq!(*g.log.borrow(), vec!["visit 0".to_string(), "visit 3".to_string()]);
    g.pre_render();
    assert_eq!(g.hooks.hook_index(), 0);
}

#[test]
fn string_and_str_dependencies_differ() {
    let mut s: HookStore<i32, Cleanup, Callback> = HookStore::new();
    let h = s.use_memo(|| 1, &["a".to_string()]);
    assert_eq!(*s.memo(h), 1);
    s._reset();
    let h = s.use_memo(|| 2, &["a"]);
    assert_eq!(*s.memo(h), 2);
    s._reset();
    let h = s.use_memo(|| 3, &["a"]);
    assert_eq!(*s.memo(h), 2);
}

#[test]
fn effect_cleanups_over_many_renders() {
    let log = logger();
    let mut s: HookStore<i32, Cleanup, Callback> = HookStore::new();
    for (k, dep) in [5, 5, 6, 6, 6, 5, 7].into_iter().enumerate() {
        s._reset();
        let l = log.clone();
        s.use_effect(
            move || {
                l.borrow_mut().push(format!("run {}", k));
                Some(cleanup_logging(&l, &format!("cleanup {}", k)))
            },
            &[dep],
        );
    }
    assert_eq!(
        *log.borrow(),
        vec!["run 0", "cleanup 0", "run 2", "cleanup 2", "run 5", "cleanup 5", "run 6"]
            .into_iter()
            .map(String::from)
            .collect::<Vec<_>>()
    );
}

#[test]
fn store_is_well_formed() {
    let mut s: HookStore<i32, Cleanup, Callback> = HookStore::default();
    s.check_wf();
    let _ = s.use_ref(|| 1);
    s.check_wf();
    assert_eq!(s.len(), 1);
}
