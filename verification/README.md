# Hooks for components, verified

React-style hooks kept in a per-component `HookStore`: state cells
(`use_state`), memoized values (`use_memo`, `use_callback`), effects with
cleanups (`use_effect`, `cleanup_effects`) and refs (`use_ref`). A render
starts with `_reset` (from `HookedElement`); each hook call then addresses
the hook at the cursor, so hooks are identified by the order of the calls.
Hook calls return the position of their hook, by which its value is read
(`state`, `memo`, `ref_value`) and written (`set_state`, `set_ref`).

A component keeps a `HookStore` and implements `HasHooks` by hand (there is
no attribute macro to add the store and the impl): it names the store and
the type of the callbacks registered on it. It then has the hook calls
through `UseStateHook`, `UseMemoHook`, `UseCallbackHook`, `UseEffectHook`,
`UseRefHook` and `HookedElement`, whose contracts are those of the store's
own methods.

Callbacks (any `Fn()`, through the `Hook` trait) are registered with
`HookedElement::_use`; `_hooks` lists them. They can be read but not
replaced in place, since every callback a store keeps must be one that may
be run.

A store is always well formed (a type invariant): its cursor never passes
the end of its hooks, and every cleanup it keeps may be called. A render is
run by `execute_hooked_render`, which calls `pre_render` (every registered
callback runs once, in order, then the cursor goes back to the first hook)
and then the component's `render` once, and returns what it returned. The
render is independent of any UI toolkit: `pre_render` and `render` take no
window or context, and `HookedRender` states what a render produces and
what it promises (`rendered`).

All hooks of one store share one value type `V` (the value of states,
memos, callbacks and refs) and one cleanup type `C`; a component whose
hooks hold values of several types uses an enum of its own as `V`.

Dependencies are compared as type-erased `DepValue`s: each type that
implements `Dependency` here (the integer types up to 128 bits, `bool`,
`char`, `()`, `String`, `&str`, and pairs and triples of dependencies)
maps to a variant of its own, so values of different types never compare
equal (`String` and `&str` included). A type of yours implements
`Dependency` by mapping to `DepValue::Custom`, with a kind number that no
other type uses and a one-to-one encoding of its values as bytes.

Layout:

- `src/hooks.rs`: `DepValue`, `Dependency`, comparison of dependency lists,
  `HasHooks`.
- `src/hooks/use_state.rs`, `use_memo.rs`, `use_effect.rs`, `use_ref.rs`,
  `use_callback.rs`: the hook kinds and their component traits.
- `src/hooks/store.rs`: the store, its transitions as spec functions, and
  the hook calls, each proved against its transition.
- `src/hooks/laws.rs`: properties across calls and renders.
- `src/hooks/hook_list.rs`: the storage inside a store.
- `src/lib.rs`: the `HookedElement` and `HookedRender` traits and
  `execute_hooked_render`.
- `tests/hooks.rs`: tests on concrete values.
