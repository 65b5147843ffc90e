//! The callback registry and the trampoline discipline built on it.

use std::cell::Cell;
use std::rc::Rc;

use discord_game_sdk::callbacks::CallbackRegistry;

#[test]
fn tokens_are_distinct_and_never_reused() {
    let mut registry: CallbackRegistry<i32> = CallbackRegistry::new();
    let t0 = registry.register(10);
    let t1 = registry.register(20);
    assert_ne!(t0, t1);
    assert_eq!(registry.take(t0), Some(10));
    // The freed token is not handed out again.
    let t2 = registry.register(30);
    assert_ne!(t2, t0);
    assert_ne!(t2, t1);
}

#[test]
fn registered_closure_runs_exactly_once() {
    let runs = Rc::new(Cell::new(0u32));
    let seen = runs.clone();
    let mut registry: CallbackRegistry<Box<dyn FnOnce(i32)>> = CallbackRegistry::new();
    let token = registry.register(Box::new(move |status: i32| {
        assert_eq!(status, 0);
        seen.set(seen.get() + 1);
    }));

    // The trampoline receives the token with the native result and claims
    // the closure, which can therefore run only once.
    let closure = registry.take(token).expect("first completion must find the closure");
    closure(0);
    assert_eq!(runs.get(), 1);

    // A second arrival of the same token finds nothing: the violation is
    // exposed instead of re-running stored state.
    assert!(registry.take(token).is_none());
    assert_eq!(runs.get(), 1);
}

#[test]
fn unknown_token_finds_nothing() {
    let mut registry: CallbackRegistry<u8> = CallbackRegistry::new();
    assert_eq!(registry.take(7), None);
    let token = registry.register(1);
    assert_eq!(registry.take(token + 1), None);
    assert!(registry.contains(token));
}

#[test]
fn filter_style_entry_survives_repeated_use() {
    let mut registry: CallbackRegistry<Box<dyn Fn(i64) -> bool>> = CallbackRegistry::new();
    let token = registry.register(Box::new(|user_id: i64| user_id % 2 == 0));

    // A synchronous filter is consulted many times during one native call
    // and stays registered throughout.
    for user_id in 0..4 {
        let predicate = registry.get(token).expect("filter must stay registered");
        assert_eq!(predicate(user_id), user_id % 2 == 0);
    }

    // Once the native call returned, the entry is taken out as usual.
    assert!(registry.take(token).is_some());
    assert!(registry.get(token).is_none());
}

#[test]
fn pending_count_follows_registrations() {
    let mut registry: CallbackRegistry<&'static str> = CallbackRegistry::new();
    assert_eq!(registry.len(), 0);
    let a = registry.register("a");
    let b = registry.register("b");
    assert_eq!(registry.len(), 2);
    assert_eq!(registry.take(a), Some("a"));
    assert_eq!(registry.len(), 1);
    assert_eq!(registry.take(b), Some("b"));
    assert_eq!(registry.len(), 0);
}
