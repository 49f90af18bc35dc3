use owned_alloc::{MaybeUninitAlloc, OwnedAlloc, UninitAlloc};
use std::cell::Cell;

#[test]
fn or_init_is_noop_if_initialized() {
    let init = MaybeUninitAlloc::from(90);

    assert_eq!(*init.or_init(|| 50), 90);
}

#[test]
fn or_init_calls_if_uninit() {
    let init = MaybeUninitAlloc::from(UninitAlloc::new());

    assert_eq!(*init.or_init(|| 50), 50);
}

#[test]
fn modifies() {
    let mut init = MaybeUninitAlloc::from(20);

    assert!(init.modify(|addr| *addr = 2).is_some());
    assert_eq!(*init.init_as_ok().unwrap(), 2);
}

#[test]
fn or_init_calls_fallback_once_only_when_uninit() {
    let calls = Cell::new(0usize);
    let uninit: MaybeUninitAlloc<i32> = MaybeUninitAlloc::from(UninitAlloc::new());
    let owned = uninit.or_init(|| {
        calls.set(calls.get() + 1);
        7
    });
    assert_eq!(*owned, 7);
    assert_eq!(calls.get(), 1);

    let init = MaybeUninitAlloc::from(OwnedAlloc::new(3));
    let owned = init.or_init(|| {
        calls.set(calls.get() + 1);
        9
    });
    assert_eq!(*owned, 3);
    assert_eq!(calls.get(), 1);
}

#[test]
fn modify_skips_uninit() {
    let mut uninit: MaybeUninitAlloc<i32> = MaybeUninitAlloc::from(UninitAlloc::new());
    let called = Cell::new(false);
    let r = uninit.modify(|v| {
        called.set(true);
        *v
    });
    assert!(r.is_none());
    assert!(!called.get());
    assert!(uninit.uninit_as_ok().is_ok());
}

#[test]
fn downcasts_return_the_other_variant() {
    let init = MaybeUninitAlloc::from(5u8);
    let back = init.uninit_as_ok();
    match back {
        Err(owned) => assert_eq!(*owned, 5),
        Ok(_) => panic!("an initialized union is no empty block"),
    }

    let uninit: MaybeUninitAlloc<u8> = MaybeUninitAlloc::from(UninitAlloc::new());
    assert!(uninit.init_as_ok().is_err());
}
