use owned_alloc::{OwnedAlloc, UninitAlloc};
use std::cell::Cell;
use std::rc::Rc;

#[test]
fn inner_eq() {
    let mut alloc = OwnedAlloc::new(20);

    assert_eq!(*alloc, 20);

    *alloc = 30;

    assert_eq!(*alloc, 30);
}

#[test]
fn move_inner_eq() {
    let alloc = OwnedAlloc::new(20);

    assert_eq!(alloc.move_inner().0, 20);
}

struct Counted {
    drops: Rc<Cell<usize>>,
}

impl Drop for Counted {
    fn drop(&mut self) {
        self.drops.set(self.drops.get() + 1);
    }
}

#[test]
fn drop_runs_destructor_once() {
    let drops = Rc::new(Cell::new(0usize));
    let alloc = OwnedAlloc::new(Counted { drops: drops.clone() });
    assert_eq!(drops.get(), 0);
    drop(alloc);
    assert_eq!(drops.get(), 1);
}

#[test]
fn drop_in_place_runs_destructor_once_and_keeps_block() {
    let drops = Rc::new(Cell::new(0usize));
    let alloc = OwnedAlloc::new(Counted { drops: drops.clone() });
    let empty = alloc.drop_in_place();
    assert_eq!(drops.get(), 1);
    let again = empty.init(Counted { drops: drops.clone() });
    drop(again);
    assert_eq!(drops.get(), 2);
}

#[test]
fn zero_sized_owner_drops_once() {
    struct Unit(Rc<Cell<usize>>);
    impl Drop for Unit {
        fn drop(&mut self) {
            self.0.set(self.0.get() + 1);
        }
    }
    let drops = Rc::new(Cell::new(0usize));
    let alloc = OwnedAlloc::try_new(Unit(drops.clone())).unwrap_or_else(|_| panic!("no allocation"));
    drop(alloc);
    assert_eq!(drops.get(), 1);
}

#[test]
fn raw_round_trip_keeps_value() {
    let alloc = OwnedAlloc::new(String::from("kept"));
    let block = alloc.into_raw();
    assert_eq!(block.len(), 1);
    let back = OwnedAlloc::from_raw(block);
    assert_eq!(back.as_str(), "kept");
}

#[test]
fn end_to_end_initialize_then_read() {
    let owned = UninitAlloc::<i32>::new().init(42);
    assert_eq!(*owned, 42);
}

#[test]
fn move_inner_reuses_block() {
    let alloc = OwnedAlloc::new(11u64);
    let (val, empty) = alloc.move_inner();
    assert_eq!(val, 11);
    assert_eq!(empty.raw().len(), 0);
    let again = empty.init(12);
    assert_eq!(*again, 12);
    assert_eq!(again.raw(), &vec![12u64]);
}

#[test]
fn try_new_gives_value() {
    let alloc = OwnedAlloc::try_new(8i64).unwrap_or_else(|_| panic!("allocation failed"));
    assert_eq!(*alloc, 8);
    let uninit = UninitAlloc::<()>::try_new();
    assert!(uninit.is_ok());
}

#[test]
fn clone_copies_value() {
    let a = OwnedAlloc::new(vec![1, 2, 3]);
    let b = a.clone();
    assert_eq!(*b, vec![1, 2, 3]);
    let c = OwnedAlloc::from(4u16);
    assert_eq!(*c, 4);
}
