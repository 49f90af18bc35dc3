use owned_alloc::{Layout, LayoutErr, RawVec, RawVecErr};

#[test]
fn cap_is_the_one_passed() {
    let alloc = RawVec::<usize>::with_capacity(20);

    assert_eq!(alloc.cap(), 20);
}

#[test]
fn new_has_zero_capacity() {
    let v = RawVec::<u32>::new();
    assert_eq!(v.cap(), 0);
    assert!(v.raw().is_empty());
}

#[test]
fn with_capacity_sets_capacity_for_several_sizes() {
    for n in [0usize, 1, 16, 1000] {
        assert_eq!(RawVec::<u64>::with_capacity(n).cap(), n);
    }
}

#[test]
fn try_with_capacity_overflow_is_layout_error() {
    let r = RawVec::<u64>::try_with_capacity(usize::MAX);
    assert!(matches!(r, Err(RawVecErr::Layout(LayoutErr))));
    let r = RawVec::<u8>::try_with_capacity(usize::MAX);
    assert!(matches!(r, Err(RawVecErr::Layout(_))));
}

#[test]
fn try_with_capacity_succeeds_in_range() {
    let v = RawVec::<u32>::try_with_capacity(64).unwrap_or_else(|_| panic!("allocation failed"));
    assert_eq!(v.cap(), 64);
    assert!(v.get(63).is_none());
}

#[test]
fn zero_sized_any_capacity_succeeds() {
    let v = RawVec::<()>::with_capacity(usize::MAX);
    assert_eq!(v.cap(), usize::MAX);
    let w = RawVec::<()>::try_with_capacity(usize::MAX);
    assert!(w.is_ok());
}

#[test]
fn resize_keeps_written_prefix() {
    let mut buf = RawVec::<u8>::with_capacity(16);
    assert_eq!(buf.cap(), 16);
    for i in 0..4u8 {
        assert!(buf.put(i as usize, 10 + i).is_none());
    }
    buf.resize(4);
    assert_eq!(buf.cap(), 4);
    buf.resize(16);
    assert_eq!(buf.cap(), 16);
    for i in 0..4u8 {
        assert_eq!(buf.get(i as usize), Some(&(10 + i)));
    }
    assert!(buf.get(4).is_none());
}

#[test]
fn shrinking_drops_slots_past_capacity() {
    let mut buf = RawVec::<u16>::with_capacity(8);
    buf.put(6, 66);
    buf.put(1, 11);
    buf.resize(2);
    buf.resize(8);
    assert_eq!(buf.get(1), Some(&11));
    assert!(buf.get(6).is_none());
}

#[test]
fn failed_resize_leaves_buffer() {
    let mut buf = RawVec::<u64>::with_capacity(3);
    buf.put(2, 5);
    let r = buf.try_resize(usize::MAX);
    assert!(matches!(r, Err(RawVecErr::Layout(_))));
    assert_eq!(buf.cap(), 3);
    assert_eq!(buf.get(2), Some(&5));
}

#[test]
fn resize_to_zero_and_back() {
    let mut buf = RawVec::<u32>::with_capacity(5);
    buf.put(0, 1);
    assert!(buf.try_resize(0).is_ok());
    assert_eq!(buf.cap(), 0);
    assert!(buf.try_resize(5).is_ok());
    assert!(buf.get(0).is_none());
}

#[test]
fn put_and_take_slots() {
    let mut buf = RawVec::<i32>::with_capacity(4);
    assert_eq!(buf.put(3, -1), None);
    assert_eq!(buf.put(3, -2), Some(-1));
    assert_eq!(buf.take(3), Some(-2));
    assert_eq!(buf.take(3), None);
    assert_eq!(buf.take(0), None);
}

#[test]
fn raw_slice_round_trip() {
    let mut buf = RawVec::<u8>::with_capacity(3);
    buf.put(1, 9);
    let slots = buf.into_raw_slice();
    assert_eq!(slots, vec![None, Some(9), None]);
    let back = RawVec::from_raw_slice(slots);
    assert_eq!(back.cap(), 3);
    assert_eq!(back.get(1), Some(&9));
    let parts = RawVec::from_raw_parts(vec![Some(1u8)], 4);
    assert_eq!(parts.cap(), 4);
    assert_eq!(parts.get(0), Some(&1));
    assert!(parts.get(3).is_none());
}

#[test]
fn layout_checks() {
    let l = Layout::new::<u32>();
    assert_eq!(l.size(), 4);
    assert_eq!(l.align(), std::mem::align_of::<u32>());
    assert!(Layout::from_size_align(8, 3).is_err());
    assert!(Layout::from_size_align(8, 0).is_err());
    assert!(Layout::from_size_align(usize::MAX, 1).is_err());
    let ok = Layout::from_size_align(10, 8).unwrap_or_else(|_| panic!("valid layout"));
    assert_eq!((ok.size(), ok.align()), (10, 8));
}

#[test]
fn refused_request_is_alloc_error_with_layout() {
    let huge = isize::MAX as usize;
    match RawVec::<u8>::try_with_capacity(huge) {
        Err(RawVecErr::Alloc(e)) => {
            assert_eq!(e.layout.size(), huge);
            assert_eq!(e.layout.align(), 1);
        },
        other => panic!("expected an allocation failure, got {:?}", other.map(|v| v.cap())),
    }
    let mut buf = RawVec::<u8>::with_capacity(2);
    buf.put(0, 1);
    match buf.try_resize(huge) {
        Err(RawVecErr::Alloc(e)) => assert_eq!(e.layout.size(), huge),
        other => panic!("expected an allocation failure, got {:?}", other),
    }
    assert_eq!(buf.cap(), 2);
    assert_eq!(buf.get(0), Some(&1));
}
