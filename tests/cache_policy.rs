use owned_alloc::policy::{BytesMolder, LayoutMolder, OwnedAlloc, ZeroedMolder};
use owned_alloc::UninitAlloc;
use owned_alloc::RawVec;
use owned_alloc::{AllocErr, Cache, Layout, RawVecErr};

#[test]
fn cache_stores_and_takes() {
    let mut c: Cache<u32> = Cache::new();
    assert_eq!(c.take(), None);
    c.store(5);
    assert_eq!(c.take(), Some(5));
    assert_eq!(c.take(), None);
    assert_eq!(c.take_or(|| 8), 8);
    c.store(3);
    assert_eq!(c.take_or(|| 8), 3);
    let d: Cache<u8> = Cache::default();
    let mut d = d;
    assert_eq!(d.take(), None);
}

#[test]
fn zeroed_policy_block() {
    let a: OwnedAlloc<u64, ZeroedMolder<u64>> = OwnedAlloc::new(());
    assert_eq!(a.bytes(), &vec![0u8; 8]);
    assert_eq!(a.layout().size(), 8);
    assert_eq!(a.release(), vec![0u8; 8]);
    let b: OwnedAlloc<(), ZeroedMolder<()>> = OwnedAlloc::try_new(()).unwrap_or_else(|_| panic!("no allocation"));
    assert!(b.bytes().is_empty());
    assert!(b.release().is_empty());
}

#[test]
fn error_conversions() {
    let layout = Layout::new::<u16>();
    let e: RawVecErr = AllocErr { layout }.into();
    assert_eq!(e, RawVecErr::Alloc(AllocErr { layout }));
}

#[test]
fn bytes_policy_sizes_block_at_run_time() {
    let a: OwnedAlloc<u8, BytesMolder> = OwnedAlloc::new(vec![1u8, 2, 3, 4, 5]);
    assert_eq!(a.bytes(), &vec![1u8, 2, 3, 4, 5]);
    assert_eq!(a.molder().mold_new().size(), 5);
    assert_eq!(a.molder().mold_for(a.bytes()).size(), 5);
    assert_eq!(a.layout().align(), 1);
    assert_eq!(a.release(), vec![1u8, 2, 3, 4, 5]);
    let empty: OwnedAlloc<u8, BytesMolder> = OwnedAlloc::try_new(Vec::new()).unwrap_or_else(|_| panic!("no allocation"));
    assert!(empty.bytes().is_empty());
}

#[test]
fn uninit_into_raw_vec_has_capacity_one() {
    let v: RawVec<u32> = RawVec::from(UninitAlloc::<u32>::new());
    assert_eq!(v.cap(), 1);
    assert!(v.get(0).is_none());
}
