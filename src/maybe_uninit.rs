use vstd::prelude::*;

use crate::owned::OwnedAlloc;
use crate::uninit::UninitAlloc;

verus! {

/// Either the owner of a live value or a block that holds none yet. Each
/// operation consumes the union and hands on one of the two handles.
#[derive(Debug)]
pub enum MaybeUninitAlloc<T> {
    Init(OwnedAlloc<T>),
    Uninit(UninitAlloc<T>),
}

impl<T> MaybeUninitAlloc<T> {
    /// The owner of the value: the one held, or, for a block with no value,
    /// the block with the value that `init` returns. `init` is needed, and
    /// called, only in that second case.
    pub fn or_init<F>(self, init: F) -> (r: OwnedAlloc<T>)
        where
            F: FnOnce() -> T,
        requires
            self is Uninit ==> init.requires(()),
        ensures
            self matches MaybeUninitAlloc::Init(a) ==> r@ == a@,
            self is Uninit ==> init.ensures((), r@),
    {
        match self {
            MaybeUninitAlloc::Init(a) => a,
            MaybeUninitAlloc::Uninit(a) => {
                let val = init();
                a.init(val)
            },
        }
    }

    /// The owner of the value: the one held, or, for a block with no value,
    /// the block with the value that `make` builds for it. `make` is needed,
    /// and called, only in that second case.
    pub fn or_init_in_place<F>(self, make: F) -> (r: OwnedAlloc<T>)
        where
            F: FnOnce() -> T,
        requires
            self is Uninit ==> make.requires(()),
        ensures
            self matches MaybeUninitAlloc::Init(a) ==> r@ == a@,
            self is Uninit ==> make.ensures((), r@),
    {
        match self {
            MaybeUninitAlloc::Init(a) => a,
            MaybeUninitAlloc::Uninit(a) => a.init_in_place(make),
        }
    }

    /// The owner in `Ok`, or the empty block in `Err`.
    pub fn init_as_ok(self) -> (r: Result<OwnedAlloc<T>, UninitAlloc<T>>)
        ensures
            self matches MaybeUninitAlloc::Init(a) ==> r == Ok::<OwnedAlloc<T>, UninitAlloc<T>>(a),
            self matches MaybeUninitAlloc::Uninit(a) ==> r == Err::<OwnedAlloc<T>, UninitAlloc<T>>(a),
    {
        match self {
            MaybeUninitAlloc::Init(a) => Ok(a),
            MaybeUninitAlloc::Uninit(a) => Err(a),
        }
    }

    /// The empty block in `Ok`, or the owner in `Err`.
    pub fn uninit_as_ok(self) -> (r: Result<UninitAlloc<T>, OwnedAlloc<T>>)
        ensures
            self matches MaybeUninitAlloc::Init(a) ==> r == Err::<UninitAlloc<T>, OwnedAlloc<T>>(a),
            self matches MaybeUninitAlloc::Uninit(a) ==> r == Ok::<UninitAlloc<T>, OwnedAlloc<T>>(a),
    {
        match self {
            MaybeUninitAlloc::Init(a) => Err(a),
            MaybeUninitAlloc::Uninit(a) => Ok(a),
        }
    }

    /// Hands the value, where there is one, to `visit` to change in place,
    /// and returns what `visit` returns; with no value, `None`, and `visit`
    /// is not called.
    pub fn modify<F, A>(&mut self, visit: F) -> (r: Option<A>)
        where
            F: FnOnce(&mut T) -> A,
        requires
            *old(self) is Init ==> forall|v: &mut T| visit.requires((v,)),
        ensures
            *old(self) is Uninit ==> r is None && *final(self) == *old(self),
            *old(self) is Init ==> *final(self) is Init && r is Some,
            *old(self) matches MaybeUninitAlloc::Init(a) ==> *final(self) matches MaybeUninitAlloc::Init(b)
                && r matches Some(x) && exists|v: &mut T| *v == a@ && *final(v) == b@ && visit.ensures((v,), x),
    {
        match self {
            MaybeUninitAlloc::Init(a) => {
                let v = a.get_mut();
                Some(visit(v))
            },
            MaybeUninitAlloc::Uninit(_) => None,
        }
    }
}

impl<T> From<T> for MaybeUninitAlloc<T> {
    /// A new block that holds `val`.
    fn from(val: T) -> (r: Self)
        ensures
            r matches MaybeUninitAlloc::Init(a) && a@ == val,
    {
        MaybeUninitAlloc::Init(OwnedAlloc::new(val))
    }
}

impl<T> vstd::std_specs::convert::FromSpecImpl<T> for MaybeUninitAlloc<T> {
    open spec fn obeys_from_spec() -> bool {
        false
    }

    open spec fn from_spec(val: T) -> Self {
        arbitrary()
    }
}

impl<T> From<OwnedAlloc<T>> for MaybeUninitAlloc<T> {
    fn from(alloc: OwnedAlloc<T>) -> (r: Self) {
        MaybeUninitAlloc::Init(alloc)
    }
}

impl<T> vstd::std_specs::convert::FromSpecImpl<OwnedAlloc<T>> for MaybeUninitAlloc<T> {
    open spec fn obeys_from_spec() -> bool {
        true
    }

    open spec fn from_spec(alloc: OwnedAlloc<T>) -> Self {
        MaybeUninitAlloc::Init(alloc)
    }
}

impl<T> From<UninitAlloc<T>> for MaybeUninitAlloc<T> {
    fn from(alloc: UninitAlloc<T>) -> (r: Self) {
        MaybeUninitAlloc::Uninit(alloc)
    }
}

impl<T> vstd::std_specs::convert::FromSpecImpl<UninitAlloc<T>> for MaybeUninitAlloc<T> {
    open spec fn obeys_from_spec() -> bool {
        true
    }

    open spec fn from_spec(alloc: UninitAlloc<T>) -> Self {
        MaybeUninitAlloc::Uninit(alloc)
    }
}

} // verus!
