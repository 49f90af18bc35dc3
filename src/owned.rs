use vstd::prelude::*;
use vstd::layout::{align_of, size_of};

use crate::err::AllocErr;
use crate::uninit::UninitAlloc;

verus! {

/// Giving up an owner for its block and taking the block back yields an
/// owner of the same value: the block that `into_raw` returns is one that
/// `from_raw` accepts, and every owner that `from_raw` builds from it holds
/// the value given up.
pub proof fn lemma_raw_round_trip<T>(a: OwnedAlloc<T>, block: Vec<T>)
    requires
        call_ensures(OwnedAlloc::<T>::into_raw, (a,), block),
    ensures
        call_requires(OwnedAlloc::<T>::from_raw, (block,)),
        forall|b: OwnedAlloc<T>| #[trigger] call_ensures(OwnedAlloc::<T>::from_raw, (block,), b) ==> b@ == a@,
{
}

/// A block that holds one live value of `T`, and owns both.
///
/// The block is a `Vec<T>` of exactly one element. Dropping the handle drops
/// the value once and then releases the block, where the type's size made one
/// necessary.
#[derive(Debug)]
pub struct OwnedAlloc<T> {
    block: Vec<T>,
}

impl<T> View for OwnedAlloc<T> {
    type V = T;

    closed spec fn view(&self) -> T {
        self.block@[0]
    }
}

impl<T> OwnedAlloc<T> {
    #[verifier::type_invariant]
    spec fn holds_one(self) -> bool {
        self.block@.len() == 1
    }

    /// Allocates a block and moves `val` into it; where the allocator refuses,
    /// the process ends through the standard allocation failure handler.
    pub fn new(val: T) -> (r: Self)
        ensures
            r@ == val,
    {
        UninitAlloc::new().init(val)
    }

    /// Allocates a block and moves `val` into it, or reports the refused
    /// layout. A type of size zero never fails.
    pub fn try_new(val: T) -> (r: Result<Self, AllocErr>)
        ensures
            size_of::<T>() == 0 ==> r is Ok,
            r matches Ok(a) ==> a@ == val,
            r matches Err(e) ==> e.layout.is(size_of::<T>(), align_of::<T>()) && e.layout.valid(),
    {
        match UninitAlloc::try_new() {
            Ok(alloc) => Ok(alloc.init(val)),
            Err(e) => Err(e),
        }
    }

    /// Moves the value out and keeps the block, empty, for another value.
    pub fn move_inner(self) -> (r: (T, UninitAlloc<T>))
        ensures
            r.0 == self@,
            r.1.block_spec() == Seq::<T>::empty(),
    {
        proof { use_type_invariant(&self); }
        let mut block = self.block;
        let val = block.swap_remove(0);
        (val, UninitAlloc::from_raw(block))
    }

    /// Drops the value where it stands and keeps the block, now empty.
    pub fn drop_in_place(self) -> (r: UninitAlloc<T>)
        ensures
            r.block_spec() == Seq::<T>::empty(),
    {
        let mut block = self.into_raw();
        block.clear();
        UninitAlloc::from_raw(block)
    }

    /// The block itself, which holds the value.
    pub fn raw(&self) -> (r: &Vec<T>)
        ensures
            r@ == seq![self@],
    {
        proof { use_type_invariant(self); }
        assert(self.block@ =~= seq![self@]);
        &self.block
    }

    /// Gives up the handle and returns its block with the value in it;
    /// dropping both is now the caller's affair.
    pub fn into_raw(self) -> (r: Vec<T>)
        ensures
            r@ == seq![self@],
    {
        proof { use_type_invariant(&self); }
        assert(self.block@ =~= seq![self@]);
        self.block
    }

    /// Takes a block back as the owner of its value. The block must hold
    /// exactly one element.
    pub fn from_raw(block: Vec<T>) -> (r: Self)
        requires
            block@.len() == 1,
        ensures
            r@ == block@[0],
    {
        OwnedAlloc { block }
    }

    /// The value.
    pub fn get(&self) -> (r: &T)
        ensures
            *r == self@,
    {
        proof { use_type_invariant(self); }
        &self.block[0]
    }
}

impl<T> OwnedAlloc<T> {
    /// The value, to change in place.
    pub fn get_mut(&mut self) -> (r: &mut T)
        ensures
            *r == old(self)@,
            final(self)@ == *final(r),
    {
        proof { use_type_invariant(&*self); }
        &mut self.block[0]
    }
}

impl<T> core::ops::Deref for OwnedAlloc<T> {
    type Target = T;

    fn deref(&self) -> (r: &T)
        ensures
            *r == self@,
    {
        self.get()
    }
}

impl<T> core::ops::DerefMut for OwnedAlloc<T> {
    fn deref_mut(&mut self) -> (r: &mut T)
        ensures
            *r == old(self)@,
            final(self)@ == *final(r),
    {
        self.get_mut()
    }
}

impl<T: Clone> Clone for OwnedAlloc<T> {
    /// A new block holding a clone of the value.
    fn clone(&self) -> (r: Self)
        ensures
            cloned(self@, r@),
    {
        OwnedAlloc::new(self.get().clone())
    }
}

} // verus!

verus! {

impl<T> From<T> for OwnedAlloc<T> {
    /// A new block that holds `val`.
    fn from(val: T) -> (r: Self)
        ensures
            r@ == val,
    {
        OwnedAlloc::new(val)
    }
}

impl<T> vstd::std_specs::convert::FromSpecImpl<T> for OwnedAlloc<T> {
    open spec fn obeys_from_spec() -> bool {
        false
    }

    open spec fn from_spec(val: T) -> Self {
        arbitrary()
    }
}

} // verus!
