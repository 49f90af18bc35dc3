use vstd::prelude::*;
use vstd::layout::{align_of, size_of};

use crate::err::AllocErr;
use crate::layout::Layout;
use crate::owned::OwnedAlloc;

verus! {

/// A block sized and aligned for one `T` that holds no value yet.
///
/// The block is an empty `Vec<T>` that has room for one element: writing the
/// value in never asks the allocator again. Where `T` has size zero no
/// allocation is made at all, and dropping the handle releases the block only
/// where one was made.
#[derive(Debug)]
pub struct UninitAlloc<T> {
    block: Vec<T>,
}

impl<T> UninitAlloc<T> {
    #[verifier::type_invariant]
    spec fn holds_nothing(self) -> bool {
        self.block@.len() == 0
    }

    /// The elements of the block: none, while the handle lives.
    pub closed spec fn block_spec(&self) -> Seq<T> {
        self.block@
    }

    /// Allocates the block; where the allocator refuses, the process ends
    /// through the standard allocation failure handler.
    pub fn new() -> (r: Self)
        ensures
            r.block_spec() == Seq::<T>::empty(),
    {
        let layout = Layout::new::<T>();
        let block = if layout.size() == 0 {
            Vec::new()
        } else {
            Vec::with_capacity(1)
        };
        UninitAlloc { block }
    }

    /// Allocates the block, or reports the refused layout.
    ///
    /// A type of size zero needs no block: then the allocator is not asked and
    /// the call succeeds.
    pub fn try_new() -> (r: Result<Self, AllocErr>)
        ensures
            size_of::<T>() == 0 ==> r is Ok,
            r matches Ok(a) ==> a.block_spec() == Seq::<T>::empty(),
            r matches Err(e) ==> e.layout.is(size_of::<T>(), align_of::<T>()) && e.layout.valid(),
    {
        let layout = Layout::new::<T>();
        let mut block: Vec<T> = Vec::new();
        if layout.size() != 0 {
            if block.try_reserve(1).is_err() {
                return Err(AllocErr { layout });
            }
        }
        Ok(UninitAlloc { block })
    }

    /// Writes `val` into the block and hands the block on as its owner.
    pub fn init(self, val: T) -> (r: OwnedAlloc<T>)
        ensures
            r@ == val,
    {
        proof { use_type_invariant(&self); }
        let mut block = self.into_raw();
        block.push(val);
        OwnedAlloc::from_raw(block)
    }

    /// Writes the value that `make` builds into the block, and hands the
    /// block on as its owner.
    pub fn init_in_place<F>(self, make: F) -> (r: OwnedAlloc<T>)
        where
            F: FnOnce() -> T,
        requires
            make.requires(()),
        ensures
            make.ensures((), r@),
    {
        let val = make();
        self.init(val)
    }

    /// The block itself, which holds no element.
    pub fn raw(&self) -> (r: &Vec<T>)
        ensures
            r@.len() == 0,
            r@ == self.block_spec(),
    {
        proof { use_type_invariant(self); }
        &self.block
    }

    /// Gives up the handle and returns its block; releasing it is now the
    /// caller's affair.
    pub fn into_raw(self) -> (r: Vec<T>)
        ensures
            r@.len() == 0,
            r@ == self.block_spec(),
    {
        proof { use_type_invariant(&self); }
        self.block
    }

    /// Takes a block back as a handle. The block must hold no element.
    pub fn from_raw(block: Vec<T>) -> (r: Self)
        requires
            block@.len() == 0,
        ensures
            r.block_spec() == block@,
    {
        UninitAlloc { block }
    }
}

} // verus!
