use vstd::prelude::*;

use vstd::layout::{size_of, valid_layout};

use crate::layout::Layout;

verus! {

/// A policy that decides the layout of a block, and tears down what the
/// block holds before the block is released.
///
/// `mold_for` must give, for the live block, the very layout that
/// `mold_new` gave when the block was made: releasing a block with another
/// layout would be wrong. The contracts below hold every implementation to
/// that.
pub trait LayoutMolder<T>: Sized {
    /// The layout of this policy's blocks.
    spec fn molded(&self) -> Layout;

    /// The layout to allocate a new block with.
    fn mold_new(&self) -> (r: Layout)
        ensures
            r == self.molded(),
    ;

    /// The layout of a live block, computed from the block.
    fn mold_for(&self, block: &Vec<u8>) -> (r: Layout)
        requires
            block@.len() == self.molded().size_spec(),
        ensures
            r == self.molded(),
    ;

    /// Tears down what `block` holds, leaving its length as it is.
    fn deinit(&self, block: &mut Vec<u8>)
        requires
            old(block)@.len() == self.molded().size_spec(),
        ensures
            final(block)@.len() == old(block)@.len(),
    ;
}

/// A policy that can be built from the argument of a new block, and can
/// write that argument into the block.
pub trait MolderInit<T, U>: LayoutMolder<T> {
    /// The policy for a block made from `arg`.
    fn create(arg: &U) -> (r: Self);

    /// Fills the new, empty `block` from `arg`, up to the size of the layout.
    fn init(&self, block: &mut Vec<u8>, arg: U)
        requires
            old(block)@.len() == 0,
        ensures
            final(block)@.len() == self.molded().size_spec(),
    ;
}

/// A block whose layout a policy of type `M` decides, with the policy that
/// made it. The block is allocated, then filled by the policy; `release`
/// lets the policy tear the contents down and hands back the block, whose
/// drop releases it. A block of size zero is never asked of the allocator,
/// but it is filled and torn down all the same.
pub struct OwnedAlloc<T, M>
    where
        M: LayoutMolder<T>,
{
    block: Vec<u8>,
    molder: M,
    marker: core::marker::PhantomData<T>,
}

impl<T, M> OwnedAlloc<T, M>
    where
        M: LayoutMolder<T>,
{
    #[verifier::type_invariant]
    spec fn sized_by_molder(self) -> bool {
        self.block@.len() == self.molder.molded().size_spec()
    }

    /// The policy of the block.
    pub closed spec fn molder_spec(&self) -> M {
        self.molder
    }

    /// The contents of the block.
    pub closed spec fn bytes_spec(&self) -> Seq<u8> {
        self.block@
    }

    /// Builds the policy from `init`, allocates a block of its layout and
    /// lets the policy fill it; where the allocator refuses, the process ends
    /// through the standard allocation failure handler.
    pub fn new<U>(init: U) -> (r: Self)
        where
            M: MolderInit<T, U>,
        ensures
            r.bytes_spec().len() == r.molder_spec().molded().size_spec(),
            call_ensures(M::create, (&init,), r.molder_spec()),
            exists|b: &mut Vec<u8>|
                b@.len() == 0 && #[trigger] final(b)@ == r.bytes_spec()
                    && call_ensures(M::init, (&r.molder_spec(), b, init), ()),
    {
        let molder = M::create(&init);
        let layout = molder.mold_new();
        let mut block: Vec<u8> = Vec::new();
        if layout.size() != 0 {
            block.reserve(layout.size());
        }
        molder.init(&mut block, init);
        OwnedAlloc { block, molder, marker: core::marker::PhantomData }
    }

    /// Builds the policy from `init`, allocates a block of its layout and
    /// lets the policy fill it; where the allocator refuses, the layout it
    /// refused. A layout of size zero is never asked of the allocator, and
    /// never fails; the policy fills the block for every size.
    pub fn try_new<U>(init: U) -> (r: Result<Self, Layout>)
        where
            M: MolderInit<T, U>,
        ensures
            r matches Ok(a) ==> a.bytes_spec().len() == a.molder_spec().molded().size_spec()
                && call_ensures(M::create, (&init,), a.molder_spec())
                && exists|b: &mut Vec<u8>|
                    b@.len() == 0 && #[trigger] final(b)@ == a.bytes_spec()
                        && call_ensures(M::init, (&a.molder_spec(), b, init), ()),
            r matches Err(l) ==> l.size_spec() > 0 && exists|m: M| call_ensures(M::create, (&init,), m) && l == m.molded(),
    {
        let molder = M::create(&init);
        let layout = molder.mold_new();
        let mut block: Vec<u8> = Vec::new();
        if layout.size() != 0 {
            if block.try_reserve(layout.size()).is_err() {
                return Err(layout);
            }
        }
        molder.init(&mut block, init);
        Ok(OwnedAlloc { block, molder, marker: core::marker::PhantomData })
    }

    /// The policy of the block.
    pub fn molder(&self) -> (r: &M)
        ensures
            *r == self.molder_spec(),
    {
        &self.molder
    }

    /// The layout of the live block, as the policy recomputes it from the
    /// block: the one the block was made with.
    pub fn layout(&self) -> (r: Layout)
        ensures
            r == self.molder_spec().molded(),
    {
        proof { use_type_invariant(self); }
        self.molder.mold_for(&self.block)
    }

    /// Ends the handle: the policy tears the contents down, for every size of
    /// block, and the torn-down block is handed back; dropping it releases
    /// its memory, where the layout's size made any necessary. Dropping the
    /// handle without this call releases the block without the teardown.
    pub fn release(self) -> (r: Vec<u8>)
        ensures
            r@.len() == self.molder_spec().molded().size_spec(),
            exists|b: &mut Vec<u8>|
                b@ == self.bytes_spec() && #[trigger] final(b)@ == r@
                    && call_ensures(M::deinit, (&self.molder_spec(), b), ()),
    {
        proof { use_type_invariant(&self); }
        let molder = self.molder;
        let mut block = self.block;
        molder.deinit(&mut block);
        block
    }

    /// The contents of the block.
    pub fn bytes(&self) -> (r: &Vec<u8>)
        ensures
            r@ == self.bytes_spec(),
    {
        &self.block
    }
}

/// The policy of a block with the fixed layout of one `T`, filled with zero
/// bytes when it is made and wiped back to zeros when it is torn down.
pub struct ZeroedMolder<T> {
    marker: core::marker::PhantomData<T>,
}

/// Whether every byte of `s` is zero.
pub open spec fn all_zero(s: Seq<u8>) -> bool {
    forall|i: int| 0 <= i < s.len() ==> s[i] == 0
}

impl<T> LayoutMolder<T> for ZeroedMolder<T> {
    open spec fn molded(&self) -> Layout {
        Layout::of_type::<T>()
    }

    fn mold_new(&self) -> (r: Layout) {
        Layout::new::<T>()
    }

    fn mold_for(&self, block: &Vec<u8>) -> (r: Layout) {
        Layout::new::<T>()
    }

    fn deinit(&self, block: &mut Vec<u8>)
        ensures
            all_zero(final(block)@),
    {
        let n = block.len();
        let mut i: usize = 0;
        while i < n
            invariant
                n == block@.len(),
                i <= n,
                forall|j: int| 0 <= j < i ==> block@[j] == 0,
            decreases n - i,
        {
            block[i] = 0;
            i = i + 1;
        }
    }
}

impl<T> MolderInit<T, ()> for ZeroedMolder<T> {
    fn create(arg: &()) -> (r: Self) {
        ZeroedMolder { marker: core::marker::PhantomData }
    }

    fn init(&self, block: &mut Vec<u8>, arg: ())
        ensures
            all_zero(final(block)@),
    {
        let layout = Layout::new::<T>();
        let n = layout.size();
        while block.len() < n
            invariant
                n as nat == size_of::<T>(),
                block@.len() <= n,
                all_zero(block@),
            decreases n - block@.len(),
        {
            block.push(0);
        }
    }
}

/// The policy of a block that holds a copy of a byte string whose length is
/// known only when the block is made. The live block's length is the size
/// of its layout, so the layout is recomputed from the block itself.
pub struct BytesMolder {
    layout: Layout,
}

impl BytesMolder {
    #[verifier::type_invariant]
    spec fn byte_aligned(self) -> bool {
        self.layout.valid() && self.layout.align_spec() == 1
    }
}

impl LayoutMolder<u8> for BytesMolder {
    closed spec fn molded(&self) -> Layout {
        self.layout
    }

    fn mold_new(&self) -> (r: Layout) {
        self.layout
    }

    fn mold_for(&self, block: &Vec<u8>) -> (r: Layout) {
        proof { use_type_invariant(self); }
        match Layout::from_size_align(block.len(), 1) {
            Ok(l) => {
                proof { Layout::lemma_same(l, self.layout); }
                l
            },
            Err(_) => self.layout,
        }
    }

    fn deinit(&self, block: &mut Vec<u8>) {
    }
}

impl MolderInit<u8, Vec<u8>> for BytesMolder {
    /// The layout of `arg.len()` bytes; a length that no layout admits,
    /// which no `Vec<u8>` has, gets the empty layout.
    fn create(arg: &Vec<u8>) -> (r: Self)
        ensures
            valid_layout(arg@.len() as usize, 1) ==> r.molded().size_spec() == arg@.len(),
    {
        let layout = match Layout::from_size_align(arg.len(), 1) {
            Ok(l) => l,
            Err(_) => Layout::new::<()>(),
        };
        proof { broadcast use vstd::layout::layout_of_unit_tuple; }
        BytesMolder { layout }
    }

    /// Copies `arg` into the block, cut or padded with zeros to the size of
    /// the layout where `arg` is not the string the policy was made from.
    fn init(&self, block: &mut Vec<u8>, arg: Vec<u8>)
        ensures
            arg@.len() == self.molded().size_spec() ==> final(block)@ == arg@,
    {
        let n = self.layout.size();
        let mut i: usize = 0;
        while i < n
            invariant
                n as nat == self.molded().size_spec(),
                i <= n,
                block@.len() == i,
                arg@.len() == n ==> block@ == arg@.subrange(0, i as int),
            decreases n - i,
        {
            let byte: u8 = if i < arg.len() { arg[i] } else { 0 };
            block.push(byte);
            i = i + 1;
            proof {
                if arg@.len() == n {
                    assert(block@ =~= arg@.subrange(0, i as int));
                }
            }
        }
        proof {
            if arg@.len() == n {
                assert(arg@.subrange(0, n as int) =~= arg@);
            }
        }
    }
}

} // verus!
