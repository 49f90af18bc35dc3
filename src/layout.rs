use vstd::prelude::*;
use vstd::arithmetic::power2::is_pow2;
use vstd::layout::{align_of, size_of, valid_layout};

use crate::err::LayoutErr;

verus! {

/// The size and alignment of a memory request.
///
/// The alignment is a power of two, and the size, rounded up to a multiple
/// of the alignment, does not exceed `isize::MAX`.
#[derive(Debug, Clone, Copy, PartialEq, Eq, Structural)]
pub struct Layout {
    size: usize,
    align: usize,
}

impl Layout {
    /// The number of bytes requested.
    pub closed spec fn size_spec(&self) -> nat {
        self.size as nat
    }

    /// The alignment requested.
    pub closed spec fn align_spec(&self) -> nat {
        self.align as nat
    }

    /// The values that `from_size_align` accepts.
    pub closed spec fn valid(&self) -> bool {
        valid_layout(self.size, self.align)
    }


    /// The layout of one value of `T`.
    pub closed spec fn of_type<T>() -> Layout {
        Layout { size: size_of::<T>() as usize, align: align_of::<T>() as usize }
    }

    /// Two layouts with the same size and alignment are the same.
    pub proof fn lemma_same(a: Layout, b: Layout)
        requires
            a.size_spec() == b.size_spec(),
            a.align_spec() == b.align_spec(),
        ensures
            a == b,
    {
    }

    /// The layout of one value of `T` has its size and alignment.
    pub proof fn lemma_of_type<T>()
        ensures
            Layout::of_type::<T>().size_spec() == size_of::<T>() as usize as nat,
            Layout::of_type::<T>().align_spec() == align_of::<T>() as usize as nat,
    {
    }

    /// Whether this layout is the one of `size` bytes aligned to `align`.
    pub open spec fn is(&self, size: nat, align: nat) -> bool {
        self.size_spec() == size && self.align_spec() == align
    }

    /// The layout for one value of `T`.
    pub fn new<T>() -> (r: Layout)
        ensures
            r.is(size_of::<T>(), align_of::<T>()),
            r.valid(),
            r == Layout::of_type::<T>(),
    {
        vstd::layout::layout_for_type_is_valid::<T>();
        Layout { size: core::mem::size_of::<T>(), align: core::mem::align_of::<T>() }
    }

    /// Builds a layout, or fails where `align` is not a power of two or
    /// `size` rounded up to `align` exceeds `isize::MAX`.
    pub fn from_size_align(size: usize, align: usize) -> (r: Result<Layout, LayoutErr>)
        ensures
            r is Ok <==> valid_layout(size, align),
            r matches Ok(l) ==> l.is(size as nat, align as nat) && l.valid(),
    {
        if align == 0 || !is_power_of_two(align) {
            proof { reveal(is_pow2); }
            return Err(LayoutErr);
        }
        let max: usize = isize::MAX as usize;
        assert(max % align <= max) by (nonlinear_arith)
            requires align > 0;
        if size > max - max % align {
            return Err(LayoutErr);
        }
        Ok(Layout { size, align })
    }

    /// The number of bytes requested.
    pub fn size(&self) -> (r: usize)
        ensures
            r as nat == self.size_spec(),
    {
        self.size
    }

    /// The alignment requested.
    pub fn align(&self) -> (r: usize)
        ensures
            r as nat == self.align_spec(),
    {
        self.align
    }
}

/// Tests `a` for being a power of two by halving it while it is even.
fn is_power_of_two(a: usize) -> (r: bool)
    ensures
        r == is_pow2(a as int),
{
    let mut x: usize = a;
    if x == 0 {
        proof { reveal(is_pow2); }
        return false;
    }
    while x > 1 && x % 2 == 0
        invariant
            x >= 1,
            is_pow2(x as int) == is_pow2(a as int),
        decreases x,
    {
        proof { reveal(is_pow2); }
        x = x / 2;
    }
    proof { reveal(is_pow2); }
    x == 1
}

} // verus!
