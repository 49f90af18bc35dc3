use vstd::prelude::*;

use crate::layout::Layout;

verus! {

/// The allocator refused a request; holds the layout of the values that
/// were asked for. The buffer keeps `Option<T>` slots, so the room it asks
/// for may be wider than this layout.
#[derive(Debug, Clone, Copy, PartialEq, Eq, Structural)]
pub struct AllocErr {
    pub layout: Layout,
}

/// The size of a request does not fit the address space.
#[derive(Debug, Clone, Copy, PartialEq, Eq, Structural)]
pub struct LayoutErr;

/// The failures of the buffer's fallible operations.
#[derive(Debug, Clone, Copy, PartialEq, Eq, Structural)]
pub enum RawVecErr {
    Alloc(AllocErr),
    Layout(LayoutErr),
}

impl From<AllocErr> for RawVecErr {
    fn from(err: AllocErr) -> (r: RawVecErr)
        ensures
            r == RawVecErr::Alloc(err),
    {
        RawVecErr::Alloc(err)
    }
}

impl vstd::std_specs::convert::FromSpecImpl<AllocErr> for RawVecErr {
    open spec fn obeys_from_spec() -> bool {
        true
    }

    open spec fn from_spec(err: AllocErr) -> RawVecErr {
        RawVecErr::Alloc(err)
    }
}

impl From<LayoutErr> for RawVecErr {
    fn from(err: LayoutErr) -> (r: RawVecErr)
        ensures
            r == RawVecErr::Layout(err),
    {
        RawVecErr::Layout(err)
    }
}

impl vstd::std_specs::convert::FromSpecImpl<LayoutErr> for RawVecErr {
    open spec fn obeys_from_spec() -> bool {
        true
    }

    open spec fn from_spec(err: LayoutErr) -> RawVecErr {
        RawVecErr::Layout(err)
    }
}

} // verus!
