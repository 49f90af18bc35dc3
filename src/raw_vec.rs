use vstd::prelude::*;
use vstd::layout::{align_of, size_of, valid_layout};

use crate::err::{AllocErr, LayoutErr, RawVecErr};
use crate::layout::Layout;
use crate::uninit::UninitAlloc;

verus! {

/// Whether a block of `cap` values of `T` has a size that `usize` holds and
/// that makes a valid layout with the alignment of `T`.
pub open spec fn array_fits<T>(cap: nat) -> bool {
    &&& size_of::<T>() * cap <= usize::MAX
    &&& valid_layout((size_of::<T>() * cap) as usize, align_of::<T>() as usize)
}

/// The bytes that a block of `cap` values of `T` takes.
pub open spec fn array_size<T>(cap: nat) -> nat {
    size_of::<T>() * cap
}

/// `cap` slots: those of `s` below `keep`, then empty ones.
pub open spec fn kept_slots<T>(s: Seq<Option<T>>, keep: nat, cap: nat) -> Seq<Option<T>> {
    Seq::new(cap, |i: int| if i < keep && i < s.len() { s[i] } else { None })
}

/// `cap` empty slots.
pub open spec fn empty_slots<T>(cap: nat) -> Seq<Option<T>> {
    Seq::new(cap, |i: int| None)
}

/// A change of capacity keeps each slot below both the old and the new
/// capacity, and the slots from the old capacity on are empty.
pub proof fn lemma_resize_keeps_slots<T>(before: Seq<Option<T>>, new_cap: nat)
    ensures
        kept_slots(before, before.len(), new_cap).len() == new_cap,
        forall|i: int| 0 <= i < before.len() && i < new_cap
            ==> #[trigger] kept_slots(before, before.len(), new_cap)[i] == before[i],
        forall|i: int| before.len() <= i < new_cap
            ==> #[trigger] kept_slots(before, before.len(), new_cap)[i] is None,
{
}

/// Shrinking to `small` slots and growing again to `large` keeps the slots
/// below `small`; the rest are empty.
pub proof fn lemma_shrink_then_grow<T>(before: Seq<Option<T>>, small: nat, large: nat)
    requires
        small <= before.len(),
        small <= large,
    ensures
        ({
            let shrunk = kept_slots(before, before.len(), small);
            let grown = kept_slots(shrunk, small, large);
            &&& grown.len() == large
            &&& forall|i: int| 0 <= i < small ==> #[trigger] grown[i] == before[i]
            &&& forall|i: int| small <= i < large ==> #[trigger] grown[i] is None
        }),
{
}

/// A type of size zero makes a block of size zero for any capacity, and
/// every such capacity fits the address space.
pub proof fn lemma_zero_sized_fits<T>(cap: nat)
    requires
        size_of::<T>() == 0,
        valid_layout(size_of::<T>() as usize, align_of::<T>() as usize),
    ensures
        array_fits::<T>(cap),
        array_size::<T>(cap) == 0,
{
    assert(size_of::<T>() * cap == 0);
}

/// A block with room for `cap()` values of `T`.
///
/// The buffer keeps no account of which slots hold a value: each slot of
/// `[0, cap())` is `Some` where a value was put and `None` otherwise, and that
/// is for the caller to track. Slots are made as values are put; those above
/// the highest written one are empty. Changing the capacity keeps the slots
/// below both the old and the new capacity and never asks the allocator where
/// the block's size in bytes is zero.
///
/// Unlike a raw reservation, the buffer owns the values put in its slots:
/// those in slots cut off by a smaller capacity are dropped then, and all
/// that remain are dropped with the buffer.
#[derive(Debug)]
pub struct RawVec<T> {
    slots: Vec<Option<T>>,
    cap: usize,
}

impl<T> View for RawVec<T> {
    type V = Seq<Option<T>>;

    closed spec fn view(&self) -> Seq<Option<T>> {
        kept_slots(self.slots@, self.cap as nat, self.cap as nat)
    }
}

impl<T> RawVec<T> {
    #[verifier::type_invariant]
    spec fn slots_within_capacity(self) -> bool {
        self.slots@.len() <= self.cap
    }

    /// The capacity, as a number of values.
    pub closed spec fn capacity(&self) -> nat {
        self.cap as nat
    }

    /// The view has one slot per unit of capacity.
    pub proof fn lemma_view_len(&self)
        ensures
            self@.len() == self.capacity(),
    {
    }

    /// A buffer of capacity zero; nothing is allocated.
    pub fn new() -> (r: Self)
        ensures
            r.capacity() == 0,
            r@ == Seq::<Option<T>>::empty(),
    {
        let r = RawVec { slots: Vec::new(), cap: 0 };
        assert(r@ =~= Seq::<Option<T>>::empty());
        r
    }

    /// The layout of a block of `cap` values of `T`, or `LayoutErr` where
    /// its size overflows `usize` or makes no valid layout.
    fn make_layout(cap: usize) -> (r: Result<Layout, LayoutErr>)
        ensures
            r is Ok <==> array_fits::<T>(cap as nat),
            r matches Ok(l) ==> l.is(array_size::<T>(cap as nat), align_of::<T>()) && l.valid(),
    {
        vstd::layout::layout_for_type_is_valid::<T>();
        match core::mem::size_of::<T>().checked_mul(cap) {
            None => Err(LayoutErr),
            Some(total) => Layout::from_size_align(total, core::mem::align_of::<T>()),
        }
    }

    /// A buffer of capacity `cap`, all slots empty. Where the allocator
    /// refuses, the process ends through the standard allocation failure
    /// handler. The size of the block must fit the address space.
    ///
    /// Room is asked for `Option<T>` slots, which may be wider than `T`.
    /// Where that wider room would not fit the address space, none is asked
    /// for up front, and slots are made as values are put.
    pub fn with_capacity(cap: usize) -> (r: Self)
        requires
            array_fits::<T>(cap as nat),
        ensures
            r.capacity() == cap,
            r@ == empty_slots::<T>(cap as nat),
    {
        let layout = match Self::make_layout(cap) {
            Ok(l) => l,
            Err(_) => {
                proof { assert(false); }
                return RawVec::new();
            },
        };
        let mut slots: Vec<Option<T>> = Vec::new();
        if layout.size() != 0 && Self::slots_fit(cap) {
            slots.reserve(cap);
        }
        let r = RawVec { slots, cap };
        assert(r@ =~= empty_slots::<T>(cap as nat));
        r
    }

    /// A buffer of capacity `cap`, all slots empty; `Layout` where the size
    /// of the block does not fit the address space, before the allocator is
    /// asked; `Alloc` with the layout where the allocator refuses. A block of
    /// size zero is never asked for, and never fails.
    ///
    /// The layout reported is the one of `cap` values of `T`; the room asked
    /// for holds `Option<T>` slots, which may be wider, and a request for them
    /// that overflows is reported as a refusal too.
    pub fn try_with_capacity(cap: usize) -> (r: Result<Self, RawVecErr>)
        ensures
            r == Err::<Self, RawVecErr>(RawVecErr::Layout(LayoutErr)) <==> !array_fits::<T>(cap as nat),
            array_fits::<T>(cap as nat) && array_size::<T>(cap as nat) == 0 ==> r is Ok,
            size_of::<T>() == 0 ==> r is Ok,
            r matches Ok(v) ==> v.capacity() == cap && v@ == empty_slots::<T>(cap as nat),
            r matches Err(RawVecErr::Alloc(e)) ==> array_fits::<T>(cap as nat)
                && e.layout.is(array_size::<T>(cap as nat), align_of::<T>())
                && array_size::<T>(cap as nat) > 0,
    {
        vstd::layout::layout_for_type_is_valid::<T>();
        let layout = match Self::make_layout(cap) {
            Ok(l) => l,
            Err(e) => return Err(RawVecErr::Layout(e)),
        };
        let mut slots: Vec<Option<T>> = Vec::new();
        if layout.size() != 0 {
            if slots.try_reserve(cap).is_err() {
                return Err(RawVecErr::Alloc(AllocErr { layout }));
            }
        }
        let r = RawVec { slots, cap };
        assert(r@ =~= empty_slots::<T>(cap as nat));
        Ok(r)
    }

    /// The capacity passed to the last of `with_capacity`,
    /// `try_with_capacity`, `resize` and a successful `try_resize`; zero after
    /// `new`.
    pub fn cap(&self) -> (r: usize)
        ensures
            r == self.capacity(),
    {
        self.cap
    }

    /// Changes the capacity to `new_cap`, keeping the slots below both the
    /// old and the new capacity. A block of size zero is released, or never
    /// asked for. Where the allocator refuses, the process ends through the
    /// standard allocation failure handler. The size of the new block must fit
    /// the address space.
    pub fn resize(&mut self, new_cap: usize)
        requires
            array_fits::<T>(new_cap as nat),
        ensures
            final(self).capacity() == new_cap,
            final(self)@ == kept_slots(old(self)@, old(self).capacity(), new_cap as nat),
    {
        let layout = match Self::make_layout(new_cap) {
            Ok(l) => l,
            Err(_) => {
                proof { assert(false); }
                return;
            },
        };
        let this = self.detach();
        proof { use_type_invariant(&this); }
        let RawVec { mut slots, cap } = this;
        if layout.size() != 0 && new_cap > slots.len() && Self::slots_fit(new_cap) {
            let more: usize = new_cap - slots.len();
            slots.reserve(more);
        }
        *self = Self::adopt(RawVec { slots, cap }, layout, new_cap);
    }

    /// Changes the capacity to `new_cap`, keeping the slots below both the
    /// old and the new capacity; `Layout` where the size of the new block does
    /// not fit the address space, `Alloc` with its layout where the allocator
    /// refuses. On failure the buffer is left as it was.
    ///
    /// The layout reported is the one of `new_cap` values of `T`; the room
    /// asked for holds `Option<T>` slots, which may be wider, and a request
    /// for them that overflows is reported as a refusal too. `resize` asks
    /// for no room up front where that wider room would not fit.
    pub fn try_resize(&mut self, new_cap: usize) -> (r: Result<(), RawVecErr>)
        ensures
            r == Err::<(), RawVecErr>(RawVecErr::Layout(LayoutErr)) <==> !array_fits::<T>(new_cap as nat),
            array_fits::<T>(new_cap as nat) && array_size::<T>(new_cap as nat) == 0 ==> r is Ok,
            r is Ok ==> final(self).capacity() == new_cap
                && final(self)@ == kept_slots(old(self)@, old(self).capacity(), new_cap as nat),
            r is Err ==> final(self).capacity() == old(self).capacity() && final(self)@ == old(self)@,
            r matches Err(RawVecErr::Alloc(e)) ==> array_fits::<T>(new_cap as nat)
                && e.layout.is(array_size::<T>(new_cap as nat), align_of::<T>())
                && array_size::<T>(new_cap as nat) > 0,
    {
        let layout = match Self::make_layout(new_cap) {
            Ok(l) => l,
            Err(e) => return Err(RawVecErr::Layout(e)),
        };
        let this = self.detach();
        proof { use_type_invariant(&this); }
        let RawVec { mut slots, cap } = this;
        if layout.size() != 0 && new_cap > slots.len() {
            let more: usize = new_cap - slots.len();
            if slots.try_reserve(more).is_err() {
                *self = RawVec { slots, cap };
                return Err(RawVecErr::Alloc(AllocErr { layout }));
            }
        }
        *self = Self::adopt(RawVec { slots, cap }, layout, new_cap);
        Ok(())
    }

    /// Takes the buffer out of `self`, leaving an empty one in its place.
    fn detach(&mut self) -> (r: Self)
        ensures
            r == *old(self),
    {
        let mut r = RawVec::new();
        std::mem::swap(&mut r, self);
        r
    }

    /// Whether `n` slots fit in a request of at most `isize::MAX` bytes, so
    /// that reserving room for them cannot overflow.
    fn slots_fit(n: usize) -> bool {
        match core::mem::size_of::<Option<T>>().checked_mul(n) {
            Some(bytes) => bytes <= isize::MAX as usize,
            None => false,
        }
    }

    /// `this` with capacity `new_cap`, once its block has room for it: the
    /// slots from `new_cap` on are dropped, and the block is released where
    /// `layout`, the one of `new_cap` values, has size zero.
    fn adopt(this: Self, layout: Layout, new_cap: usize) -> (r: Self)
        requires
            layout.is(array_size::<T>(new_cap as nat), align_of::<T>()),
        ensures
            r.capacity() == new_cap,
            r@ == kept_slots(this@, this.capacity(), new_cap as nat),
    {
        proof { use_type_invariant(&this); }
        let ghost before = this@;
        let RawVec { mut slots, cap } = this;
        if layout.size() == 0 && new_cap == 0 {
            slots = Vec::new();
        } else {
            let keep: usize = if new_cap < cap { new_cap } else { cap };
            slots.truncate(keep);
        }
        let r = RawVec { slots, cap: new_cap };
        assert(r@ =~= kept_slots(before, before.len(), new_cap as nat));
        r
    }

    /// The value in slot `i`, if one was put there.
    pub fn get(&self, i: usize) -> (r: Option<&T>)
        requires
            i < self.capacity(),
        ensures
            r matches Some(x) ==> self@[i as int] == Some(*x),
            r is None <==> self@[i as int] is None,
    {
        if i < self.slots.len() {
            match &self.slots[i] {
                Some(x) => Some(x),
                None => None,
            }
        } else {
            None
        }
    }

    /// Puts `val` in slot `i` and returns what the slot held before.
    pub fn put(&mut self, i: usize, val: T) -> (r: Option<T>)
        requires
            i < old(self).capacity(),
        ensures
            r == old(self)@[i as int],
            final(self).capacity() == old(self).capacity(),
            final(self)@ == old(self)@.update(i as int, Some(val)),
    {
        let ghost before = self@;
        let this = self.detach();
        proof { use_type_invariant(&this); }
        let RawVec { mut slots, cap } = this;
        if slots.len() <= i {
            fill_to(&mut slots, i + 1);
        }
        let prev = slots[i].take();
        slots[i] = Some(val);
        *self = RawVec { slots, cap };
        assert(self@ =~= before.update(i as int, Some(val)));
        prev
    }

    /// Empties slot `i` and returns what it held.
    pub fn take(&mut self, i: usize) -> (r: Option<T>)
        requires
            i < old(self).capacity(),
        ensures
            r == old(self)@[i as int],
            final(self).capacity() == old(self).capacity(),
            final(self)@ == old(self)@.update(i as int, None),
    {
        let ghost before = self@;
        let this = self.detach();
        proof { use_type_invariant(&this); }
        let RawVec { mut slots, cap } = this;
        let prev = if i < slots.len() {
            slots[i].take()
        } else {
            None
        };
        *self = RawVec { slots, cap };
        assert(self@ =~= before.update(i as int, None));
        prev
    }

    /// The slots made so far, from the first one on; each stands at its
    /// place in the view, and those past them are empty.
    pub fn raw(&self) -> (r: &Vec<Option<T>>)
        ensures
            r@.len() <= self.capacity(),
            forall|i: int| 0 <= i < r@.len() && i < self.capacity() ==> r@[i] == #[trigger] self@[i],
            forall|i: int| r@.len() <= i < self.capacity() ==> #[trigger] self@[i] is None,
    {
        proof { use_type_invariant(self); }
        &self.slots
    }

    /// Gives up the buffer and returns its `cap()` slots, the empty ones
    /// included.
    pub fn into_raw_slice(self) -> (r: Vec<Option<T>>)
        ensures
            r@ == self@,
    {
        proof { use_type_invariant(&self); }
        let ghost before = self@;
        let RawVec { mut slots, cap } = self;
        fill_to(&mut slots, cap);
        assert(slots@ =~= before);
        slots
    }

    /// Takes back slots as a buffer of capacity `cap`; the slots past the
    /// given ones are empty.
    pub fn from_raw_parts(slots: Vec<Option<T>>, cap: usize) -> (r: Self)
        requires
            slots@.len() <= cap,
        ensures
            r.capacity() == cap,
            r@ == kept_slots(slots@, cap as nat, cap as nat),
    {
        RawVec { slots, cap }
    }

    /// Takes back slots as a buffer whose capacity is their number.
    pub fn from_raw_slice(slots: Vec<Option<T>>) -> (r: Self)
        ensures
            r.capacity() == slots@.len(),
            r@ == slots@,
    {
        let cap = slots.len();
        let r = RawVec { slots, cap };
        assert(r@ =~= slots@);
        r
    }
}

/// Makes empty slots at the end of `slots` until `n` of them stand.
fn fill_to<T>(slots: &mut Vec<Option<T>>, n: usize)
    requires
        old(slots)@.len() <= n,
    ensures
        final(slots)@.len() == n,
        final(slots)@ == kept_slots(old(slots)@, old(slots)@.len(), n as nat),
{
    let ghost before = slots@;
    while slots.len() < n
        invariant
            before.len() <= slots@.len() <= n,
            slots@ == kept_slots(before, before.len(), slots@.len()),
        decreases n - slots@.len(),
    {
        slots.push(None);
        assert(slots@ =~= kept_slots(before, before.len(), slots@.len()));
    }
}

impl<T> From<UninitAlloc<T>> for RawVec<T> {
    /// A buffer with room for one value, in place of the empty block.
    fn from(alloc: UninitAlloc<T>) -> (r: Self)
        ensures
            r.capacity() == 1,
            r@ == empty_slots::<T>(1),
    {
        vstd::layout::layout_for_type_is_valid::<T>();
        assert(size_of::<T>() * 1 == size_of::<T>());
        let _ = alloc.into_raw();
        RawVec::with_capacity(1)
    }
}

impl<T> vstd::std_specs::convert::FromSpecImpl<UninitAlloc<T>> for RawVec<T> {
    open spec fn obeys_from_spec() -> bool {
        false
    }

    open spec fn from_spec(alloc: UninitAlloc<T>) -> Self {
        arbitrary()
    }
}

} // verus!
