use vstd::prelude::*;

verus! {

/// One slot that keeps a value aside for later use, so that a value can be
/// reused instead of built again.
#[derive(Debug)]
pub struct Cache<A> {
    stored: Option<A>,
}

impl<A> View for Cache<A> {
    type V = Option<A>;

    closed spec fn view(&self) -> Option<A> {
        self.stored
    }
}

impl<A> Cache<A> {
    /// An empty cache.
    pub fn new() -> (r: Self)
        ensures
            r@ is None,
    {
        Cache { stored: None }
    }

    /// The stored value, which leaves the cache empty.
    pub fn take(&mut self) -> (r: Option<A>)
        ensures
            r == old(self)@,
            final(self)@ is None,
    {
        self.stored.take()
    }

    /// The stored value, or, where none is stored, what `create` returns;
    /// `create` is needed, and called, only then. The cache is left empty.
    pub fn take_or<F>(&mut self, create: F) -> (r: A)
        where
            F: FnOnce() -> A,
        requires
            old(self)@ is None ==> create.requires(()),
        ensures
            old(self)@ matches Some(v) ==> r == v,
            old(self)@ is None ==> create.ensures((), r),
            final(self)@ is None,
    {
        match self.take() {
            Some(v) => v,
            None => create(),
        }
    }

    /// Stores `val`, dropping what was stored before.
    pub fn store(&mut self, val: A)
        ensures
            final(self)@ == Some(val),
    {
        self.stored = Some(val);
    }
}

impl<A> Default for Cache<A> {
    fn default() -> (r: Self)
        ensures
            r@ is None,
    {
        Cache::new()
    }
}

} // verus!
