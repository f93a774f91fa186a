use vstd::prelude::*;

verus! {

/// Count of live objects and server locks handed out by the library.
pub struct RefCount {
    count: usize,
}

impl RefCount {
    pub closed spec fn view(&self) -> nat {
        self.count as nat
    }

    pub fn new() -> (r: RefCount)
        ensures
            r@ == 0,
    {
        RefCount { count: 0 }
    }

    pub fn is_zero(&self) -> (r: bool)
        ensures
            r == (self@ == 0),
    {
        self.count == 0
    }

    /// Counts one more reference; the count stays below half the range.
    pub fn increment(&mut self)
        requires
            old(self)@ < usize::MAX / 2,
        ensures
            final(self)@ == old(self)@ + 1,
    {
        self.count = self.count + 1;
    }

    /// Counts one reference fewer.
    pub fn decrement(&mut self)
        requires
            old(self)@ > 0,
        ensures
            final(self)@ == old(self)@ - 1,
    {
        self.count = self.count - 1;
    }
}

/// The class factory of the band object: each live factory holds one reference.
pub struct InfobandClassFactory {
    _priv: (),
}

impl InfobandClassFactory {
    /// A new factory, counted in `refcount`.
    pub fn new(refcount: &mut RefCount) -> (r: InfobandClassFactory)
        requires
            old(refcount)@ < usize::MAX / 2,
        ensures
            final(refcount)@ == old(refcount)@ + 1,
    {
        refcount.increment();
        InfobandClassFactory { _priv: () }
    }

    /// Drops the factory's reference.
    pub fn release(self, refcount: &mut RefCount)
        requires
            old(refcount)@ > 0,
        ensures
            final(refcount)@ == old(refcount)@ - 1,
    {
        refcount.decrement();
    }

    /// Locks the server in memory (`true`) or releases a lock (`false`).
    pub fn lock_server(&self, lock: bool, refcount: &mut RefCount)
        requires
            lock ==> old(refcount)@ < usize::MAX / 2,
            !lock ==> old(refcount)@ > 0,
        ensures
            final(refcount)@ == (if lock {
                old(refcount)@ + 1
            } else {
                (old(refcount)@ - 1) as nat
            }),
    {
        if lock {
            refcount.increment();
        } else {
            refcount.decrement();
        }
    }
}

} // verus!
