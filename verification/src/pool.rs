use vstd::prelude::*;

verus! {

/// Startup configuration: the connection URL for the backing store and the
/// largest number of live connections the pool may hold at once.
#[derive(Debug, Clone)]
pub struct Config {
    pub database_url: String,
    pub database_pool_max_size: usize,
}

/// Model of the bounded connection pool: the capacity it was created with
/// and how many connections are currently checked out. Acquire and release
/// keep the number of live leases within the capacity at all times; an
/// acquire beyond capacity is refused rather than granted.
#[derive(Debug, Clone)]
pub struct PoolModel {
    pub max_size: usize,
    pub in_use: usize,
}

impl PoolModel {
    /// The pool never has more connections checked out than its capacity.
    pub open spec fn wf(&self) -> bool {
        self.in_use <= self.max_size
    }

    /// A fresh pool of the given capacity with nothing checked out.
    pub fn new(max_size: usize) -> (r: PoolModel)
        ensures
            r.wf(),
            r.max_size == max_size,
            r.in_use == 0,
    {
        PoolModel { max_size, in_use: 0 }
    }

    /// Ask for a connection. Granted exactly when a slot is free; a request
    /// past capacity is refused (the caller sees it as pool exhaustion after
    /// its bounded wait) and changes nothing.
    pub fn try_acquire(&mut self) -> (granted: bool)
        requires
            old(self).wf(),
        ensures
            final(self).wf(),
            final(self).max_size == old(self).max_size,
            granted <==> old(self).in_use < old(self).max_size,
            granted ==> final(self).in_use == old(self).in_use + 1,
            !granted ==> final(self).in_use == old(self).in_use,
    {
        if self.in_use < self.max_size {
            self.in_use = self.in_use + 1;
            true
        } else {
            false
        }
    }

    /// Return a checked-out connection to the pool. Must be called exactly
    /// once per granted acquire, on every exit path.
    pub fn release(&mut self)
        requires
            old(self).wf(),
            old(self).in_use > 0,
        ensures
            final(self).wf(),
            final(self).max_size == old(self).max_size,
            final(self).in_use == old(self).in_use - 1,
    {
        self.in_use = self.in_use - 1;
    }
}

/// Law: however acquires and releases interleave, a well-formed pool never
/// has more than its capacity checked out, and every operation above keeps
/// it well-formed, so no run of them can exceed the bound.
pub proof fn lemma_pool_bounded(p: PoolModel)
    requires
        p.wf(),
    ensures
        p.in_use <= p.max_size,
{
}

} // verus!
