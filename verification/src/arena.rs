//! A model of the fixed heap arena that backs every allocation.
//!
//! The arena is created exactly once, before the command loop starts,
//! and lives for the whole run.  Exclusive ownership of the handle is
//! what rules a second initialization out: there is no global to
//! initialize twice.

use vstd::prelude::*;

use crate::BootError;

verus! {

/// Bookkeeping of a fixed memory region: its total size and how much of
/// it is in use.  The invariant `used <= total` holds after every
/// operation, so the readings reported to scripts always satisfy
/// `used + free <= total`.
pub struct HeapArena {
    total_bytes: usize,
    used_bytes: usize,
}

impl HeapArena {
    /// The configured size of the region.
    pub closed spec fn spec_total(&self) -> usize {
        self.total_bytes
    }

    /// How much of the region is currently in use.
    pub closed spec fn spec_used(&self) -> usize {
        self.used_bytes
    }

    /// The arena never accounts more use than its size.
    pub open spec fn wf(&self) -> bool {
        self.spec_used() <= self.spec_total()
    }

    /// Create the arena.  A zero size is a fatal boot condition and is
    /// rejected; any other size yields an empty arena.
    pub fn try_init(size: usize) -> (r: Result<HeapArena, BootError>)
        ensures
            size == 0 ==> r == Result::<HeapArena, BootError>::Err(BootError::ZeroHeapSize),
            size > 0 ==> (r matches Ok(a) && a.spec_total() == size && a.spec_used() == 0
                && a.wf()),
    {
        if size == 0 {
            Err(BootError::ZeroHeapSize)
        } else {
            Ok(HeapArena { total_bytes: size, used_bytes: 0 })
        }
    }

    /// Account an allocation of `n` bytes.  It succeeds exactly when `n`
    /// fits in the free part of the region; exhaustion leaves the arena
    /// unchanged, so the caller can report it and carry on.
    pub fn allocate(&mut self, n: usize) -> (ok: bool)
        requires
            old(self).wf(),
        ensures
            final(self).wf(),
            final(self).spec_total() == old(self).spec_total(),
            ok <==> n <= old(self).spec_total() - old(self).spec_used(),
            ok ==> final(self).spec_used() == old(self).spec_used() + n,
            !ok ==> final(self).spec_used() == old(self).spec_used(),
    {
        if n <= self.total_bytes - self.used_bytes {
            self.used_bytes = self.used_bytes + n;
            true
        } else {
            false
        }
    }

    /// Account a deallocation of `n` bytes.
    pub fn release(&mut self, n: usize)
        requires
            old(self).wf(),
            n <= old(self).spec_used(),
        ensures
            final(self).wf(),
            final(self).spec_total() == old(self).spec_total(),
            final(self).spec_used() == old(self).spec_used() - n,
    {
        self.used_bytes = self.used_bytes - n;
    }

    /// The bytes in use.
    pub fn used(&self) -> (r: usize)
        ensures
            r == self.spec_used(),
    {
        self.used_bytes
    }

    /// The bytes still free.
    pub fn free(&self) -> (r: usize)
        requires
            self.wf(),
        ensures
            r == self.spec_total() - self.spec_used(),
    {
        self.total_bytes - self.used_bytes
    }

    /// The configured size.
    pub fn total(&self) -> (r: usize)
        ensures
            r == self.spec_total(),
    {
        self.total_bytes
    }

    /// The two readings handed to scripts: whatever allocations came
    /// before, `used + free` never exceeds the configured size.
    pub fn heap_stats(&self) -> (r: (usize, usize))
        requires
            self.wf(),
        ensures
            r.0 == self.spec_used(),
            r.1 == self.spec_total() - self.spec_used(),
            r.0 + r.1 <= self.spec_total(),
    {
        (self.used_bytes, self.total_bytes - self.used_bytes)
    }
}

} // verus!
