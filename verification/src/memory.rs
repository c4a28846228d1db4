//! The memory manager: a shared region for the fast path and a protected
//! region behind one lock for state that several threads touch.

use crate::region::allocated;
use crate::region::buffer_too_small;
use crate::region::lookup;
use crate::region::write_fits;
use crate::region::written;
use crate::region::zeroed;
use crate::region::MemoryRegion;
use std::sync::Arc;
use vstd::prelude::*;
use vstd::rwlock::RwLock;
use vstd::rwlock::RwLockPredicate;
use vstd::slice::slice_to_vec;

verus! {

/// What the lock of the protected memory admits: any well-formed region.
struct WellFormedRegion;

impl RwLockPredicate<MemoryRegion> for WellFormedRegion {
    open spec fn inv(self, region: MemoryRegion) -> bool {
        region.wf()
    }
}

/// Manages the memory that algorithms work on.
///
/// The shared memory is unsynchronized: whoever holds the manager mutably is
/// its only writer. The protected memory sits behind one lock that covers its
/// whole mapping; each protected operation holds the lock for its own
/// duration, so protected operations exclude one another and never wait for a
/// shared one.
pub struct MemoryManager {
    shared_memory: MemoryRegion,
    protected_memory: Arc<RwLock<MemoryRegion, WellFormedRegion>>,
}

impl View for MemoryManager {
    type V = Map<Seq<char>, Seq<u8>>;

    /// The shared memory. What the protected memory holds is settled under
    /// its lock at each call and is no part of this model.
    closed spec fn view(&self) -> Map<Seq<char>, Seq<u8>> {
        self.shared_memory@
    }
}

impl MemoryManager {
    /// The shared memory is well-formed.
    pub closed spec fn wf(&self) -> bool {
        self.shared_memory.wf()
    }

    /// A manager whose two memories are empty.
    pub fn new() -> (manager: Self)
        ensures
            manager.wf(),
            manager@ == Map::<Seq<char>, Seq<u8>>::empty(),
    {
        MemoryManager {
            shared_memory: MemoryRegion::new(),
            protected_memory: Arc::new(RwLock::new(MemoryRegion::new(), Ghost(WellFormedRegion))),
        }
    }

    /// Puts a zero-filled buffer of `size` bytes under `key` in the shared
    /// memory and returns a mutable view of it. A buffer already under `key`
    /// is discarded. What the caller writes through the view is what the
    /// shared memory then holds under `key`.
    pub fn allocate(&mut self, key: &str, size: usize) -> (buffer: &mut [u8])
        requires
            old(self).wf(),
        ensures
            final(self).wf(),
            buffer@ == zeroed(size as nat),
            final(self)@ == old(self)@.insert(key@, final(buffer)@),
            final(buffer)@ == buffer@ ==> final(self)@ == allocated(old(self)@, key@, size as nat),
    {
        self.shared_memory.allocate(key, size)
    }

    /// The shared buffer under `key`, or `None` where the key is free.
    pub fn read(&self, key: &str) -> (buffer: Option<&[u8]>)
        requires
            self.wf(),
        ensures
            match buffer {
                Some(bytes) => lookup(self@, key@) == Some(bytes@),
                None => lookup(self@, key@) is None,
            },
    {
        self.shared_memory.read(key)
    }

    /// Writes `data` under `key` in the shared memory. An existing buffer that
    /// is long enough gets `data` as its prefix and keeps the rest; a free key
    /// gets a copy of `data`. Where the existing buffer is shorter than
    /// `data`, nothing is written and the failure names the key.
    pub fn write(&mut self, key: &str, data: &[u8]) -> (outcome: Result<(), String>)
        requires
            old(self).wf(),
        ensures
            final(self).wf(),
            write_fits(old(self)@, key@, data@) ==> outcome is Ok && final(self)@ == written(
                old(self)@,
                key@,
                data@,
            ),
            !write_fits(old(self)@, key@, data@) ==> final(self)@ == old(self)@ && (
            outcome matches Err(message) && message@ == buffer_too_small(key@)),
    {
        self.shared_memory.write(key, data)
    }

    /// Puts a zero-filled buffer of `size` bytes under `key` in the protected
    /// memory, as [`MemoryRegion::allocate`] does, while holding the lock.
    pub fn allocate_protected(&self, key: &str, size: usize) {
        let (mut region, handle) = self.protected_memory.acquire_write();
        let _ = region.allocate(key, size);
        handle.release_write(region);
    }

    /// A copy of the protected buffer under `key`, taken as
    /// [`MemoryRegion::read`] reads it while holding the lock, or `None` where
    /// the key is free.
    pub fn read_protected(&self, key: &str) -> (buffer: Option<Vec<u8>>) {
        let (region, handle) = self.protected_memory.acquire_write();
        let buffer = match region.read(key) {
            Some(bytes) => Some(slice_to_vec(bytes)),
            None => None,
        };
        handle.release_write(region);
        buffer
    }

    /// Writes `data` under `key` in the protected memory, as
    /// [`MemoryRegion::write`] does, while holding the lock. The lock is
    /// released whether or not the write succeeds.
    pub fn write_protected(&self, key: &str, data: &[u8]) -> (outcome: Result<(), String>)
        ensures
            outcome matches Err(message) ==> message@ == buffer_too_small(key@),
            data@.len() == 0 ==> outcome is Ok,
    {
        let (mut region, handle) = self.protected_memory.acquire_write();
        let outcome = region.write(key, data);
        handle.release_write(region);
        outcome
    }
}

impl Default for MemoryManager {
    fn default() -> (manager: Self)
        ensures
            manager.wf(),
            manager@ == Map::<Seq<char>, Seq<u8>>::empty(),
    {
        MemoryManager::new()
    }
}

} // verus!
