//! An ownership-transfer arena for input buffers: a safe model of the manual
//! cross-boundary memory management the hashing interface is used with. A host
//! leases a fixed-size writable region by handle, fills it, hashes straight
//! out of it without copying, and must surrender it with the exact size it was
//! allocated with.

use vstd::prelude::*;
use crate::hash::{hash_subtree, subtree_cv, valid_subtree};

verus! {

/// Owner of all leased input regions. A handle is an index into the arena;
/// a released handle stays unusable forever (handles are never reused).
pub struct BufferArena {
    bufs: Vec<Vec<u8>>,
    live: Vec<bool>,
}

impl BufferArena {
    /// One buffer slot per handle ever allocated.
    pub closed spec fn slot_count(&self) -> nat {
        self.bufs@.len()
    }

    /// The internal bookkeeping lines up: one liveness flag per slot.
    pub closed spec fn wf(&self) -> bool {
        self.live@.len() == self.bufs@.len()
    }

    /// The handle has been allocated and not yet released.
    pub closed spec fn is_live(&self, handle: int) -> bool {
        0 <= handle < self.bufs@.len() && self.live@[handle]
    }

    /// The bytes currently held by the handle's region.
    pub closed spec fn contents(&self, handle: int) -> Seq<u8> {
        self.bufs@[handle]@
    }

    pub fn new() -> (arena: BufferArena)
        ensures
            arena.wf(),
            arena.slot_count() == 0,
    {
        BufferArena { bufs: Vec::new(), live: Vec::new() }
    }

    /// Lease a fresh zero-filled region of exactly `size` bytes. The caller
    /// owns it — and is expected to write it — until it releases it with the
    /// same size.
    pub fn alloc_input(&mut self, size: usize) -> (handle: usize)
        requires
            old(self).wf(),
        ensures
            final(self).wf(),
            handle == old(self).slot_count(),
            final(self).slot_count() == old(self).slot_count() + 1,
            final(self).is_live(handle as int),
            final(self).contents(handle as int) == Seq::new(size as nat, |i: int| 0u8),
            forall|h: int| 0 <= h < handle ==> final(self).is_live(h) == old(self).is_live(h),
            forall|h: int| 0 <= h < handle ==> final(self).contents(h) == old(self).contents(h),
    {
        let handle = self.bufs.len();
        let mut buf: Vec<u8> = Vec::new();
        while buf.len() < size
            invariant
                buf@.len() <= size,
                buf@ =~= Seq::new(buf@.len(), |i: int| 0u8),
            decreases size - buf@.len(),
        {
            buf.push(0u8);
        }
        assert(buf@ =~= Seq::new(size as nat, |i: int| 0u8));
        self.bufs.push(buf);
        self.live.push(true);
        handle
    }

    /// Replace the region's contents. The data must fill the region exactly:
    /// the region's size is fixed for its whole lease.
    pub fn write_input(&mut self, handle: usize, data: &[u8])
        requires
            old(self).wf(),
            old(self).is_live(handle as int),
            data@.len() == old(self).contents(handle as int).len(),
        ensures
            final(self).wf(),
            final(self).slot_count() == old(self).slot_count(),
            final(self).contents(handle as int) == data@,
            forall|h: int| 0 <= h < old(self).slot_count() ==>
                final(self).is_live(h) == old(self).is_live(h),
            forall|h: int| 0 <= h < old(self).slot_count() && h != handle ==>
                final(self).contents(h) == old(self).contents(h),
    {
        let buf = vstd::slice::slice_to_vec(data);
        self.bufs[handle] = buf;
    }

    /// Surrender the region. `size` must be the exact size it was allocated
    /// with; the handle is dead afterwards and its bytes are gone.
    pub fn free_input(&mut self, handle: usize, size: usize)
        requires
            old(self).wf(),
            old(self).is_live(handle as int),
            size == old(self).contents(handle as int).len(),
        ensures
            final(self).wf(),
            final(self).slot_count() == old(self).slot_count(),
            !final(self).is_live(handle as int),
            forall|h: int| 0 <= h < old(self).slot_count() && h != handle ==>
                final(self).is_live(h) == old(self).is_live(h),
            forall|h: int| 0 <= h < old(self).slot_count() && h != handle ==>
                final(self).contents(h) == old(self).contents(h),
    {
        self.bufs[handle] = Vec::new();
        self.live[handle] = false;
    }

    /// Zero-copy equivalent of `hash_subtree`: the non-root chaining value of
    /// the span held by a live region, read in place. `size` must be the exact
    /// size the region was allocated with.
    pub fn hash_subtree_ptr(&self, handle: usize, size: usize, input_offset: u64) -> (r: Vec<u8>)
        requires
            self.wf(),
            self.is_live(handle as int),
            size == self.contents(handle as int).len(),
            valid_subtree(input_offset as nat, size as nat),
        ensures
            r@.len() == 32,
            r@ == subtree_cv(self.contents(handle as int), input_offset as nat),
    {
        hash_subtree(self.bufs[handle].as_slice(), input_offset)
    }
}

} // verus!
