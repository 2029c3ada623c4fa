//! The allocator backed by the process-wide global allocator.

use crate::layout::Layout;
use crate::mem_alloc::{MemAddr, TrMalloc};
use std::collections::TryReserveError;
use vstd::prelude::*;

verus! {

/// The allocator that takes its memory from the process-wide global
/// allocator. One instance serves the whole process, see [`StdGlobalAlloc::shared`].
#[derive(Debug, Clone, Copy, Default)]
pub struct StdGlobalAlloc;

/// The error of the global allocator: it could not provide the block.
#[derive(Debug, Clone, Copy, Default, PartialEq, Eq, Structural)]
pub struct StdGlobalAllocError;

impl StdGlobalAlloc {
    /// `block` is what a successful allocation of `layout` hands out: exactly
    /// `layout.size()` zeroed bytes, allocated for `layout`.
    pub open spec fn allocated(layout: Layout, block: MemAddr) -> bool {
        &&& block.len() == layout.size()
        &&& block.layout() == layout
        &&& block.bytes() == Seq::new(layout.size() as nat, |i: int| 0u8)
    }

    /// The global allocator shared by the whole process. Every call returns
    /// the same instance.
    pub fn shared() -> (r: &'static StdGlobalAlloc)
        ensures
            *r == StdGlobalAlloc,
    {
        &StdGlobalAlloc
    }

    /// Always true: the global allocator serves every layout.
    pub fn can_support(&self, layout: Layout) -> (r: bool)
        ensures
            r,
    {
        true
    }

    /// Asks the global allocator for `layout.size()` bytes. On success the
    /// block holds exactly the requested number of bytes, all zero.
    pub fn allocate(&self, layout: Layout) -> (r: Result<MemAddr, StdGlobalAllocError>)
        ensures
            r is Ok ==> Self::allocated(layout, r->Ok_0),
    {
        let mut block: Vec<u8> = Vec::new();
        let reserved = block.try_reserve(layout.size());
        Self::finish_allocate(block, reserved, layout)
    }

    /// Turns the outcome `reserved` of reserving room for `layout.size()`
    /// bytes in `block` into the result of an allocation of `layout`: the
    /// block, emptied and then filled with that many zeros, or the error when
    /// the reservation failed.
    pub fn finish_allocate(
        block: Vec<u8>,
        reserved: Result<(), TryReserveError>,
        layout: Layout,
    ) -> (r: Result<MemAddr, StdGlobalAllocError>)
        ensures
            r is Ok <==> reserved is Ok,
            r is Ok ==> Self::allocated(layout, r->Ok_0),
    {
        match reserved {
            Err(_) => Err(StdGlobalAllocError),
            Ok(()) => {
                let mut block = block;
                block.clear();
                let n: usize = layout.size();
                let mut i: usize = 0;
                while i < n
                    invariant
                        i <= n,
                        n == layout.size(),
                        block@ == Seq::new(i as nat, |j: int| 0u8),
                    decreases n - i,
                {
                    block.push(0u8);
                    i = i + 1;
                    assert(block@ =~= Seq::new(i as nat, |j: int| 0u8));
                }
                Ok(MemAddr::new(block, Ghost(layout)))
            },
        }
    }

    /// Hands the block of `ptr`, allocated for `layout`, back to the global
    /// allocator and reports `layout.size()` bytes freed.
    pub fn deallocate(&self, ptr: MemAddr, layout: Layout) -> (r: Result<usize, StdGlobalAllocError>)
        requires
            ptr.layout() == layout,
        ensures
            r == Ok::<usize, StdGlobalAllocError>(layout.size()),
    {
        Ok(layout.size())
    }
}

impl TrMalloc for StdGlobalAlloc {
    type Err = StdGlobalAllocError;

    open spec fn supports(&self, layout: Layout) -> bool {
        true
    }

    fn can_support(&self, layout: Layout) -> (r: bool) {
        StdGlobalAlloc::can_support(self, layout)
    }

    fn allocate(&self, layout: Layout) -> (r: Result<MemAddr, StdGlobalAllocError>)
        ensures
            r is Ok ==> StdGlobalAlloc::allocated(layout, r->Ok_0),
    {
        StdGlobalAlloc::allocate(self, layout)
    }

    fn deallocate(&self, ptr: MemAddr, layout: Layout) -> (r: Result<usize, StdGlobalAllocError>)
        ensures
            r == Ok::<usize, StdGlobalAllocError>(layout.size()),
    {
        StdGlobalAlloc::deallocate(self, ptr, layout)
    }
}

/// A block that the global allocator handed out for `layout` can be released
/// for that same layout, and releasing it frees exactly its length, the
/// requested size.
pub proof fn lemma_global_round_trip(layout: Layout, block: MemAddr)
    requires
        StdGlobalAlloc::allocated(layout, block),
    ensures
        block.layout() == layout,
        block.len() == layout.size(),
{
}

} // verus!
