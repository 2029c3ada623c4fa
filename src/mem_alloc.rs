//! The allocator capability, the allocation handle and the null allocator.

use crate::layout::Layout;
use vstd::prelude::*;

verus! {

/// A block of memory handed out by an allocator.
///
/// A handle is made only by an allocator's `allocate`, owns its bytes, and is
/// consumed by the matching `deallocate`: it cannot be released twice. It
/// remembers, as ghost state, the layout it was allocated for.
pub struct MemAddr {
    block: Vec<u8>,
    layout: Ghost<Layout>,
}

impl MemAddr {
    /// Number of bytes in the block.
    pub closed spec fn spec_len(&self) -> usize {
        self.block@.len() as usize
    }

    /// The layout the block was allocated for.
    pub closed spec fn layout(&self) -> Layout {
        self.layout@
    }

    /// The bytes of the block.
    pub closed spec fn bytes(&self) -> Seq<u8> {
        self.block@
    }

    /// Makes the handle of `layout` over `block`.
    pub(crate) fn new(block: Vec<u8>, layout: Ghost<Layout>) -> (r: MemAddr)
        requires
            block@.len() <= usize::MAX,
        ensures
            r.bytes() == block@,
            r.len() == block@.len(),
            r.layout() == layout@,
    {
        MemAddr { block, layout }
    }

    /// Number of bytes in the block.
    #[verifier::when_used_as_spec(spec_len)]
    pub fn len(&self) -> (r: usize)
        ensures
            r == self.spec_len(),
            r == self.bytes().len(),
    {
        self.block.len()
    }

    /// The bytes of the block.
    pub fn as_slice(&self) -> (r: &[u8])
        ensures
            r@ == self.bytes(),
    {
        self.block.as_slice()
    }
}

/// A source of raw memory.
///
/// Implementations must stay behaviourally equivalent when cloned or moved:
/// a block allocated through one value may be released through any clone of
/// it, on any thread.
pub trait TrMalloc {
    /// The error this allocator reports.
    type Err;

    /// Whether this allocator can serve requests of `layout`.
    spec fn supports(&self, layout: Layout) -> bool;

    /// Whether this allocator can serve requests of `layout`; allocates
    /// nothing.
    fn can_support(&self, layout: Layout) -> (r: bool)
        ensures
            r == self.supports(layout),
    ;

    /// Requests a block of at least `layout.size()` bytes. A block is only
    /// ever handed out for a supported layout.
    fn allocate(&self, layout: Layout) -> (r: Result<MemAddr, Self::Err>)
        ensures
            r is Ok ==> {
                &&& self.supports(layout)
                &&& r->Ok_0.len() >= layout.size()
                &&& r->Ok_0.layout() == layout
            },
    ;

    /// Releases a block that this allocator, or a clone of it, allocated for
    /// `layout`; on success returns the number of bytes released.
    fn deallocate(&self, ptr: MemAddr, layout: Layout) -> (r: Result<usize, Self::Err>)
        requires
            ptr.layout() == layout,
        ensures
            r is Ok ==> r->Ok_0 <= layout.size(),
    ;
}

/// An allocator with no memory behind it: it supports only empty requests,
/// never hands out a block, and releases anything without work.
#[derive(Debug, Clone, Copy, Default)]
pub struct FakeMalloc;

/// The error of the null allocator: an allocation was asked of it.
#[derive(Debug, Clone, Copy, Default, PartialEq, Eq, Structural)]
pub struct FakeMallocError;

impl FakeMalloc {
    /// The null allocator shared by the whole process.
    pub fn shared() -> (r: &'static FakeMalloc)
        ensures
            *r == FakeMalloc,
    {
        &FakeMalloc
    }

    /// True exactly when `layout` asks for no bytes.
    pub fn can_support(&self, layout: Layout) -> (r: bool)
        ensures
            r == (layout.size() == 0),
    {
        layout.size() == 0
    }

    /// Always fails.
    pub fn allocate(&self, layout: Layout) -> (r: Result<MemAddr, FakeMallocError>)
        ensures
            r == Err::<MemAddr, FakeMallocError>(FakeMallocError),
    {
        Err(FakeMallocError)
    }

    /// Releases nothing and reports that no byte was freed, whatever the
    /// handle and the layout.
    pub fn deallocate(&self, ptr: MemAddr, layout: Layout) -> (r: Result<usize, FakeMallocError>)
        ensures
            r == Ok::<usize, FakeMallocError>(0),
    {
        Ok(0)
    }
}

impl TrMalloc for FakeMalloc {
    type Err = FakeMallocError;

    open spec fn supports(&self, layout: Layout) -> bool {
        layout.size() == 0
    }

    fn can_support(&self, layout: Layout) -> (r: bool) {
        FakeMalloc::can_support(self, layout)
    }

    fn allocate(&self, layout: Layout) -> (r: Result<MemAddr, FakeMallocError>)
        ensures
            r is Err,
    {
        FakeMalloc::allocate(self, layout)
    }

    fn deallocate(&self, ptr: MemAddr, layout: Layout) -> (r: Result<usize, FakeMallocError>)
        ensures
            r == Ok::<usize, FakeMallocError>(0),
    {
        FakeMalloc::deallocate(self, ptr, layout)
    }
}

} // verus!
