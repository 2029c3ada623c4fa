//! Size and alignment of a memory request.

use vstd::arithmetic::power2::is_pow2;
use vstd::layout::valid_layout;
use vstd::prelude::*;

verus! {

/// The size and the alignment of a block of memory.
///
/// The alignment is a power of two, and the size rounded up to the
/// alignment does not exceed `isize::MAX`.
#[derive(Clone, Copy, Debug, PartialEq, Eq, Structural)]
pub struct Layout {
    size: usize,
    align: usize,
}

/// The pair of a size and an alignment does not describe a valid layout.
#[derive(Clone, Copy, Debug, PartialEq, Eq, Structural)]
pub struct LayoutError;

/// Whether `n` is a power of two.
fn is_power_of_two(n: usize) -> (r: bool)
    ensures
        r == is_pow2(n as int),
{
    reveal(is_pow2);
    if n == 0 {
        return false;
    }
    let mut m: usize = n;
    while m != 1 && m % 2 == 0
        invariant
            m > 0,
            is_pow2(n as int) == is_pow2(m as int),
        decreases m,
    {
        assert(is_pow2(m as int) == is_pow2((m / 2) as int)) by {
            reveal(is_pow2);
        }
        m = m / 2;
    }
    m == 1
}

impl Layout {
    #[verifier::type_invariant]
    spec fn inv(self) -> bool {
        valid_layout(self.size, self.align)
    }

    /// The size in bytes.
    pub closed spec fn spec_size(&self) -> usize {
        self.size
    }

    /// The alignment in bytes.
    pub closed spec fn spec_align(&self) -> usize {
        self.align
    }

    /// The size in bytes.
    #[verifier::when_used_as_spec(spec_size)]
    pub fn size(&self) -> (r: usize)
        ensures
            r == self.spec_size(),
            valid_layout(self.spec_size(), self.spec_align()),
    {
        proof {
            use_type_invariant(self);
        }
        self.size
    }

    /// The alignment in bytes.
    #[verifier::when_used_as_spec(spec_align)]
    pub fn align(&self) -> (r: usize)
        ensures
            r == self.spec_align(),
            valid_layout(self.spec_size(), self.spec_align()),
    {
        proof {
            use_type_invariant(self);
        }
        self.align
    }

    /// Makes the layout of `size` bytes aligned to `align`, or fails when
    /// `align` is not a power of two or the rounded-up size overflows
    /// `isize`.
    pub fn from_size_align(size: usize, align: usize) -> (r: Result<Layout, LayoutError>)
        ensures
            r is Ok <==> valid_layout(size, align),
            r is Ok ==> r->Ok_0.size() == size && r->Ok_0.align() == align,
    {
        if !is_power_of_two(align) {
            return Err(LayoutError);
        }
        assert(align > 0) by {
            reveal(is_pow2);
        }
        let max: usize = isize::MAX as usize;
        assert(max % align <= max) by (nonlinear_arith)
            requires
                align > 0,
        ;
        if size > max - max % align {
            return Err(LayoutError);
        }
        Ok(Layout { size, align })
    }
}

} // verus!
