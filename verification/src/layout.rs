//! Allocation requests and the byte ranges that answer them.

use vstd::arithmetic::power2::is_pow2;
use vstd::layout::valid_layout;
use vstd::prelude::*;

use crate::error::ArenaError;

verus! {

/// Decides whether `n` is a power of two.
pub fn is_power_of_two(n: usize) -> (r: bool)
    ensures
        r == is_pow2(n as int),
{
    if n == 0 {
        proof {
            reveal(is_pow2);
        }
        return false;
    }
    let mut m: usize = n;
    while m % 2 == 0
        invariant
            m > 0,
            is_pow2(m as int) == is_pow2(n as int),
        decreases m,
    {
        proof {
            reveal(is_pow2);
        }
        m = m / 2;
    }
    proof {
        reveal(is_pow2);
    }
    m == 1
}

/// The largest size that a request with alignment `align` may have: rounded
/// up to `align` it still fits in `isize`.
pub open spec fn max_size_for_align(align: usize) -> int {
    isize::MAX as int - (isize::MAX as int % align as int)
}

/// With a power of two as alignment, the largest size is a multiple of the
/// alignment and fits in `isize`.
pub proof fn lemma_max_size_bounds(align: usize)
    requires
        is_pow2(align as int),
    ensures
        align > 0,
        0 <= max_size_for_align(align) <= isize::MAX,
        max_size_for_align(align) % align as int == 0,
{
    reveal(is_pow2);
    let m = isize::MAX as int;
    let a = align as int;
    assert(0 <= m % a <= m) by (nonlinear_arith)
        requires
            a > 0,
            m >= 0,
    ;
    assert((m - m % a) % a == 0) by (nonlinear_arith)
        requires
            a > 0,
    ;
}

/// A request for memory: a size in bytes and an alignment.
///
/// Every value is valid: the alignment is a power of two, and the size rounded
/// up to the alignment does not exceed `isize::MAX`.
#[derive(Clone, Copy, Debug, PartialEq, Eq, Structural)]
pub struct Layout {
    size: usize,
    align: usize,
}

impl Layout {
    #[verifier::type_invariant]
    spec fn inv(self) -> bool {
        valid_layout(self.size, self.align)
    }

    /// The size in bytes.
    pub closed spec fn spec_size(&self) -> usize {
        self.size
    }

    /// The alignment in bytes.
    pub closed spec fn spec_align(&self) -> usize {
        self.align
    }

    /// Makes a layout of `size` bytes aligned to `align`.
    ///
    /// Fails with `InvalidLayout` exactly when `align` is no power of two
    /// (zero included) or `size` is larger than `max_size_for_align(align)`.
    pub fn from_size_align(size: usize, align: usize) -> (r: Result<Layout, ArenaError>)
        ensures
            valid_layout(size, align) ==> r.is_ok() && r.unwrap().size() == size
                && r.unwrap().align() == align,
            !valid_layout(size, align) ==> r == Err::<Layout, ArenaError>(
                ArenaError::InvalidLayout,
            ),
    {
        if !is_power_of_two(align) {
            return Err(ArenaError::InvalidLayout);
        }
        proof {
            reveal(is_pow2);
        }
        let max: usize = isize::MAX as usize;
        assert(max % align <= max) by (nonlinear_arith)
            requires
                align > 0,
        ;
        if size > max - max % align {
            return Err(ArenaError::InvalidLayout);
        }
        Ok(Layout { size, align })
    }

    /// The layout of one value of type `T`.
    pub fn of<T>() -> (r: Layout)
        ensures
            r.size() as nat == vstd::layout::size_of::<T>(),
            r.align() as nat == vstd::layout::align_of::<T>(),
    {
        vstd::layout::layout_for_type_is_valid::<T>();
        Layout { size: core::mem::size_of::<T>(), align: core::mem::align_of::<T>() }
    }

    /// The layout of `n` values of layout `self`, one after the other.
    ///
    /// Fails with `InvalidLayout` exactly when the total size is larger than
    /// `max_size_for_align(self.align())`.
    pub fn array(&self, n: usize) -> (r: Result<Layout, ArenaError>)
        ensures
            self.size() * n <= max_size_for_align(self.align()) ==> r.is_ok() && r.unwrap().size()
                == self.size() * n && r.unwrap().align() == self.align(),
            self.size() * n > max_size_for_align(self.align()) ==> r == Err::<Layout, ArenaError>(
                ArenaError::InvalidLayout,
            ),
    {
        proof {
            use_type_invariant(self);
            lemma_max_size_bounds(self.align);
        }
        match self.size.checked_mul(n) {
            Some(total) => Layout::from_size_align(total, self.align),
            None => Err(ArenaError::InvalidLayout),
        }
    }

    /// The size in bytes.
    #[verifier::when_used_as_spec(spec_size)]
    pub fn size(&self) -> (r: usize)
        ensures
            r == self.size(),
            valid_layout(self.size(), self.align()),
    {
        proof {
            use_type_invariant(self);
        }
        self.size
    }

    /// The alignment in bytes.
    #[verifier::when_used_as_spec(spec_align)]
    pub fn align(&self) -> (r: usize)
        ensures
            r == self.align(),
            valid_layout(self.size(), self.align()),
    {
        proof {
            use_type_invariant(self);
        }
        self.align
    }
}

/// A run of bytes: the address of the first one and their number.
#[derive(Clone, Copy, Debug, PartialEq, Eq, Structural)]
pub struct ByteRange {
    pub addr: usize,
    pub len: usize,
}

impl ByteRange {
    /// The address just past the last byte.
    pub open spec fn end(self) -> int {
        self.addr + self.len
    }

    /// The range answers a request for `layout`: it is not null, starts at a
    /// multiple of the alignment, is exactly as long as asked for, and ends
    /// within the address space.
    pub open spec fn fits(self, layout: Layout) -> bool {
        &&& self.addr != 0
        &&& self.addr as int % layout.align() as int == 0
        &&& self.len == layout.size()
        &&& self.end() <= usize::MAX
    }

    /// Decides whether the range answers a request for `layout`.
    pub fn answers(&self, layout: Layout) -> (r: bool)
        ensures
            r == self.fits(layout),
    {
        let align: usize = layout.align();
        proof {
            reveal(is_pow2);
        }
        self.addr != 0 && self.addr % align == 0 && self.len == layout.size() && self.len
            <= usize::MAX - self.addr
    }
}

} // verus!
