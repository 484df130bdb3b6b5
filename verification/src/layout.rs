//! Layout descriptors: a `(size, alignment)` pair describing the shape of a
//! heap block, with the validity rules of the host allocation interface.

use vstd::prelude::*;
use vstd::arithmetic::power2::is_pow2;
use vstd::layout::align_of;
use vstd::layout::layout_for_type_is_valid;
use vstd::layout::size_of;
use vstd::layout::valid_layout;

use crate::error::LayoutError;

verus! {

/// A memory block's shape: a size in bytes and an alignment.
///
/// A layout is valid when the alignment is a power of two and the size,
/// rounded up to the alignment, does not overflow the address space; these
/// are exactly the conditions under which the host allocation interface
/// accepts a request.
#[derive(Clone, Copy, Debug, PartialEq, Eq, Structural)]
pub struct Layout {
    /// The size of the block, in bytes.
    pub size: usize,
    /// The alignment of the block's address, in bytes.
    pub align: usize,
}

impl Layout {
    /// A layout is well formed when the host allocation interface accepts it.
    pub open spec fn wf(self) -> bool {
        valid_layout(self.size, self.align)
    }

    /// Builds a layout from a size and an alignment, rejecting any pair the
    /// host allocation interface would reject: an alignment that is not a
    /// power of two, or a size that overflows once rounded up to the
    /// alignment.
    pub fn from_size_align(size: usize, align: usize) -> (r: Result<Layout, LayoutError>)
        ensures
            r is Ok <==> valid_layout(size, align),
            r matches Ok(l) ==> l == (Layout { size, align }),
    {
        if !is_power_of_two(align) {
            return Err(LayoutError);
        }
        proof {
            assert(align >= 1) by {
                reveal(is_pow2);
            }
        }
        let rounding_slack: usize = (isize::MAX as usize) % align;
        proof {
            assert((isize::MAX as usize) % align <= isize::MAX as usize) by (nonlinear_arith)
                requires
                    align >= 1,
            ;
        }
        if size <= (isize::MAX as usize) - rounding_slack {
            Ok(Layout { size, align })
        } else {
            Err(LayoutError)
        }
    }

    /// The layout of a single value of type `T`. Such a layout is always
    /// valid: the compiler guarantees it, along with the size being a
    /// multiple of the (non-zero) alignment.
    pub fn for_type<T>() -> (l: Layout)
        ensures
            l.size == size_of::<T>(),
            l.align == align_of::<T>(),
            l.wf(),
            align_of::<T>() >= 1,
            size_of::<T>() % align_of::<T>() == 0,
    {
        layout_for_type_is_valid::<T>();
        Layout { size: core::mem::size_of::<T>(), align: core::mem::align_of::<T>() }
    }
}

/// Decides whether `n` is a power of two, by stripping factors of two until
/// either `1` (a power of two) or an odd number greater than one (not one)
/// remains.
pub fn is_power_of_two(n: usize) -> (r: bool)
    ensures
        r == is_pow2(n as int),
{
    if n == 0 {
        proof {
            reveal(is_pow2);
        }
        return false;
    }
    let mut m: usize = n;
    while m > 1 && m % 2 == 0
        invariant
            1 <= m <= n,
            is_pow2(n as int) == is_pow2(m as int),
        decreases m,
    {
        proof {
            reveal(is_pow2);
        }
        m = m / 2;
    }
    proof {
        reveal(is_pow2);
    }
    m == 1
}

} // verus!
