//! Typed failure values for allocation and layout errors.
//!
//! There are exactly two failure classes. An allocation error means the
//! system allocator refused a well-formed, non-zero-size request; a layout
//! error means the request itself was arithmetically invalid. The growable
//! buffer propagates both through [`RawVecError`].

use vstd::prelude::*;

use crate::layout::Layout;

verus! {

/// The system allocator refused a request. Carries the layout that failed;
/// it is always a valid, non-zero-size layout, since invalid requests are
/// rejected earlier as [`LayoutError`] and zero-size requests never reach
/// the allocator.
#[derive(Clone, Copy, Debug)]
pub struct AllocError {
    /// The layout of the refused request.
    pub layout: Layout,
}

/// A requested layout was arithmetically invalid: the total size overflowed,
/// either in a size-times-count product or when rounding the size up to the
/// alignment.
#[derive(Clone, Copy, Debug)]
pub struct LayoutError;

/// Errors returned by the growable buffer: exactly one of the two failure
/// classes.
#[derive(Clone, Copy, Debug)]
pub enum RawVecError {
    /// The system allocator refused the request.
    Alloc(AllocError),
    /// The requested capacity was arithmetically invalid.
    Layout(LayoutError),
}

impl From<AllocError> for RawVecError {
    fn from(err: AllocError) -> (r: Self) {
        RawVecError::Alloc(err)
    }
}

impl vstd::std_specs::convert::FromSpecImpl<AllocError> for RawVecError {
    open spec fn obeys_from_spec() -> bool {
        true
    }

    open spec fn from_spec(err: AllocError) -> Self {
        RawVecError::Alloc(err)
    }
}

impl From<LayoutError> for RawVecError {
    fn from(err: LayoutError) -> (r: Self) {
        RawVecError::Layout(err)
    }
}

impl vstd::std_specs::convert::FromSpecImpl<LayoutError> for RawVecError {
    open spec fn obeys_from_spec() -> bool {
        true
    }

    open spec fn from_spec(err: LayoutError) -> Self {
        RawVecError::Layout(err)
    }
}

} // verus!
