//! A manual-memory-management toolkit, verified over an explicit heap model.
//!
//! The crate provides primitives for requesting, growing and releasing heap
//! blocks with statically tracked initialization state:
//!
//! - [`UninitAlloc`]: a block sized for one value, holding no value yet;
//! - [`OwnedAlloc`]: a block holding exactly one live value, produced only
//!   by initializing an [`UninitAlloc`];
//! - [`RawVec`]: a growable buffer that tracks only a capacity, never a
//!   length;
//! - [`Allocator`]: a zero-filling allocation policy that scrubs every
//!   block both on acquire and on release.
//!
//! Raw pointers cannot be reasoned about here, so allocation is modelled
//! explicitly: [`SysHeap`] stands for the host's system allocator and hands
//! out [`Block`] values, each carrying a model address and its byte
//! contents. All bookkeeping that real code would do with pointer
//! arithmetic is done on this model and proved: layouts are computed
//! without overflow, resizing preserves the bytes common to the old and the
//! new capacity and on failure changes nothing, zero-size requests never
//! reach the system allocator, and the zeroizing policy really does hand
//! out and release all-zero memory.

pub mod error;
pub mod heap;
pub mod layout;
pub mod owned;
pub mod raw_vec;
pub mod uninit;

pub use error::AllocError;
pub use error::LayoutError;
pub use error::RawVecError;
pub use heap::Allocator;
pub use heap::Block;
pub use heap::SysHeap;
pub use layout::Layout;
pub use owned::OwnedAlloc;
pub use raw_vec::RawVec;
pub use uninit::UninitAlloc;
