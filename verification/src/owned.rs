//! The owned slot: a heap block holding exactly one live, fully
//! constructed value of type `T`.
//!
//! An `OwnedAlloc` is only ever produced by initializing an
//! [`UninitAlloc`](crate::uninit::UninitAlloc), and every way out of it —
//! [`move_inner`](OwnedAlloc::move_inner),
//! [`drop_in_place`](OwnedAlloc::drop_in_place), or plain destruction —
//! disposes of the live value exactly once: the value either moves to the
//! caller or is dropped here, never both.

use vstd::prelude::*;
use vstd::layout::align_of;
use vstd::layout::size_of;

use crate::error::AllocError;
use crate::heap::Block;
use crate::heap::SysHeap;
use crate::uninit::UninitAlloc;

verus! {

/// Relies on `core::mem::forget`: it takes ownership of the value and
/// never runs its destructor. It returns nothing and is promised nothing.
pub assume_specification<T>[ core::mem::forget::<T> ](t: T);

/// A heap block holding exactly one live value of type `T`.
#[derive(Debug)]
pub struct OwnedAlloc<T> {
    block: Block,
    value: T,
}

/// An owned slot is abstractly just the value it holds.
impl<T> View for OwnedAlloc<T> {
    type V = T;

    closed spec fn view(&self) -> T {
        self.value
    }
}

impl<T> OwnedAlloc<T> {
    /// The slot owns a well-formed block of exactly `size_of::<T>()` bytes
    /// with `T`'s alignment; for a zero-sized `T` that block is a
    /// placeholder and stands for no real allocation.
    pub closed spec fn wf(self) -> bool {
        &&& self.block.wf()
        &&& self.block.bytes@.len() == size_of::<T>()
        &&& self.block.align == align_of::<T>()
    }

    /// The model address of the slot's block.
    pub closed spec fn spec_addr(self) -> usize {
        self.block.addr
    }

    /// Holds when the slot's block lies wholly below the heap's bump
    /// frontier — as every block this heap has served does. It ties a live
    /// handle to the heap it was allocated from, so that a freshly served
    /// address is known not to alias it.
    pub open spec fn served_by(self, sys: SysHeap) -> bool {
        self.spec_addr() + size_of::<T>() <= sys.next
    }

    /// Marries a block that has the size and alignment of one `T` with the
    /// value now considered live in it.
    pub(crate) fn from_parts(block: Block, value: T) -> (owned: Self)
        requires
            block.wf(),
            block.bytes@.len() == size_of::<T>(),
            block.align == align_of::<T>(),
        ensures
            owned.wf(),
            owned@ == value,
            owned.spec_addr() == block.addr,
    {
        OwnedAlloc { block, value }
    }

    /// Acquires a slot and initializes it to `value`: the caller vouches
    /// that the system heap can serve the request. For a zero-sized `T`
    /// the system heap is left untouched; otherwise exactly one
    /// allocation call is made.
    pub fn new(value: T, sys: &mut SysHeap) -> (owned: Self)
        requires
            old(sys).wf(),
            size_of::<T>() == 0 || size_of::<T>() <= old(sys).limit,
        ensures
            final(sys).wf(),
            owned.wf(),
            owned@ == value,
            owned.spec_addr() as int % align_of::<T>() as int == 0,
            size_of::<T>() == 0 ==> *final(sys) == *old(sys),
            size_of::<T>() >= 1 ==> {
                &&& old(sys).next <= owned.spec_addr() < old(sys).next + align_of::<T>()
                &&& final(sys).next == owned.spec_addr() + size_of::<T>()
                &&& final(sys).limit == old(sys).limit - size_of::<T>()
                &&& final(sys).alloc_calls == old(sys).alloc_calls + 1
                &&& final(sys).freed == old(sys).freed
                &&& owned.served_by(*final(sys))
            },
    {
        UninitAlloc::new(sys).init(value)
    }

    /// The fallible counterpart of [`new`](OwnedAlloc::new): an allocation
    /// refusal comes back as a typed error (and the value passed in is
    /// dropped, as it has nowhere to live).
    pub fn try_new(value: T, sys: &mut SysHeap) -> (r: Result<Self, AllocError>)
        requires
            old(sys).wf(),
        ensures
            final(sys).wf(),
            r is Ok <==> size_of::<T>() == 0 || size_of::<T>() <= old(sys).limit,
            size_of::<T>() == 0 ==> *final(sys) == *old(sys),
            r matches Ok(owned) ==> {
                &&& owned.wf()
                &&& owned@ == value
                &&& owned.spec_addr() as int % align_of::<T>() as int == 0
                &&& size_of::<T>() >= 1 ==> {
                    &&& old(sys).next <= owned.spec_addr() < old(sys).next + align_of::<T>()
                    &&& final(sys).next == owned.spec_addr() + size_of::<T>()
                    &&& final(sys).limit == old(sys).limit - size_of::<T>()
                    &&& final(sys).alloc_calls == old(sys).alloc_calls + 1
                    &&& final(sys).freed == old(sys).freed
                    &&& owned.served_by(*final(sys))
                }
            },
            r matches Err(e) ==> {
                &&& e.layout.size == size_of::<T>()
                &&& e.layout.align == align_of::<T>()
                &&& *final(sys) == *old(sys)
            },
    {
        match UninitAlloc::try_new(sys) {
            Ok(slot) => Ok(slot.init(value)),
            Err(e) => Err(e),
        }
    }

    /// Read access to the live value; never fails and never allocates.
    pub fn get(&self) -> (r: &T)
        ensures
            *r == self@,
    {
        &self.value
    }

    /// Write access to the live value; never fails and never allocates.
    /// The block, its address included, is untouched by any write through
    /// the returned reference.
    pub fn get_mut(&mut self) -> (r: &mut T)
        requires
            old(self).wf(),
        ensures
            *r == old(self)@,
            final(self)@ == *final(r),
            final(self).wf(),
            final(self).spec_addr() == old(self).spec_addr(),
    {
        &mut self.value
    }

    /// Moves the live value out and reinterprets the now-logically-empty
    /// block as an uninitialized slot: no deallocation, no destructor run
    /// here — ownership of the value moves to the caller, and the block,
    /// its address included, survives in the returned slot.
    pub fn move_inner(self) -> (r: (T, UninitAlloc<T>))
        requires
            self.wf(),
        ensures
            r.0 == self@,
            r.1.wf(),
            r.1.spec_addr() == self.spec_addr(),
    {
        let OwnedAlloc { block, value } = self;
        (value, UninitAlloc::from_block(block))
    }

    /// Runs the live value's destructor in place, then reinterprets the
    /// block as an uninitialized slot, keeping the allocation for reuse
    /// rather than deallocating it.
    pub fn drop_in_place(self) -> (slot: UninitAlloc<T>)
        requires
            self.wf(),
        ensures
            slot.wf(),
            slot.spec_addr() == self.spec_addr(),
    {
        let OwnedAlloc { block, value } = self;
        let _ = value;
        UninitAlloc::from_block(block)
    }

    /// The explicit duplication operation: a full, independent allocation
    /// holding a clone of the live value — never an aliasing second owner
    /// of the same block. For a handle served by this heap, the copy's
    /// address is a different one (except for zero-sized values, where
    /// both handles are placeholders and no block exists to alias).
    pub fn duplicate(&self, sys: &mut SysHeap) -> (r: Self) where T: Clone
        requires
            old(sys).wf(),
            size_of::<T>() == 0 || size_of::<T>() <= old(sys).limit,
        ensures
            final(sys).wf(),
            r.wf(),
            cloned(self@, r@),
            size_of::<T>() == 0 ==> *final(sys) == *old(sys),
            size_of::<T>() >= 1 ==> {
                &&& old(sys).next <= r.spec_addr()
                &&& final(sys).alloc_calls == old(sys).alloc_calls + 1
                &&& final(sys).freed == old(sys).freed
                &&& r.served_by(*final(sys))
                &&& self.served_by(*old(sys)) ==> r.spec_addr() != self.spec_addr()
            },
    {
        Self::new(self.value.clone(), sys)
    }

    /// The explicit end of an owned slot's life: runs the live value's
    /// destructor, then releases the block back to the system heap —
    /// unless `T` is zero-sized, in which case there is no real allocation
    /// and the heap is left untouched.
    pub fn destroy(self, sys: &mut SysHeap)
        requires
            self.wf(),
            old(sys).wf(),
        ensures
            final(sys).wf(),
            size_of::<T>() == 0 ==> *final(sys) == *old(sys),
            size_of::<T>() >= 1 ==> {
                &&& final(sys).freed@.len() == old(sys).freed@.len() + 1
                &&& final(sys).freed@.last().addr == self.spec_addr()
                &&& final(sys).freed@.last().bytes@.len() == size_of::<T>()
                &&& forall|i: int|
                    0 <= i < old(sys).freed@.len() ==> final(sys).freed@[i] == old(sys).freed@[i]
                &&& final(sys).next == old(sys).next
                &&& final(sys).limit == old(sys).limit
                &&& final(sys).alloc_calls == old(sys).alloc_calls
            },
    {
        let OwnedAlloc { block, value } = self;
        let _ = value;
        if block.size() > 0 {
            sys.deallocate(block);
        }
    }

    /// Forgets about dropping the inner value and returns the block as an
    /// uninitialized slot: the value's destructor never runs, and the
    /// block — its address included — survives for reuse.
    pub fn forget_inner(self) -> (slot: UninitAlloc<T>)
        requires
            self.wf(),
        ensures
            slot.wf(),
            slot.spec_addr() == self.spec_addr(),
    {
        let OwnedAlloc { block, value } = self;
        core::mem::forget(value);
        UninitAlloc::from_block(block)
    }

    /// Consumes the slot and hands out its model address, leaving the
    /// block's ownership to the caller's bookkeeping. The value is
    /// disposed of here: with no way back from a bare address, the model
    /// cannot leave it live.
    pub fn into_raw(self) -> (addr: usize)
        requires
            self.wf(),
        ensures
            addr == self.spec_addr(),
    {
        let OwnedAlloc { block, value } = self;
        let _ = value;
        block.addr
    }

    /// The model address of the slot's block.
    pub fn raw(&self) -> (addr: usize)
        ensures
            addr == self.spec_addr(),
    {
        self.block.addr
    }
}

} // verus!
