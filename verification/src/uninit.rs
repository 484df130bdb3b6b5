//! The uninitialized slot: a heap block sized and aligned for exactly one
//! value of type `T`, holding no live value yet.
//!
//! An `UninitAlloc` is the only path to an initialized
//! [`OwnedAlloc`](crate::owned::OwnedAlloc): [`init`](UninitAlloc::init)
//! consumes the slot and produces the owned form, so a value is constructed
//! at most once per block. When `T` is zero-sized the slot is a placeholder
//! and the system heap is never involved.

use vstd::prelude::*;
use vstd::layout::align_of;
use vstd::layout::size_of;

use core::marker::PhantomData;

use crate::error::AllocError;
use crate::heap::Block;
use crate::heap::SysHeap;
use crate::layout::Layout;
use crate::owned::OwnedAlloc;

verus! {

/// A heap block for exactly one `T`, with no value considered live in it.
#[derive(Debug)]
pub struct UninitAlloc<T> {
    pub(crate) block: Block,
    pub(crate) _marker: PhantomData<T>,
}

impl<T> UninitAlloc<T> {
    /// The slot owns a well-formed block of exactly `size_of::<T>()` bytes
    /// with `T`'s alignment; for a zero-sized `T` that block is a
    /// placeholder and stands for no real allocation.
    pub closed spec fn wf(self) -> bool {
        &&& self.block.wf()
        &&& self.block.bytes@.len() == size_of::<T>()
        &&& self.block.align == align_of::<T>()
    }

    /// The model address of the slot's block.
    pub closed spec fn spec_addr(self) -> usize {
        self.block.addr
    }

    /// The slot is exactly its block: the abstraction spelled out for the
    /// crate's other modules, which cannot see the bodies above.
    pub(crate) proof fn lemma_parts(self)
        ensures
            self.spec_addr() == self.block.addr,
            self.wf() <==> {
                &&& self.block.wf()
                &&& self.block.bytes@.len() == size_of::<T>()
                &&& self.block.align == align_of::<T>()
            },
    {
    }

    /// Wraps a block that has exactly the size and alignment of one `T`.
    pub(crate) fn from_block(block: Block) -> (slot: Self)
        requires
            block.wf(),
            block.bytes@.len() == size_of::<T>(),
            block.align == align_of::<T>(),
        ensures
            slot.wf(),
            slot.spec_addr() == block.addr,
    {
        UninitAlloc { block, _marker: PhantomData }
    }

    /// Gives the slot's block up, without interpreting its contents.
    pub(crate) fn into_block(self) -> (block: Block)
        requires
            self.wf(),
        ensures
            block.wf(),
            block.addr == self.spec_addr(),
            block.bytes@.len() == size_of::<T>(),
            block.align == align_of::<T>(),
    {
        let UninitAlloc { block, _marker } = self;
        block
    }

    /// Requests a block sized and aligned for one `T`. If `T` is zero-sized
    /// the result is a placeholder and the system heap is left untouched;
    /// otherwise exactly one allocation call is made — served, like every
    /// block of the host interface, at an address aligned for `T` — and
    /// its refusal is returned as a typed error carrying the failed layout.
    pub fn try_new(sys: &mut SysHeap) -> (r: Result<Self, AllocError>)
        requires
            old(sys).wf(),
        ensures
            final(sys).wf(),
            r is Ok <==> size_of::<T>() == 0 || size_of::<T>() <= old(sys).limit,
            size_of::<T>() == 0 ==> *final(sys) == *old(sys),
            r matches Ok(slot) ==> {
                &&& slot.wf()
                &&& slot.spec_addr() as int % align_of::<T>() as int == 0
                &&& size_of::<T>() == 0 ==> slot.spec_addr() == align_of::<T>()
                &&& size_of::<T>() >= 1 ==> {
                    &&& old(sys).next <= slot.spec_addr() < old(sys).next + align_of::<T>()
                    &&& final(sys).next == slot.spec_addr() + size_of::<T>()
                    &&& final(sys).limit == old(sys).limit - size_of::<T>()
                    &&& final(sys).alloc_calls == old(sys).alloc_calls + 1
                    &&& final(sys).freed == old(sys).freed
                }
            },
            r matches Err(e) ==> {
                &&& e.layout.size == size_of::<T>()
                &&& e.layout.align == align_of::<T>()
                &&& *final(sys) == *old(sys)
            },
    {
        let layout = Layout::for_type::<T>();
        if layout.size == 0 {
            Ok(UninitAlloc { block: Block::placeholder(layout.align), _marker: PhantomData })
        } else {
            proof {
                crate::heap::lemma_align_at_most_size(size_of::<T>(), align_of::<T>());
            }
            match sys.allocate(layout.size, layout.align) {
                Some(block) => Ok(UninitAlloc { block, _marker: PhantomData }),
                None => Err(AllocError { layout }),
            }
        }
    }

    /// Like [`try_new`](UninitAlloc::try_new), but the caller vouches that
    /// the system heap can serve the request, so the slot is always
    /// produced.
    pub fn new(sys: &mut SysHeap) -> (slot: Self)
        requires
            old(sys).wf(),
            size_of::<T>() == 0 || size_of::<T>() <= old(sys).limit,
        ensures
            final(sys).wf(),
            slot.wf(),
            slot.spec_addr() as int % align_of::<T>() as int == 0,
            size_of::<T>() == 0 ==> *final(sys) == *old(sys) && slot.spec_addr() == align_of::<
                T,
            >(),
            size_of::<T>() >= 1 ==> {
                &&& old(sys).next <= slot.spec_addr() < old(sys).next + align_of::<T>()
                &&& final(sys).next == slot.spec_addr() + size_of::<T>()
                &&& final(sys).limit == old(sys).limit - size_of::<T>()
                &&& final(sys).alloc_calls == old(sys).alloc_calls + 1
                &&& final(sys).freed == old(sys).freed
            },
    {
        match Self::try_new(sys) {
            Ok(slot) => slot,
            Err(_) => unreached(),
        }
    }

    /// Writes `value` into the block and reinterprets ownership as live:
    /// the slot is consumed, the owned form holds exactly `value`, and the
    /// block — its address included — is kept. No allocation happens, and
    /// no destructor runs on the block's previous contents, since no value
    /// was live there.
    pub fn init(self, value: T) -> (owned: OwnedAlloc<T>)
        requires
            self.wf(),
        ensures
            owned.wf(),
            owned@ == value,
            owned.spec_addr() == self.spec_addr(),
    {
        OwnedAlloc::from_parts(self.into_block(), value)
    }

    /// The explicit end of an unfinalized slot's life: releases the block
    /// back to the system heap without running any destructor — no value
    /// was ever live here — unless `T` is zero-sized, in which case there
    /// is no real allocation and the heap is left untouched.
    pub fn destroy(self, sys: &mut SysHeap)
        requires
            self.wf(),
            old(sys).wf(),
        ensures
            final(sys).wf(),
            size_of::<T>() == 0 ==> *final(sys) == *old(sys),
            size_of::<T>() >= 1 ==> {
                &&& final(sys).freed@.len() == old(sys).freed@.len() + 1
                &&& final(sys).freed@.last().addr == self.spec_addr()
                &&& final(sys).freed@.last().bytes@.len() == size_of::<T>()
                &&& forall|i: int|
                    0 <= i < old(sys).freed@.len() ==> final(sys).freed@[i] == old(sys).freed@[i]
                &&& final(sys).next == old(sys).next
                &&& final(sys).limit == old(sys).limit
                &&& final(sys).alloc_calls == old(sys).alloc_calls
            },
    {
        let block = self.into_block();
        if block.size() > 0 {
            sys.deallocate(block);
        }
    }

    /// Consumes the slot and hands out its model address, leaving the
    /// block's ownership to the caller's bookkeeping.
    pub fn into_raw(self) -> (addr: usize)
        requires
            self.wf(),
        ensures
            addr == self.spec_addr(),
    {
        let UninitAlloc { block, _marker } = self;
        block.addr
    }

    /// The model address of the slot's block.
    pub fn raw(&self) -> (addr: usize)
        ensures
            addr == self.spec_addr(),
    {
        self.block.addr
    }
}

} // verus!
