//! The raw growable buffer: a heap block sized for `cap` slots of type
//! `T`, tracking only that capacity and never a length.
//!
//! The buffer never claims any slot is initialized — callers track their
//! own occupied length — so its contents are plain bytes of the model
//! block. Every capacity change recomputes the byte layout with overflow
//! checking; a resize preserves the bytes up to the lesser of the old and
//! the new size and, on failure, leaves both the buffer and the heap
//! completely unchanged.

use vstd::prelude::*;
use vstd::layout::align_of;
use vstd::layout::size_of;
use vstd::layout::valid_layout;

use core::marker::PhantomData;

use crate::error::AllocError;
use crate::error::LayoutError;
use crate::error::RawVecError;
use crate::heap::Block;
use crate::heap::SysHeap;
use crate::layout::Layout;
use crate::uninit::UninitAlloc;

verus! {

/// A heap block for `cap` slots of `T`, with no slot considered live.
#[derive(Debug)]
pub struct RawVec<T> {
    block: Block,
    cap: usize,
    _marker: PhantomData<T>,
}

/// A raw buffer is abstractly its block's bytes; their number is always
/// exactly `size_of::<T>()` times the capacity.
impl<T> View for RawVec<T> {
    type V = Seq<u8>;

    closed spec fn view(&self) -> Seq<u8> {
        self.block.bytes@
    }
}

impl<T> RawVec<T> {
    /// The buffer owns a well-formed block with `T`'s alignment and
    /// exactly `size_of::<T>() * cap` bytes; when that product is zero —
    /// capacity zero, or a zero-sized `T` — the block is a placeholder and
    /// stands for no real allocation.
    pub closed spec fn wf(self) -> bool {
        &&& self.block.wf()
        &&& self.block.bytes@.len() == size_of::<T>() * self.cap
        &&& self.block.align == align_of::<T>()
    }

    /// The buffer's capacity, in slots.
    pub closed spec fn spec_cap(self) -> usize {
        self.cap
    }

    /// The model address of the buffer's block.
    pub closed spec fn spec_addr(self) -> usize {
        self.block.addr
    }

    /// What conversion from an uninitialized slot builds: a buffer of
    /// capacity one over the slot's own block.
    pub closed spec fn spec_from_slot(slot: UninitAlloc<T>) -> Self {
        RawVec { block: slot.block, cap: 1, _marker: slot._marker }
    }

    /// Holds when a capacity of `cap` slots has a representable byte
    /// layout: the size-times-count product does not overflow, and the
    /// total, rounded up to `T`'s alignment, stays within the address
    /// space.
    pub open spec fn layout_ok(cap: usize) -> bool {
        &&& size_of::<T>() * cap <= usize::MAX
        &&& valid_layout((size_of::<T>() * cap) as usize, align_of::<T>() as usize)
    }

    /// A representable layout stays representable at every smaller
    /// capacity: a buffer that was built with some capacity can always be
    /// shrunk without recomputing the layout.
    pub proof fn lemma_layout_ok_monotone(cap1: usize, cap2: usize)
        requires
            Self::layout_ok(cap1),
            cap2 <= cap1,
        ensures
            Self::layout_ok(cap2),
    {
        assert(size_of::<T>() * cap2 <= size_of::<T>() * cap1) by (nonlinear_arith)
            requires
                cap2 <= cap1,
        ;
    }

    /// For a non-zero total byte size, `T`'s alignment stays within it:
    /// the element size is a multiple of the alignment, and at least one
    /// element is asked for.
    proof fn lemma_align_le_total(cap: usize)
        requires
            size_of::<T>() * cap >= 1,
            align_of::<T>() >= 1,
            size_of::<T>() % align_of::<T>() == 0,
        ensures
            align_of::<T>() <= size_of::<T>() * cap,
    {
        assert(size_of::<T>() >= 1 && cap >= 1) by (nonlinear_arith)
            requires
                size_of::<T>() * cap >= 1,
        ;
        crate::heap::lemma_align_at_most_size(size_of::<T>(), align_of::<T>());
        assert(size_of::<T>() <= size_of::<T>() * cap) by (nonlinear_arith)
            requires
                cap >= 1,
        ;
    }

    /// Computes the byte layout for `cap` slots of `T`: the product
    /// `size_of::<T>() * cap` rounded to `T`'s alignment, with every
    /// overflow reported as a layout error.
    pub fn make_layout(cap: usize) -> (r: Result<Layout, LayoutError>)
        ensures
            r is Ok <==> Self::layout_ok(cap),
            align_of::<T>() >= 1,
            size_of::<T>() % align_of::<T>() == 0,
            r matches Ok(l) ==> {
                &&& l.size == size_of::<T>() * cap
                &&& l.align == align_of::<T>()
                &&& l.wf()
            },
    {
        let elem_size = core::mem::size_of::<T>();
        vstd::layout::layout_for_type_is_valid::<T>();
        match elem_size.checked_mul(cap) {
            Some(total) => Layout::from_size_align(total, core::mem::align_of::<T>()),
            None => Err(LayoutError),
        }
    }

    /// A buffer of capacity `0`: a placeholder block, no allocation.
    pub fn new() -> (r: Self)
        ensures
            r.wf(),
            r.spec_cap() == 0,
            r@.len() == 0,
            r.spec_addr() == align_of::<T>(),
    {
        let layout = Layout::for_type::<T>();
        RawVec { block: Block::placeholder(layout.align), cap: 0, _marker: PhantomData }
    }

    /// A buffer of capacity `cap`. If the total byte size is zero — `cap`
    /// is zero or `T` is zero-sized — the buffer is a placeholder and the
    /// system heap is never touched; otherwise exactly one allocation call
    /// is made. An unrepresentable layout becomes a layout error (without
    /// touching the system heap); an allocation refusal becomes an
    /// allocation error.
    pub fn try_with_capacity(cap: usize, sys: &mut SysHeap) -> (r: Result<Self, RawVecError>)
        requires
            old(sys).wf(),
        ensures
            final(sys).wf(),
            r is Ok <==> Self::layout_ok(cap) && (size_of::<T>() * cap == 0 || size_of::<T>() * cap
                <= old(sys).limit),
            !Self::layout_ok(cap) ==> (r matches Err(RawVecError::Layout(_))) && *final(sys)
                == *old(sys),
            Self::layout_ok(cap) && size_of::<T>() * cap > old(sys).limit ==> (r matches Err(
                RawVecError::Alloc(_),
            )) && *final(sys) == *old(sys),
            r matches Err(RawVecError::Alloc(e)) ==> {
                &&& e.layout.size == size_of::<T>() * cap
                &&& e.layout.align == align_of::<T>()
            },
            r matches Ok(v) ==> {
                &&& v.wf()
                &&& v.spec_cap() == cap
                &&& v@.len() == size_of::<T>() * cap
                &&& v.spec_addr() as int % align_of::<T>() as int == 0
                &&& size_of::<T>() * cap == 0 ==> *final(sys) == *old(sys) && v.spec_addr()
                    == align_of::<T>()
                &&& size_of::<T>() * cap >= 1 ==> {
                    &&& old(sys).next <= v.spec_addr() < old(sys).next + align_of::<T>()
                    &&& final(sys).next == v.spec_addr() + size_of::<T>() * cap
                    &&& final(sys).limit == old(sys).limit - size_of::<T>() * cap
                    &&& final(sys).alloc_calls == old(sys).alloc_calls + 1
                    &&& final(sys).freed == old(sys).freed
                }
            },
    {
        let layout = match Self::make_layout(cap) {
            Ok(l) => l,
            Err(e) => {
                return Err(RawVecError::Layout(e));
            },
        };
        if layout.size == 0 {
            Ok(RawVec { block: Block::placeholder(layout.align), cap, _marker: PhantomData })
        } else {
            proof {
                Self::lemma_align_le_total(cap);
            }
            match sys.allocate(layout.size, layout.align) {
                Some(block) => Ok(RawVec { block, cap, _marker: PhantomData }),
                None => Err(RawVecError::Alloc(AllocError { layout })),
            }
        }
    }

    /// Like [`try_with_capacity`](RawVec::try_with_capacity), but the
    /// caller vouches that the layout is representable and that the system
    /// heap can serve it, so the buffer is always produced — with exactly
    /// the capacity that was requested.
    pub fn with_capacity(cap: usize, sys: &mut SysHeap) -> (v: Self)
        requires
            old(sys).wf(),
            Self::layout_ok(cap),
            size_of::<T>() * cap == 0 || size_of::<T>() * cap <= old(sys).limit,
        ensures
            final(sys).wf(),
            v.wf(),
            v.spec_cap() == cap,
            v@.len() == size_of::<T>() * cap,
            v.spec_addr() as int % align_of::<T>() as int == 0,
            size_of::<T>() * cap == 0 ==> *final(sys) == *old(sys) && v.spec_addr() == align_of::<
                T,
            >(),
            size_of::<T>() * cap >= 1 ==> {
                &&& old(sys).next <= v.spec_addr() < old(sys).next + align_of::<T>()
                &&& final(sys).next == v.spec_addr() + size_of::<T>() * cap
                &&& final(sys).limit == old(sys).limit - size_of::<T>() * cap
                &&& final(sys).alloc_calls == old(sys).alloc_calls + 1
                &&& final(sys).freed == old(sys).freed
            },
    {
        match Self::try_with_capacity(cap, sys) {
            Ok(v) => v,
            Err(_) => unreached(),
        }
    }

    /// The capacity: guaranteed to be the one passed to the last
    /// capacity-modifying call ([`with_capacity`](RawVec::with_capacity),
    /// [`try_with_capacity`](RawVec::try_with_capacity),
    /// [`resize`](RawVec::resize) or [`try_resize`](RawVec::try_resize)),
    /// or `0` from [`new`](RawVec::new).
    pub fn cap(&self) -> (c: usize)
        ensures
            c == self.spec_cap(),
    {
        self.cap
    }

    /// The model address of the first slot.
    pub fn raw(&self) -> (addr: usize)
        ensures
            addr == self.spec_addr(),
    {
        self.block.addr
    }

    /// Consumes the buffer and hands out its model address and capacity,
    /// leaving the block's ownership to the caller's bookkeeping.
    pub fn into_raw_slice(self) -> (r: (usize, usize))
        requires
            self.wf(),
        ensures
            r.0 == self.spec_addr(),
            r.1 == self.spec_cap(),
    {
        let RawVec { block, cap, _marker } = self;
        (block.addr, cap)
    }

    /// The buffer's block as a byte slice, `size_of::<T>() * cap` bytes
    /// long. No slot is ever initialized by the buffer itself; which byte
    /// ranges are meaningful is the caller's bookkeeping.
    pub fn as_slice(&self) -> (r: &[u8])
        ensures
            r@ == self@,
    {
        self.block.bytes.as_slice()
    }

    /// Reads the byte at offset `i` of the buffer's block.
    pub fn read_byte(&self, i: usize) -> (b: u8)
        requires
            i < self@.len(),
        ensures
            b == self@[i as int],
    {
        self.block.read_byte(i)
    }

    /// Writes the byte at offset `i` of the buffer's block. The capacity
    /// and the address are untouched.
    pub fn write_byte(&mut self, i: usize, b: u8)
        requires
            old(self).wf(),
            i < old(self)@.len(),
        ensures
            final(self).wf(),
            final(self)@ == old(self)@.update(i as int, b),
            final(self).spec_cap() == old(self).spec_cap(),
            final(self).spec_addr() == old(self).spec_addr(),
    {
        self.block.write_byte(i, b);
    }

    /// Resizes the buffer to `new_cap` slots, recomputing the byte layout.
    /// If the new byte size is zero, any existing block is released and the
    /// buffer becomes a placeholder; otherwise one reallocation call moves
    /// the block, preserving the bytes up to the lesser of the old and the
    /// new byte size. On any failure the buffer and the heap are left
    /// completely unchanged and the error says which failure class it was.
    pub fn try_resize(&mut self, new_cap: usize, sys: &mut SysHeap) -> (r: Result<
        (),
        RawVecError,
    >)
        requires
            old(self).wf(),
            old(sys).wf(),
        ensures
            final(self).wf(),
            final(sys).wf(),
            r is Ok <==> Self::layout_ok(new_cap) && (size_of::<T>() * new_cap == 0 || size_of::<
                T,
            >() * new_cap <= old(sys).limit),
            !Self::layout_ok(new_cap) ==> (r matches Err(RawVecError::Layout(_))) && *final(self)
                == *old(self) && *final(sys) == *old(sys),
            Self::layout_ok(new_cap) && size_of::<T>() * new_cap > old(sys).limit ==> (r matches Err(
                RawVecError::Alloc(_),
            )) && *final(self) == *old(self) && *final(sys) == *old(sys),
            r matches Err(RawVecError::Alloc(e)) ==> {
                &&& e.layout.size == size_of::<T>() * new_cap
                &&& e.layout.align == align_of::<T>()
            },
            r is Ok ==> {
                &&& final(self).spec_cap() == new_cap
                &&& final(self)@.len() == size_of::<T>() * new_cap
                &&& forall|i: int|
                    0 <= i < old(self)@.len() && i < size_of::<T>() * new_cap ==> final(self)@[i]
                        == old(self)@[i]
                &&& final(sys).freed@.len() == old(sys).freed@.len() + (if old(self)@.len() >= 1 {
                    1int
                } else {
                    0int
                })
                &&& old(self)@.len() >= 1 ==> final(sys).freed@.last().addr == old(
                    self,
                ).spec_addr()
                &&& final(self).spec_addr() as int % align_of::<T>() as int == 0
                &&& size_of::<T>() * new_cap >= 1 ==> {
                    &&& final(sys).alloc_calls == old(sys).alloc_calls + 1
                    &&& old(sys).next <= final(self).spec_addr() < old(sys).next + align_of::<T>()
                    &&& final(sys).next == final(self).spec_addr() + size_of::<T>() * new_cap
                    &&& final(sys).limit == old(sys).limit - size_of::<T>() * new_cap
                }
                &&& size_of::<T>() * new_cap == 0 ==> {
                    &&& final(sys).alloc_calls == old(sys).alloc_calls
                    &&& final(self).spec_addr() == align_of::<T>()
                    &&& final(sys).next == old(sys).next
                    &&& final(sys).limit == old(sys).limit
                }
                &&& size_of::<T>() * new_cap == 0 && old(self)@.len() == 0 ==> *final(sys) == *old(
                    sys,
                )
            },
    {
        let layout = match Self::make_layout(new_cap) {
            Ok(l) => l,
            Err(e) => {
                return Err(RawVecError::Layout(e));
            },
        };
        if layout.size == 0 {
            let mut retired = Block::placeholder(layout.align);
            core::mem::swap(&mut self.block, &mut retired);
            if retired.size() > 0 {
                sys.deallocate(retired);
            }
            self.cap = new_cap;
            Ok(())
        } else {
            proof {
                Self::lemma_align_le_total(new_cap);
            }
            if sys.reallocate(&mut self.block, layout.size) {
                self.cap = new_cap;
                Ok(())
            } else {
                Err(RawVecError::Alloc(AllocError { layout }))
            }
        }
    }

    /// The explicit end of a buffer's life: releases the current block
    /// back to the system heap — unless the buffer is a placeholder
    /// (capacity zero, or a zero-sized `T`), in which case there is no
    /// real allocation and the heap is left untouched. No element is ever
    /// dropped: the buffer never considered any slot live.
    pub fn destroy(self, sys: &mut SysHeap)
        requires
            self.wf(),
            old(sys).wf(),
        ensures
            final(sys).wf(),
            self@.len() == 0 ==> *final(sys) == *old(sys),
            self@.len() >= 1 ==> {
                &&& final(sys).freed@.len() == old(sys).freed@.len() + 1
                &&& final(sys).freed@.last().addr == self.spec_addr()
                &&& final(sys).freed@.last().bytes@.len() == self@.len()
                &&& forall|i: int|
                    0 <= i < old(sys).freed@.len() ==> final(sys).freed@[i] == old(sys).freed@[i]
                &&& final(sys).next == old(sys).next
                &&& final(sys).limit == old(sys).limit
                &&& final(sys).alloc_calls == old(sys).alloc_calls
            },
    {
        let RawVec { block, cap, _marker } = self;
        let _ = cap;
        if block.size() > 0 {
            sys.deallocate(block);
        }
    }

    /// Like [`try_resize`](RawVec::try_resize), but the caller vouches
    /// that the new layout is representable and that the system heap can
    /// serve it, so the resize always succeeds — with exactly the capacity
    /// that was requested, and the common byte prefix preserved.
    pub fn resize(&mut self, new_cap: usize, sys: &mut SysHeap)
        requires
            old(self).wf(),
            old(sys).wf(),
            Self::layout_ok(new_cap),
            size_of::<T>() * new_cap == 0 || size_of::<T>() * new_cap <= old(sys).limit,
        ensures
            final(self).wf(),
            final(sys).wf(),
            final(self).spec_cap() == new_cap,
            final(self)@.len() == size_of::<T>() * new_cap,
            forall|i: int|
                0 <= i < old(self)@.len() && i < size_of::<T>() * new_cap ==> final(self)@[i]
                    == old(self)@[i],
            final(sys).freed@.len() == old(sys).freed@.len() + (if old(self)@.len() >= 1 {
                1int
            } else {
                0int
            }),
            final(self).spec_addr() as int % align_of::<T>() as int == 0,
            size_of::<T>() * new_cap >= 1 ==> {
                &&& final(sys).alloc_calls == old(sys).alloc_calls + 1
                &&& old(sys).next <= final(self).spec_addr() < old(sys).next + align_of::<T>()
                &&& final(sys).next == final(self).spec_addr() + size_of::<T>() * new_cap
                &&& final(sys).limit == old(sys).limit - size_of::<T>() * new_cap
            },
            size_of::<T>() * new_cap == 0 ==> {
                &&& final(sys).alloc_calls == old(sys).alloc_calls
                &&& final(self).spec_addr() == align_of::<T>()
                &&& final(sys).next == old(sys).next
                &&& final(sys).limit == old(sys).limit
            },
    {
        match self.try_resize(new_cap, sys) {
            Ok(_) => (),
            Err(_) => unreached(),
        }
    }
}

impl<T> From<UninitAlloc<T>> for RawVec<T> {
    /// A buffer of capacity one over the slot's block: the pointer moves,
    /// no allocation happens, and no element is constructed or dropped.
    fn from(slot: UninitAlloc<T>) -> (r: Self)
        ensures
            r.spec_cap() == 1,
            r.spec_addr() == slot.spec_addr(),
            slot.wf() ==> r.wf() && r@.len() == size_of::<T>(),
    {
        proof {
            slot.lemma_parts();
        }
        let UninitAlloc { block, _marker } = slot;
        RawVec { block, cap: 1, _marker }
    }
}

impl<T> vstd::std_specs::convert::FromSpecImpl<UninitAlloc<T>> for RawVec<T> {
    open spec fn obeys_from_spec() -> bool {
        true
    }

    open spec fn from_spec(slot: UninitAlloc<T>) -> Self {
        RawVec::spec_from_slot(slot)
    }
}

} // verus!
