//! The explicit heap model and the zero-filling allocation policy.
//!
//! [`SysHeap`] stands for the host's system allocator. It hands out
//! [`Block`] values from a bump address counter, keeps every released block
//! for inspection, and counts the allocation calls that reach it, so that
//! contracts (and tests) can observe which operations really touch the
//! system allocator. Like the host interface it stands for, it serves
//! every request at a suitably aligned address. The [`Allocator`] policy
//! layered on top adds the zero-fill guarantee on both the acquire and
//! the release path.

use vstd::prelude::*;
use vstd::arithmetic::div_mod::lemma_add_mod_noop;
use vstd::arithmetic::div_mod::lemma_mod_self_0;
use vstd::arithmetic::div_mod::lemma_small_mod;
use vstd::arithmetic::power2::is_pow2;

use crate::error::AllocError;
use crate::layout::Layout;

verus! {

/// Holds when every byte of `s` is zero.
pub open spec fn all_zero(s: Seq<u8>) -> bool {
    forall|i: int| 0 <= i < s.len() ==> s[i] == 0
}

/// A heap block of the model: the address it was handed out at, the
/// alignment it was requested with, and its byte contents.
///
/// A block with no bytes is a *placeholder*: it stands for "no real
/// allocation" and its address is the alignment itself, a non-null,
/// non-dereferenceable address. Zero-size requests are answered with
/// placeholders and never reach the system allocator.
#[derive(Debug)]
pub struct Block {
    /// The model address of the first byte.
    pub addr: usize,
    /// The alignment the block was requested with.
    pub align: usize,
    /// The block's contents.
    pub bytes: Vec<u8>,
}

impl Block {
    /// A block is well formed when its address is non-null, address plus
    /// size does not overflow the address space, its alignment is a power
    /// of two, and, if it is a placeholder, its address is the alignment.
    pub open spec fn wf(self) -> bool {
        &&& 1 <= self.addr
        &&& self.addr + self.bytes@.len() <= usize::MAX
        &&& is_pow2(self.align as int)
        &&& self.addr as int % self.align as int == 0
        &&& self.bytes@.len() == 0 ==> self.addr == self.align
    }

    /// Holds when the block stands for no real allocation.
    pub open spec fn is_placeholder(self) -> bool {
        self.bytes@.len() == 0
    }

    /// The placeholder for zero-size requests of alignment `align`: no
    /// bytes, and the alignment itself as a non-dereferenceable address.
    pub fn placeholder(align: usize) -> (b: Block)
        requires
            is_pow2(align as int),
        ensures
            b.wf(),
            b.is_placeholder(),
            b.addr == align,
            b.align == align,
    {
        proof {
            lemma_is_pow2_at_least_one(align as int);
            lemma_mod_self_0(align as int);
        }
        Block { addr: align, align, bytes: Vec::new() }
    }

    /// The block's size in bytes.
    pub fn size(&self) -> (n: usize)
        ensures
            n == self.bytes@.len(),
    {
        self.bytes.len()
    }

    /// Reads the byte at offset `i`.
    pub fn read_byte(&self, i: usize) -> (b: u8)
        requires
            i < self.bytes@.len(),
        ensures
            b == self.bytes@[i as int],
    {
        self.bytes[i]
    }

    /// Writes the byte at offset `i`.
    pub fn write_byte(&mut self, i: usize, b: u8)
        requires
            i < old(self).bytes@.len(),
        ensures
            final(self).bytes@ == old(self).bytes@.update(i as int, b),
            final(self).addr == old(self).addr,
            final(self).align == old(self).align,
    {
        self.bytes.set(i, b);
    }

    /// Overwrites every byte of the block with zero.
    pub fn zero_fill(&mut self)
        ensures
            final(self).bytes@.len() == old(self).bytes@.len(),
            all_zero(final(self).bytes@),
            final(self).addr == old(self).addr,
            final(self).align == old(self).align,
    {
        let n = self.bytes.len();
        let mut i: usize = 0;
        while i < n
            invariant
                i <= n,
                n == self.bytes@.len(),
                forall|j: int| 0 <= j < i ==> self.bytes@[j] == 0,
                self.addr == old(self).addr,
                self.align == old(self).align,
            decreases n - i,
        {
            self.bytes.set(i, 0);
            i = i + 1;
        }
    }
}

/// A power of two is at least one.
pub proof fn lemma_is_pow2_at_least_one(n: int)
    requires
        is_pow2(n),
    ensures
        n >= 1,
{
    reveal(is_pow2);
}

/// For a valid non-zero-size layout, the size and the alignment are each at
/// most `isize::MAX`, so over-allocating by `align - 1` slack bytes cannot
/// overflow the address space.
pub proof fn lemma_nonzero_layout_fits(l: Layout)
    requires
        l.wf(),
        l.size >= 1,
    ensures
        1 <= l.align <= isize::MAX as usize,
        l.size <= isize::MAX as usize,
        l.size + l.align - 1 <= usize::MAX,
{
    lemma_is_pow2_at_least_one(l.align as int);
    if l.align > isize::MAX as usize {
        lemma_small_mod(isize::MAX as nat, l.align as nat);
    }
}

/// A non-zero size that is a multiple of the alignment is at least the
/// alignment: the rule by which every sized type's alignment stays within
/// its size.
pub proof fn lemma_align_at_most_size(size: nat, align: nat)
    requires
        size >= 1,
        align >= 1,
        size % align == 0,
    ensures
        align <= size,
{
    if align > size {
        lemma_small_mod(size, align);
    }
}

/// Fills a vector with `n` unspecified filler bytes, standing for freshly
/// allocated memory whose contents the system promises nothing about.
fn junk_bytes(n: usize) -> (v: Vec<u8>)
    ensures
        v@.len() == n,
{
    let mut v: Vec<u8> = Vec::new();
    let mut i: usize = 0;
    while i < n
        invariant
            i <= n,
            v@.len() == i,
        decreases n - i,
    {
        v.push(0xAA);
        i = i + 1;
    }
    v
}

/// The distance from `addr` up to the next multiple of `align`.
pub fn align_offset(addr: usize, align: usize) -> (r: usize)
    requires
        align >= 1,
    ensures
        r < align,
        (addr + r) % (align as int) == 0,
        addr as int % align as int == 0 ==> r == 0,
{
    let rem = addr % align;
    if rem == 0 {
        0
    } else {
        proof {
            lemma_add_mod_noop(addr as int, (align - rem) as int, align as int);
            lemma_small_mod((align - rem) as nat, align as nat);
            lemma_mod_self_0(align as int);
        }
        align - rem
    }
}

/// The model of the host's system allocator: a bump allocator over a finite
/// budget of bytes, instrumented so that every interaction with it is
/// observable.
///
/// Addresses are handed out in one pass and never reused; a released block
/// is retained, contents included, in [`freed`](SysHeap::freed), which is
/// what lets callers inspect what a block held at the moment it was freed.
/// Like the host allocator it stands for, the heap serves every request at
/// an address aligned to the request's alignment, skipping padding bytes
/// below the served block where the bump pointer is misaligned.
#[derive(Debug)]
pub struct SysHeap {
    /// The next address to hand out.
    pub next: usize,
    /// How many more bytes the allocator will serve before refusing.
    pub limit: usize,
    /// How many allocation calls have been served.
    pub alloc_calls: usize,
    /// Every block released so far, in release order, with the contents it
    /// had when it was released.
    pub freed: Vec<Block>,
}

impl SysHeap {
    /// The heap stays inside the address space: alignment padding never
    /// exceeds the size it is charged with (alignments never exceed the
    /// sizes requested with them), so the bump pointer advances by at most
    /// twice the budget it serves, and the call counter cannot outrun the
    /// byte budget.
    pub open spec fn wf(self) -> bool {
        &&& 1 <= self.next
        &&& self.next + 2 * self.limit <= usize::MAX
        &&& self.alloc_calls + self.limit <= usize::MAX
    }

    /// A heap with half the address space as its budget — the other half
    /// covers the worst case of alignment padding.
    pub fn new() -> (s: SysHeap)
        ensures
            s.wf(),
            s.next == 1,
            s.limit == (usize::MAX - 1) / 2,
            s.alloc_calls == 0,
            s.freed@.len() == 0,
    {
        SysHeap { next: 1, limit: (usize::MAX - 1) / 2, alloc_calls: 0, freed: Vec::new() }
    }

    /// A heap that will serve at most `limit` bytes in total; requests
    /// beyond that fail, which is how allocation failure is exercised.
    pub fn with_limit(limit: usize) -> (s: SysHeap)
        requires
            limit <= (usize::MAX - 1) / 2,
        ensures
            s.wf(),
            s.next == 1,
            s.limit == limit,
            s.alloc_calls == 0,
            s.freed@.len() == 0,
    {
        SysHeap { next: 1, limit, alloc_calls: 0, freed: Vec::new() }
    }

    /// How many blocks have been released back to the heap.
    pub fn dealloc_calls(&self) -> (n: usize)
        ensures
            n == self.freed@.len(),
    {
        self.freed.len()
    }

    /// Serves a block of `size` bytes, of unspecified contents, at the
    /// first `align`-aligned address at or above the bump pointer — the
    /// alignment guarantee the host allocation interface gives. Fails
    /// exactly when the remaining budget is smaller than the request.
    /// As everywhere on the host interface, the alignment never exceeds
    /// the size requested with it.
    pub fn allocate(&mut self, size: usize, align: usize) -> (r: Option<Block>)
        requires
            old(self).wf(),
            size >= 1,
            is_pow2(align as int),
            align <= size,
        ensures
            final(self).wf(),
            r is Some <==> size <= old(self).limit,
            r matches Some(b) ==> {
                &&& b.wf()
                &&& old(self).next <= b.addr < old(self).next + align
                &&& b.addr as int % align as int == 0
                &&& b.align == align
                &&& b.bytes@.len() == size
                &&& final(self).next == b.addr + size
                &&& final(self).limit == old(self).limit - size
                &&& final(self).alloc_calls == old(self).alloc_calls + 1
                &&& final(self).freed == old(self).freed
            },
            r is None ==> *final(self) == *old(self),
    {
        if size > self.limit {
            return None;
        }
        proof {
            lemma_is_pow2_at_least_one(align as int);
        }
        let pad = align_offset(self.next, align);
        proof {
            // The padding stays below the size it is served with, so the
            // bump pointer advances by less than twice the budget spent.
            assert(pad + size <= 2 * size - 1);
            assert(self.next + pad + size <= usize::MAX);
        }
        let addr = self.next + pad;
        let b = Block { addr, align, bytes: junk_bytes(size) };
        self.next = addr + size;
        self.limit = self.limit - size;
        self.alloc_calls = self.alloc_calls + 1;
        Some(b)
    }

    /// Like [`allocate`](SysHeap::allocate), but the served block is zero-filled.
    pub fn allocate_zeroed(&mut self, size: usize, align: usize) -> (r: Option<Block>)
        requires
            old(self).wf(),
            size >= 1,
            is_pow2(align as int),
            align <= size,
        ensures
            final(self).wf(),
            r is Some <==> size <= old(self).limit,
            r matches Some(b) ==> {
                &&& b.wf()
                &&& old(self).next <= b.addr < old(self).next + align
                &&& b.addr as int % align as int == 0
                &&& b.align == align
                &&& b.bytes@.len() == size
                &&& all_zero(b.bytes@)
                &&& final(self).next == b.addr + size
                &&& final(self).limit == old(self).limit - size
                &&& final(self).alloc_calls == old(self).alloc_calls + 1
                &&& final(self).freed == old(self).freed
            },
            r is None ==> *final(self) == *old(self),
    {
        match self.allocate(size, align) {
            None => None,
            Some(mut b) => {
                b.zero_fill();
                Some(b)
            },
        }
    }

    /// Takes a block back. The block is retained, contents included, in
    /// [`freed`](SysHeap::freed); the system allocator itself does not
    /// scrub memory.
    pub fn deallocate(&mut self, block: Block)
        requires
            old(self).wf(),
            block.bytes@.len() >= 1,
        ensures
            final(self).wf(),
            final(self).freed@ == old(self).freed@.push(block),
            final(self).next == old(self).next,
            final(self).limit == old(self).limit,
            final(self).alloc_calls == old(self).alloc_calls,
    {
        self.freed.push(block);
    }

    /// Moves a block to a fresh, aligned address with `new_size` bytes,
    /// preserving the bytes up to the lesser of the old and the new size
    /// and leaving the rest unspecified. The old block, if it was a real
    /// allocation, is released; on failure nothing changes at all.
    pub fn reallocate(&mut self, block: &mut Block, new_size: usize) -> (ok: bool)
        requires
            old(self).wf(),
            old(block).wf(),
            new_size >= 1,
            old(block).align <= new_size,
        ensures
            final(self).wf(),
            ok <==> new_size <= old(self).limit,
            ok ==> {
                &&& final(block).wf()
                &&& old(self).next <= final(block).addr < old(self).next + old(block).align
                &&& final(block).addr as int % old(block).align as int == 0
                &&& final(block).align == old(block).align
                &&& final(block).bytes@.len() == new_size
                &&& forall|i: int|
                    0 <= i < old(block).bytes@.len() && i < new_size
                        ==> final(block).bytes@[i] == old(block).bytes@[i]
                &&& final(self).next == final(block).addr + new_size
                &&& final(self).limit == old(self).limit - new_size
                &&& final(self).alloc_calls == old(self).alloc_calls + 1
                &&& final(self).freed@ == if old(block).bytes@.len() >= 1 {
                    old(self).freed@.push(*old(block))
                } else {
                    old(self).freed@
                }
            },
            !ok ==> *final(self) == *old(self) && *final(block) == *old(block),
    {
        let fresh_opt = self.allocate(new_size, block.align);
        match fresh_opt {
            None => false,
            Some(mut fresh) => {
                let old_len = block.size();
                let n = if old_len < new_size {
                    old_len
                } else {
                    new_size
                };
                copy_prefix(&mut fresh.bytes, &block.bytes, n);
                core::mem::swap(block, &mut fresh);
                if fresh.size() > 0 {
                    self.freed.push(fresh);
                }
                true
            },
        }
    }
}

/// Copies the first `n` bytes of `src` over the start of `dst`, leaving the
/// rest of `dst` unchanged.
fn copy_prefix(dst: &mut Vec<u8>, src: &Vec<u8>, n: usize)
    requires
        n <= src@.len(),
        n <= old(dst)@.len(),
    ensures
        final(dst)@.len() == old(dst)@.len(),
        forall|i: int| 0 <= i < n ==> final(dst)@[i] == src@[i],
        forall|i: int| n <= i < old(dst)@.len() ==> final(dst)@[i] == old(dst)@[i],
{
    let mut i: usize = 0;
    while i < n
        invariant
            i <= n,
            n <= src@.len(),
            n <= dst@.len(),
            dst@.len() == old(dst)@.len(),
            forall|j: int| 0 <= j < i ==> dst@[j] == src@[j],
            forall|j: int| i <= j < dst@.len() ==> dst@[j] == old(dst)@[j],
        decreases n - i,
    {
        let b = src[i];
        dst.set(i, b);
        i = i + 1;
    }
}

/// The zero-filling allocation policy: a stateless object that acquires
/// memory from the system heap and guarantees, symmetrically, that every
/// block it hands out is entirely zero and that every block it releases is
/// zero-overwritten before it reaches the system's free list.
///
/// The policy does not lean on the system heap's own alignment guarantee:
/// it defensively over-allocates by `align - 1` slack bytes, advances to
/// the next aligned address within the served block, and re-zeroes the
/// usable region whenever it had to move — so its alignment promise would
/// survive even an underlying call that provides none.
#[derive(Clone, Copy, Debug)]
pub struct Allocator {}

impl Allocator {
    /// A new (stateless) policy object.
    pub fn new() -> (a: Allocator)
        ensures
            a == (Allocator {  }),
    {
        Allocator {  }
    }

    /// Acquires a zero-filled block of `layout.size` bytes whose address is
    /// aligned to `layout.align`, or nothing when the system heap's budget
    /// cannot cover the request plus its alignment slack.
    pub fn acquire(&self, sys: &mut SysHeap, layout: Layout) -> (r: Option<Block>)
        requires
            old(sys).wf(),
            layout.wf(),
            layout.size >= 1,
        ensures
            final(sys).wf(),
            r is Some <==> layout.size + layout.align - 1 <= old(sys).limit,
            r matches Some(b) ==> {
                &&& b.wf()
                &&& b.align == layout.align
                &&& b.bytes@.len() == layout.size
                &&& all_zero(b.bytes@)
                &&& b.addr as int % layout.align as int == 0
                &&& old(sys).next <= b.addr < old(sys).next + layout.align
                &&& final(sys).next == b.addr + layout.size + layout.align - 1
                &&& final(sys).limit == old(sys).limit - (layout.size + layout.align - 1)
                &&& final(sys).alloc_calls == old(sys).alloc_calls + 1
                &&& final(sys).freed == old(sys).freed
            },
            r is None ==> *final(sys) == *old(sys),
    {
        proof {
            lemma_nonzero_layout_fits(layout);
        }
        let request = layout.size + (layout.align - 1);
        match sys.allocate_zeroed(request, layout.align) {
            None => None,
            Some(mut served) => {
                let offset = align_offset(served.addr, layout.align);
                let tail = served.bytes.split_off(offset);
                let mut usable = tail;
                usable.truncate(layout.size);
                let mut b = Block {
                    addr: served.addr + offset,
                    align: layout.align,
                    bytes: usable,
                };
                if offset != 0 {
                    b.zero_fill();
                }
                Some(b)
            },
        }
    }

    /// Identical guarantee to [`acquire`](Allocator::acquire), kept as a
    /// distinct entry point; it performs one more explicit zero pass over
    /// the acquired block.
    pub fn acquire_zeroed(&self, sys: &mut SysHeap, layout: Layout) -> (r: Option<Block>)
        requires
            old(sys).wf(),
            layout.wf(),
            layout.size >= 1,
        ensures
            final(sys).wf(),
            r is Some <==> layout.size + layout.align - 1 <= old(sys).limit,
            r matches Some(b) ==> {
                &&& b.wf()
                &&& b.align == layout.align
                &&& b.bytes@.len() == layout.size
                &&& all_zero(b.bytes@)
                &&& b.addr as int % layout.align as int == 0
                &&& old(sys).next <= b.addr < old(sys).next + layout.align
                &&& final(sys).next == b.addr + layout.size + layout.align - 1
                &&& final(sys).limit == old(sys).limit - (layout.size + layout.align - 1)
                &&& final(sys).alloc_calls == old(sys).alloc_calls + 1
                &&& final(sys).freed == old(sys).freed
            },
            r is None ==> *final(sys) == *old(sys),
    {
        match self.acquire(sys, layout) {
            None => None,
            Some(mut b) => {
                b.zero_fill();
                Some(b)
            },
        }
    }

    /// Releases a real (non-placeholder) block: zero-overwrites its entire
    /// region, then hands it to the system heap's free list, so no residual
    /// data survives the release.
    pub fn release(&self, sys: &mut SysHeap, block: Block)
        requires
            old(sys).wf(),
            block.bytes@.len() >= 1,
        ensures
            final(sys).wf(),
            final(sys).freed@.len() == old(sys).freed@.len() + 1,
            ({
                let f = final(sys).freed@.last();
                &&& f.addr == block.addr
                &&& f.align == block.align
                &&& f.bytes@.len() == block.bytes@.len()
                &&& all_zero(f.bytes@)
            }),
            forall|i: int|
                0 <= i < old(sys).freed@.len() ==> final(sys).freed@[i] == old(sys).freed@[i],
            final(sys).next == old(sys).next,
            final(sys).limit == old(sys).limit,
            final(sys).alloc_calls == old(sys).alloc_calls,
    {
        let mut scrubbed = block;
        scrubbed.zero_fill();
        sys.deallocate(scrubbed);
    }

    /// Moves a block to a freshly acquired region of `new_size` bytes:
    /// never in place, since only the acquire-copy-release path keeps the
    /// zero-fill guarantee on every byte involved. The bytes up to the
    /// lesser of the old and the new size are preserved, every newly
    /// exposed byte is zero, and the old region is released zeroed. On
    /// failure, the block and the heap are left completely unchanged.
    pub fn reacquire(&self, sys: &mut SysHeap, block: &mut Block, new_size: usize) -> (ok: bool)
        requires
            old(sys).wf(),
            old(block).wf(),
            new_size >= 1,
            (Layout { size: new_size, align: old(block).align }).wf(),
        ensures
            final(sys).wf(),
            ok <==> new_size + old(block).align - 1 <= old(sys).limit,
            ok ==> {
                &&& final(block).wf()
                &&& final(block).align == old(block).align
                &&& final(block).bytes@.len() == new_size
                &&& final(block).addr as int % old(block).align as int == 0
                &&& forall|i: int|
                    0 <= i < old(block).bytes@.len() && i < new_size
                        ==> final(block).bytes@[i] == old(block).bytes@[i]
                &&& forall|i: int|
                    old(block).bytes@.len() <= i < new_size ==> final(block).bytes@[i] == 0
                &&& final(sys).alloc_calls == old(sys).alloc_calls + 1
                &&& final(sys).next == final(block).addr + new_size + old(block).align - 1
                &&& final(sys).limit == old(sys).limit - (new_size + old(block).align - 1)
                &&& old(sys).next <= final(block).addr < old(sys).next + old(block).align
                &&& if old(block).bytes@.len() >= 1 {
                    {
                        let f = final(sys).freed@.last();
                        &&& final(sys).freed@.len() == old(sys).freed@.len() + 1
                        &&& f.addr == old(block).addr
                        &&& f.bytes@.len() == old(block).bytes@.len()
                        &&& all_zero(f.bytes@)
                    }
                } else {
                    final(sys).freed == old(sys).freed
                }
            },
            !ok ==> *final(sys) == *old(sys) && *final(block) == *old(block),
    {
        let layout = Layout { size: new_size, align: block.align };
        match self.acquire(sys, layout) {
            None => false,
            Some(mut acquired) => {
                let old_len = block.size();
                let n = if old_len < new_size {
                    old_len
                } else {
                    new_size
                };
                copy_prefix(&mut acquired.bytes, &block.bytes, n);
                core::mem::swap(block, &mut acquired);
                if acquired.size() > 0 {
                    self.release(sys, acquired);
                }
                true
            },
        }
    }

    /// Common path of the typed interface: zero-size requests are answered
    /// with a placeholder and never reach the system heap; all others go
    /// through [`acquire`](Allocator::acquire), whose refusal becomes a
    /// typed [`AllocError`] carrying the failed layout.
    fn acquire_impl(&self, sys: &mut SysHeap, layout: Layout, zeroed: bool) -> (r: Result<
        Block,
        AllocError,
    >)
        requires
            old(sys).wf(),
            layout.wf(),
        ensures
            final(sys).wf(),
            layout.size == 0 ==> r is Ok && *final(sys) == *old(sys),
            layout.size >= 1 ==> (r is Ok <==> layout.size + layout.align - 1 <= old(sys).limit),
            r matches Ok(b) ==> {
                &&& b.wf()
                &&& b.align == layout.align
                &&& b.bytes@.len() == layout.size
                &&& all_zero(b.bytes@)
                &&& layout.size == 0 ==> b.is_placeholder() && b.addr == layout.align
                &&& layout.size >= 1 ==> {
                    &&& b.addr as int % layout.align as int == 0
                    &&& old(sys).next <= b.addr < old(sys).next + layout.align
                    &&& final(sys).next == b.addr + layout.size + layout.align - 1
                    &&& final(sys).limit == old(sys).limit - (layout.size + layout.align - 1)
                    &&& final(sys).alloc_calls == old(sys).alloc_calls + 1
                    &&& final(sys).freed == old(sys).freed
                }
            },
            r matches Err(e) ==> e.layout == layout && *final(sys) == *old(sys),
    {
        if layout.size == 0 {
            return Ok(Block::placeholder(layout.align));
        }
        let got = if zeroed {
            self.acquire_zeroed(sys, layout)
        } else {
            self.acquire(sys, layout)
        };
        match got {
            Some(b) => Ok(b),
            None => Err(AllocError { layout }),
        }
    }

    /// The typed allocation interface: a zero-filled, aligned block of
    /// `layout.size` bytes, or the typed error. Zero-size requests never
    /// touch the system heap.
    pub fn allocate(&self, sys: &mut SysHeap, layout: Layout) -> (r: Result<Block, AllocError>)
        requires
            old(sys).wf(),
            layout.wf(),
        ensures
            final(sys).wf(),
            layout.size == 0 ==> r is Ok && *final(sys) == *old(sys),
            layout.size >= 1 ==> (r is Ok <==> layout.size + layout.align - 1 <= old(sys).limit),
            r matches Ok(b) ==> {
                &&& b.wf()
                &&& b.align == layout.align
                &&& b.bytes@.len() == layout.size
                &&& all_zero(b.bytes@)
                &&& layout.size == 0 ==> b.is_placeholder() && b.addr == layout.align
                &&& layout.size >= 1 ==> {
                    &&& b.addr as int % layout.align as int == 0
                    &&& old(sys).next <= b.addr < old(sys).next + layout.align
                    &&& final(sys).next == b.addr + layout.size + layout.align - 1
                    &&& final(sys).limit == old(sys).limit - (layout.size + layout.align - 1)
                    &&& final(sys).alloc_calls == old(sys).alloc_calls + 1
                    &&& final(sys).freed == old(sys).freed
                }
            },
            r matches Err(e) ==> e.layout == layout && *final(sys) == *old(sys),
    {
        self.acquire_impl(sys, layout, false)
    }

    /// Identical guarantee to [`allocate`](Allocator::allocate), kept as a
    /// distinct entry point to match the typed-interface contract.
    pub fn allocate_zeroed(&self, sys: &mut SysHeap, layout: Layout) -> (r: Result<
        Block,
        AllocError,
    >)
        requires
            old(sys).wf(),
            layout.wf(),
        ensures
            final(sys).wf(),
            layout.size == 0 ==> r is Ok && *final(sys) == *old(sys),
            layout.size >= 1 ==> (r is Ok <==> layout.size + layout.align - 1 <= old(sys).limit),
            r matches Ok(b) ==> {
                &&& b.wf()
                &&& b.align == layout.align
                &&& b.bytes@.len() == layout.size
                &&& all_zero(b.bytes@)
                &&& layout.size == 0 ==> b.is_placeholder() && b.addr == layout.align
                &&& layout.size >= 1 ==> {
                    &&& b.addr as int % layout.align as int == 0
                    &&& old(sys).next <= b.addr < old(sys).next + layout.align
                    &&& final(sys).next == b.addr + layout.size + layout.align - 1
                    &&& final(sys).limit == old(sys).limit - (layout.size + layout.align - 1)
                    &&& final(sys).alloc_calls == old(sys).alloc_calls + 1
                    &&& final(sys).freed == old(sys).freed
                }
            },
            r matches Err(e) ==> e.layout == layout && *final(sys) == *old(sys),
    {
        self.acquire_impl(sys, layout, true)
    }

    /// The typed release interface: placeholders (zero-size blocks) never
    /// touch the system heap; every real block is released zeroed.
    pub fn deallocate(&self, sys: &mut SysHeap, block: Block)
        requires
            old(sys).wf(),
        ensures
            final(sys).wf(),
            block.bytes@.len() == 0 ==> *final(sys) == *old(sys),
            block.bytes@.len() >= 1 ==> {
                &&& final(sys).freed@.len() == old(sys).freed@.len() + 1
                &&& ({
                    let f = final(sys).freed@.last();
                    &&& f.addr == block.addr
                    &&& f.bytes@.len() == block.bytes@.len()
                    &&& all_zero(f.bytes@)
                })
                &&& final(sys).next == old(sys).next
                &&& final(sys).limit == old(sys).limit
                &&& final(sys).alloc_calls == old(sys).alloc_calls
            },
    {
        if block.size() != 0 {
            self.release(sys, block);
        }
    }
}

impl Default for Allocator {
    fn default() -> (a: Self)
        ensures
            a == (Allocator {  }),
    {
        Allocator::new()
    }
}

} // verus!
