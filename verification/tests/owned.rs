use std::cell::Cell;
use std::rc::Rc;

use owned_alloc::OwnedAlloc;
use owned_alloc::SysHeap;

/// A value whose destructor counts how often it ran.
struct DropCounter {
    hits: Rc<Cell<u32>>,
}

impl Drop for DropCounter {
    fn drop(&mut self) {
        self.hits.set(self.hits.get() + 1);
    }
}

#[test]
fn inner_eq() {
    let mut sys = SysHeap::new();
    let mut alloc = OwnedAlloc::new(20, &mut sys);

    assert_eq!(*alloc.get(), 20);

    *alloc.get_mut() = 30;

    assert_eq!(*alloc.get(), 30);
}

#[test]
fn move_inner_eq() {
    let mut sys = SysHeap::new();
    let alloc = OwnedAlloc::new(20, &mut sys);

    assert_eq!(alloc.move_inner().0, 20);
}

#[test]
fn deref_mutate_deref() {
    let mut sys = SysHeap::new();
    let mut alloc = OwnedAlloc::new(42, &mut sys);
    assert_eq!(*alloc.get(), 42);
    *alloc.get_mut() = 100;
    assert_eq!(*alloc.get(), 100);
}

#[test]
fn destructor_runs_exactly_once() {
    let hits = Rc::new(Cell::new(0));
    let mut sys = SysHeap::new();
    let alloc = OwnedAlloc::new(DropCounter { hits: Rc::clone(&hits) }, &mut sys);
    assert_eq!(hits.get(), 0);
    drop(alloc);
    assert_eq!(hits.get(), 1);
}

#[test]
fn drop_in_place_runs_destructor_once_and_keeps_block() {
    let hits = Rc::new(Cell::new(0));
    let mut sys = SysHeap::new();
    let alloc = OwnedAlloc::new(DropCounter { hits: Rc::clone(&hits) }, &mut sys);
    let addr = alloc.raw();
    let slot = alloc.drop_in_place();
    assert_eq!(hits.get(), 1);
    assert_eq!(slot.raw(), addr);
    // The block is reusable; a second value lives and dies exactly once too.
    let again = slot.init(DropCounter { hits: Rc::clone(&hits) });
    drop(again);
    assert_eq!(hits.get(), 2);
}

#[test]
fn decompose_round_trip() {
    let mut sys = SysHeap::new();
    let alloc = OwnedAlloc::new(7, &mut sys);
    let (value, slot) = alloc.move_inner();
    assert_eq!(value, 7);
    let reinit = slot.init(99);
    assert_eq!(*reinit.get(), 99);
    // One allocation served the whole dance, and nothing was freed: no
    // double allocation and no double free across the two halves.
    assert_eq!(sys.alloc_calls, 1);
    assert_eq!(sys.dealloc_calls(), 0);
}

#[test]
fn move_inner_does_not_run_destructor() {
    let hits = Rc::new(Cell::new(0));
    let mut sys = SysHeap::new();
    let alloc = OwnedAlloc::new(DropCounter { hits: Rc::clone(&hits) }, &mut sys);
    let (value, _slot) = alloc.move_inner();
    assert_eq!(hits.get(), 0);
    drop(value);
    assert_eq!(hits.get(), 1);
}

#[test]
fn duplicate_makes_an_independent_allocation() {
    let mut sys = SysHeap::new();
    let a = OwnedAlloc::new(5, &mut sys);
    let b = a.duplicate(&mut sys);
    assert_eq!(*b.get(), 5);
    assert_ne!(a.raw(), b.raw());
    assert_eq!(sys.alloc_calls, 2);
}

#[test]
fn forget_inner_suppresses_the_destructor() {
    let hits = Rc::new(Cell::new(0));
    let mut sys = SysHeap::new();
    let alloc = OwnedAlloc::new(DropCounter { hits: Rc::clone(&hits) }, &mut sys);
    let addr = alloc.raw();
    let slot = alloc.forget_inner();
    assert_eq!(hits.get(), 0);
    assert_eq!(slot.raw(), addr);
    drop(slot);
    assert_eq!(hits.get(), 0);
}

#[test]
fn try_new_value_reports_alloc_error() {
    let mut sys = SysHeap::with_limit(3);
    let r = OwnedAlloc::<u64>::try_new(5, &mut sys);
    match r {
        Err(e) => {
            assert_eq!(e.layout.size, std::mem::size_of::<u64>());
            assert_eq!(e.layout.align, std::mem::align_of::<u64>());
        },
        Ok(_) => panic!("allocation must fail beyond the heap's budget"),
    }
}

#[test]
fn destroy_runs_destructor_and_releases_the_block() {
    let hits = Rc::new(Cell::new(0));
    let mut sys = SysHeap::new();
    let alloc = OwnedAlloc::new(DropCounter { hits: Rc::clone(&hits) }, &mut sys);
    let addr = alloc.raw();
    alloc.destroy(&mut sys);
    assert_eq!(hits.get(), 1);
    assert_eq!(sys.dealloc_calls(), 1);
    assert_eq!(sys.freed[0].addr, addr);
}

#[test]
fn owned_addresses_are_aligned_for_the_type() {
    let mut sys = SysHeap::new();
    let a = OwnedAlloc::new(3u64, &mut sys);
    assert_eq!(a.raw() % std::mem::align_of::<u64>(), 0);
}
