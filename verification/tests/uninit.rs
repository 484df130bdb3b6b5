use owned_alloc::OwnedAlloc;
use owned_alloc::SysHeap;
use owned_alloc::UninitAlloc;

#[test]
fn raw_and_into_raw_agree() {
    let mut sys = SysHeap::new();
    let alloc = UninitAlloc::<usize>::new(&mut sys);
    let raw_borrowed = alloc.raw();
    let raw = alloc.into_raw();

    assert_eq!(raw, raw_borrowed);
}

#[test]
fn init_writes_the_value() {
    let mut sys = SysHeap::new();
    let slot = UninitAlloc::<i32>::new(&mut sys);
    let addr = slot.raw();
    let owned = slot.init(5);
    assert_eq!(*owned.get(), 5);
    assert_eq!(owned.raw(), addr);
}

#[test]
fn acquire_makes_exactly_one_allocation_call() {
    let mut sys = SysHeap::new();
    let _slot = UninitAlloc::<u64>::new(&mut sys);
    assert_eq!(sys.alloc_calls, 1);
    let _other = UninitAlloc::<u64>::new(&mut sys);
    assert_eq!(sys.alloc_calls, 2);
}

#[test]
fn zero_sized_slots_never_allocate() {
    let mut sys = SysHeap::new();
    let slot = UninitAlloc::<()>::new(&mut sys);
    let owned = OwnedAlloc::new((), &mut sys);
    assert_eq!(sys.alloc_calls, 0);
    assert_eq!(sys.dealloc_calls(), 0);
    // The placeholder address is the type's alignment, never null.
    assert_eq!(slot.raw(), std::mem::align_of::<()>());
    drop(owned);
    assert_eq!(sys.dealloc_calls(), 0);
}

#[test]
fn try_new_slot_reports_alloc_error() {
    let mut sys = SysHeap::with_limit(3);
    let r = UninitAlloc::<u64>::try_new(&mut sys);
    match r {
        Err(e) => {
            assert_eq!(e.layout.size, std::mem::size_of::<u64>());
            assert_eq!(e.layout.align, std::mem::align_of::<u64>());
        },
        Ok(_) => panic!("allocation must fail beyond the heap's budget"),
    }
}

#[test]
fn slot_addresses_are_aligned_for_the_type() {
    let mut sys = SysHeap::new();
    let a = UninitAlloc::<u64>::new(&mut sys);
    assert_eq!(a.raw() % std::mem::align_of::<u64>(), 0);
    let b = UninitAlloc::<u16>::new(&mut sys);
    assert_eq!(b.raw() % std::mem::align_of::<u16>(), 0);
}

#[test]
fn destroy_releases_the_slot_block() {
    let mut sys = SysHeap::new();
    let slot = UninitAlloc::<u32>::new(&mut sys);
    let addr = slot.raw();
    slot.destroy(&mut sys);
    assert_eq!(sys.dealloc_calls(), 1);
    assert_eq!(sys.freed[0].addr, addr);
    assert_eq!(sys.freed[0].bytes.len(), std::mem::size_of::<u32>());
}
