use owned_alloc::RawVec;
use owned_alloc::RawVecError;
use owned_alloc::SysHeap;

#[test]
fn cap_is_the_one_passed() {
    let mut sys = SysHeap::new();
    let mut alloc = RawVec::<usize>::with_capacity(20, &mut sys);
    assert_eq!(alloc.cap(), 20);

    alloc.resize(50, &mut sys);
    assert_eq!(alloc.cap(), 50);

    alloc.resize(5, &mut sys);
    assert_eq!(alloc.cap(), 5);
}

#[test]
fn new_has_capacity_zero_and_no_allocation() {
    let sys_untouched = SysHeap::new();
    let v = RawVec::<u32>::new();
    assert_eq!(v.cap(), 0);
    assert_eq!(v.as_slice().len(), 0);
    assert_eq!(sys_untouched.alloc_calls, 0);
}

#[test]
fn resize_preserves_byte_prefix() {
    let elem = std::mem::size_of::<usize>();
    let mut sys = SysHeap::new();
    let mut v = RawVec::<usize>::with_capacity(20, &mut sys);
    assert_eq!(v.cap(), 20);
    // A known pattern over the first 20 slots' bytes.
    for i in 0..20 * elem {
        v.write_byte(i, (i % 251) as u8);
    }

    v.resize(50, &mut sys);
    assert_eq!(v.cap(), 50);
    assert_eq!(v.as_slice().len(), 50 * elem);
    for i in 0..20 * elem {
        assert_eq!(v.read_byte(i), (i % 251) as u8);
    }

    v.resize(5, &mut sys);
    assert_eq!(v.cap(), 5);
    assert_eq!(v.as_slice().len(), 5 * elem);
    for i in 0..5 * elem {
        assert_eq!(v.read_byte(i), (i % 251) as u8);
    }
}

#[test]
fn zero_sized_type_never_allocates() {
    let mut sys = SysHeap::new();
    let v = RawVec::<()>::with_capacity(7, &mut sys);
    assert_eq!(v.cap(), 7);
    assert_eq!(v.as_slice().len(), 0);
    assert_eq!(sys.alloc_calls, 0);
    assert_eq!(sys.dealloc_calls(), 0);
}

#[test]
fn capacity_overflow_is_a_layout_error() {
    let mut sys = SysHeap::new();
    let r = RawVec::<u64>::try_with_capacity(usize::MAX, &mut sys);
    assert!(matches!(r, Err(RawVecError::Layout(_))));
    // The request never touched the system allocator.
    assert_eq!(sys.alloc_calls, 0);
    assert_eq!(sys.dealloc_calls(), 0);
}

#[test]
fn exhausted_heap_is_an_alloc_error() {
    let mut sys = SysHeap::with_limit(16);
    let r = RawVec::<u64>::try_with_capacity(4, &mut sys);
    match r {
        Err(RawVecError::Alloc(e)) => {
            assert_eq!(e.layout.size, 32);
        },
        _ => panic!("a refused non-zero-size request must be an alloc error"),
    }
}

#[test]
fn failed_resize_changes_nothing() {
    let elem = std::mem::size_of::<u64>();
    let mut sys = SysHeap::with_limit(4 * elem);
    let mut v = RawVec::<u64>::try_with_capacity(4, &mut sys).unwrap();
    for i in 0..4 * elem {
        v.write_byte(i, 9);
    }
    let calls_before = sys.alloc_calls;

    // The budget is spent: growing must fail and leave everything as it was.
    let r = v.try_resize(8, &mut sys);
    assert!(matches!(r, Err(RawVecError::Alloc(_))));
    assert_eq!(v.cap(), 4);
    for i in 0..4 * elem {
        assert_eq!(v.read_byte(i), 9);
    }
    assert_eq!(sys.alloc_calls, calls_before);
    assert_eq!(sys.dealloc_calls(), 0);
}

#[test]
fn resize_to_zero_releases_the_block() {
    let mut sys = SysHeap::new();
    let mut v = RawVec::<u32>::with_capacity(3, &mut sys);
    assert_eq!(sys.alloc_calls, 1);
    v.resize(0, &mut sys);
    assert_eq!(v.cap(), 0);
    assert_eq!(v.as_slice().len(), 0);
    assert_eq!(sys.dealloc_calls(), 1);
}

#[test]
fn make_layout_computes_exact_sizes() {
    let l = RawVec::<u32>::make_layout(5).unwrap();
    assert_eq!(l.size, 20);
    assert_eq!(l.align, std::mem::align_of::<u32>());

    assert!(RawVec::<u64>::make_layout(usize::MAX).is_err());
}

#[test]
fn into_raw_slice_hands_out_address_and_capacity() {
    let mut sys = SysHeap::new();
    let v = RawVec::<u16>::with_capacity(6, &mut sys);
    let addr = v.raw();
    let (raw_addr, cap) = v.into_raw_slice();
    assert_eq!(raw_addr, addr);
    assert_eq!(cap, 6);
}

#[test]
fn buffer_addresses_are_aligned_for_the_type() {
    let mut sys = SysHeap::new();
    let v = RawVec::<u64>::with_capacity(3, &mut sys);
    assert_eq!(v.raw() % std::mem::align_of::<u64>(), 0);
}

#[test]
fn from_slot_is_a_buffer_of_capacity_one() {
    let mut sys = SysHeap::new();
    let slot = owned_alloc::UninitAlloc::<u32>::new(&mut sys);
    let addr = slot.raw();
    let v = RawVec::from(slot);
    assert_eq!(v.cap(), 1);
    assert_eq!(v.raw(), addr);
    assert_eq!(v.as_slice().len(), std::mem::size_of::<u32>());
    assert_eq!(sys.alloc_calls, 1);
}

#[test]
fn destroy_releases_the_buffer_block() {
    let mut sys = SysHeap::new();
    let v = RawVec::<u16>::with_capacity(5, &mut sys);
    let addr = v.raw();
    v.destroy(&mut sys);
    assert_eq!(sys.dealloc_calls(), 1);
    assert_eq!(sys.freed[0].addr, addr);
    assert_eq!(sys.freed[0].bytes.len(), 10);

    // A placeholder buffer has nothing to release.
    let empty = RawVec::<u16>::new();
    empty.destroy(&mut sys);
    assert_eq!(sys.dealloc_calls(), 1);
}
