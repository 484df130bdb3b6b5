use owned_alloc::layout::is_power_of_two;
use owned_alloc::AllocError;
use owned_alloc::Layout;
use owned_alloc::LayoutError;
use owned_alloc::RawVecError;

#[test]
fn power_of_two_recognition() {
    assert!(is_power_of_two(1));
    assert!(is_power_of_two(2));
    assert!(is_power_of_two(64));
    assert!(is_power_of_two(1 << 40));
    assert!(!is_power_of_two(0));
    assert!(!is_power_of_two(3));
    assert!(!is_power_of_two(12));
    assert!(!is_power_of_two(usize::MAX));
}

#[test]
fn from_size_align_accepts_valid_pairs() {
    let l = Layout::from_size_align(40, 8).unwrap();
    assert_eq!(l.size, 40);
    assert_eq!(l.align, 8);

    let unit = Layout::from_size_align(0, 1).unwrap();
    assert_eq!(unit.size, 0);
    assert_eq!(unit.align, 1);
}

#[test]
fn from_size_align_rejects_bad_alignment() {
    assert!(Layout::from_size_align(8, 0).is_err());
    assert!(Layout::from_size_align(8, 3).is_err());
    assert!(Layout::from_size_align(8, 24).is_err());
}

#[test]
fn from_size_align_rejects_oversized_requests() {
    assert!(Layout::from_size_align(usize::MAX, 1).is_err());
    assert!(Layout::from_size_align(usize::MAX / 2, 1).is_ok());
    // Rounding up to the alignment must stay representable.
    assert!(Layout::from_size_align(isize::MAX as usize, 2).is_err());
}

#[test]
fn for_type_matches_the_compiler() {
    let l = Layout::for_type::<u64>();
    assert_eq!(l.size, std::mem::size_of::<u64>());
    assert_eq!(l.align, std::mem::align_of::<u64>());

    let unit = Layout::for_type::<()>();
    assert_eq!(unit.size, 0);
    assert_eq!(unit.align, 1);
}

#[test]
fn error_conversions_pick_the_right_variant() {
    let refused = AllocError { layout: Layout::from_size_align(8, 8).unwrap() };
    assert!(matches!(RawVecError::from(refused), RawVecError::Alloc(_)));
    assert!(matches!(RawVecError::from(LayoutError), RawVecError::Layout(_)));
}
