use swc_allocator::error::ArenaError;
use swc_allocator::layout::{is_power_of_two, ByteRange, Layout};

#[test]
fn powers_of_two_are_recognised() {
    assert!(is_power_of_two(1));
    assert!(is_power_of_two(2));
    assert!(is_power_of_two(4096));
    assert!(is_power_of_two(1 << (usize::BITS - 1)));
    assert!(!is_power_of_two(0));
    assert!(!is_power_of_two(3));
    assert!(!is_power_of_two(6));
    assert!(!is_power_of_two(usize::MAX));
}

#[test]
fn valid_layout_keeps_size_and_alignment() {
    let layout = Layout::from_size_align(24, 8).unwrap();
    assert_eq!(layout.size(), 24);
    assert_eq!(layout.align(), 8);
    let empty = Layout::from_size_align(0, 1).unwrap();
    assert_eq!(empty.size(), 0);
    assert_eq!(empty.align(), 1);
}

#[test]
fn zero_alignment_is_invalid() {
    assert_eq!(Layout::from_size_align(8, 0), Err(ArenaError::InvalidLayout));
}

#[test]
fn alignment_that_is_no_power_of_two_is_invalid() {
    assert_eq!(Layout::from_size_align(8, 3), Err(ArenaError::InvalidLayout));
    assert_eq!(Layout::from_size_align(8, 24), Err(ArenaError::InvalidLayout));
}

#[test]
fn size_that_overflows_when_rounded_up_is_invalid() {
    let max = isize::MAX as usize;
    assert_eq!(Layout::from_size_align(usize::MAX, 8), Err(ArenaError::InvalidLayout));
    assert_eq!(Layout::from_size_align(max, 8), Err(ArenaError::InvalidLayout));
    assert_eq!(Layout::from_size_align(max - 6, 8), Err(ArenaError::InvalidLayout));
    assert!(Layout::from_size_align(max - 7, 8).is_ok());
    assert!(Layout::from_size_align(max, 1).is_ok());
    assert_eq!(Layout::from_size_align(max + 1, 1), Err(ArenaError::InvalidLayout));
}

#[test]
fn largest_alignment_admits_only_the_empty_size() {
    let align = 1usize << (usize::BITS - 1);
    assert!(Layout::from_size_align(0, align).is_ok());
    assert_eq!(Layout::from_size_align(1, align), Err(ArenaError::InvalidLayout));
}

#[test]
fn layout_of_a_type_is_its_size_and_alignment() {
    let l = Layout::of::<u64>();
    assert_eq!(l.size(), 8);
    assert_eq!(l.align(), std::mem::align_of::<u64>());
    let unit = Layout::of::<()>();
    assert_eq!(unit.size(), 0);
    assert_eq!(unit.align(), 1);
    let b = Layout::of::<u8>();
    assert_eq!((b.size(), b.align()), (1, 1));
}

#[test]
fn array_layout_multiplies_the_size() {
    let elem = Layout::from_size_align(8, 8).unwrap();
    let arr = elem.array(5).unwrap();
    assert_eq!(arr.size(), 40);
    assert_eq!(arr.align(), 8);
    let none = elem.array(0).unwrap();
    assert_eq!(none.size(), 0);
}

#[test]
fn array_layout_that_overflows_is_invalid() {
    let elem = Layout::from_size_align(8, 8).unwrap();
    assert_eq!(elem.array(usize::MAX), Err(ArenaError::InvalidLayout));
    assert_eq!(elem.array(usize::MAX / 8), Err(ArenaError::InvalidLayout));
    let most = (isize::MAX as usize) / 8;
    assert!(elem.array(most).is_ok());
    assert_eq!(elem.array(most + 1), Err(ArenaError::InvalidLayout));
}

#[test]
fn range_answers_a_layout_only_when_it_fits() {
    let layout = Layout::from_size_align(16, 8).unwrap();
    assert!(ByteRange { addr: 64, len: 16 }.answers(layout));
    assert!(!ByteRange { addr: 0, len: 16 }.answers(layout));
    assert!(!ByteRange { addr: 68, len: 16 }.answers(layout));
    assert!(!ByteRange { addr: 64, len: 8 }.answers(layout));
    assert!(!ByteRange { addr: usize::MAX - 7, len: 16 }.answers(layout));
}

#[test]
fn error_messages_name_the_error() {
    assert_eq!(ArenaError::AllocatorExhausted.message(), "allocator exhausted");
    assert_eq!(ArenaError::InvalidLayout.message(), "invalid layout");
    assert_eq!(ArenaError::IndexOutOfRange.message(), "index out of range");
    assert_eq!(ArenaError::UseAfterScope.message(), "use after scope");
}
