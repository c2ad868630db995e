use std::hint::black_box;

use swc_allocator::allocators::Arena;
use swc_allocator::boxed::ArenaBox;
use swc_allocator::port::AllocatorPort;
use swc_allocator::vec::ArenaVec;

#[test]
fn direct_alloc_std() {
    let mut buf = std::vec::Vec::new();
    for i in 0..1000 {
        let item: std::boxed::Box<usize> = black_box(std::boxed::Box::new(black_box(i)));
        buf.push(item);
    }
}

#[test]
fn direct_alloc_no_scope() {
    let arena = Arena::default();
    let mut vec = ArenaVec::new_in(AllocatorPort::Arena(&arena));
    for i in 0..1000 {
        let item: ArenaBox<usize> =
            black_box(ArenaBox::new_in(black_box(i), AllocatorPort::Arena(&arena)).unwrap());
        vec.push(item).unwrap();
    }
}

#[test]
fn direct_alloc_in_scope() {
    let arena = Arena::default();
    let mut vec = ArenaVec::new_in(AllocatorPort::Arena(&arena));

    for i in 0..1000 {
        let item: ArenaBox<usize> =
            black_box(ArenaBox::new_in(black_box(i), AllocatorPort::Arena(&arena)).unwrap());
        vec.push(item).unwrap();
    }
}

#[test]
fn escape() {
    let arena = Arena::default();
    let obj = ArenaBox::new_in(1234, AllocatorPort::Arena(&arena)).unwrap();

    assert_eq!(*obj, 1234);
    drop(obj);
}

#[test]
fn global_allocator_escape() {
    let obj = { ArenaBox::new_in(1234, AllocatorPort::Heap).unwrap() };

    assert_eq!(*obj, 1234);
    // Object created with global allocator should outlive the allocator.
    drop(obj);
}
