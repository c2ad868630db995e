use std::cell::Cell;
use std::rc::Rc;

use swc_allocator::allocators::arena::{ArenaConfig, Grant};
use swc_allocator::allocators::Arena;
use swc_allocator::boxed::ArenaBox;
use swc_allocator::error::ArenaError;
use swc_allocator::layout::ByteRange;
use swc_allocator::port::{AllocatorPort, Answer};

struct Counted {
    drops: Rc<Cell<u32>>,
}

impl Drop for Counted {
    fn drop(&mut self) {
        self.drops.set(self.drops.get() + 1);
    }
}

#[test]
fn box_in_an_arena_has_a_slot_for_its_value() {
    let arena = Arena::default();
    let b = ArenaBox::new_in(77u64, AllocatorPort::Arena(&arena)).unwrap();
    assert_eq!(*b, 77);
    let slot = b.slot().unwrap();
    assert_eq!(slot.len, 8);
    assert_eq!(slot.addr % std::mem::align_of::<u64>(), 0);
    assert_ne!(slot.addr, 0);
    assert!(b.port().is_arena());
    assert!(arena.allocated_bytes() >= 8);
}

#[test]
fn box_on_the_heap_has_no_slot() {
    let b = ArenaBox::new_in(String::from("heap"), AllocatorPort::Heap).unwrap();
    assert_eq!(b.as_str(), "heap");
    assert_eq!(b.slot(), None);
    assert!(!b.port().is_arena());
}

#[test]
fn boxes_of_one_arena_have_distinct_slots() {
    let arena = Arena::default();
    let a = ArenaBox::new_in(1u32, AllocatorPort::Arena(&arena)).unwrap();
    let b = ArenaBox::new_in(2u32, AllocatorPort::Arena(&arena)).unwrap();
    assert_ne!(a.slot().unwrap().addr, b.slot().unwrap().addr);
    assert_eq!(*a + *b, 3);
}

#[test]
fn deref_mut_writes_the_value() {
    let arena = Arena::default();
    let mut b = ArenaBox::new_in(vec![1, 2], AllocatorPort::Arena(&arena)).unwrap();
    let slot = b.slot();
    b.push(3);
    *b.first_mut().unwrap() = 10;
    assert_eq!(*b, vec![10, 2, 3]);
    assert_eq!(b.slot(), slot);
}

#[test]
fn into_inner_hands_the_value_out() {
    let arena = Arena::default();
    let b = ArenaBox::new_in(String::from("kept"), AllocatorPort::Arena(&arena)).unwrap();
    let room = arena.allocated_bytes();
    let s = b.into_inner();
    assert_eq!(s, "kept");
    assert_eq!(arena.allocated_bytes(), room);
    let h = ArenaBox::new_in(5u8, AllocatorPort::Heap).unwrap();
    assert_eq!(h.into_inner(), 5);
}

#[test]
fn value_is_dropped_once_with_its_box() {
    let drops = Rc::new(Cell::new(0));
    let arena = Arena::default();
    let b = ArenaBox::new_in(Counted { drops: drops.clone() }, AllocatorPort::Arena(&arena)).unwrap();
    assert_eq!(drops.get(), 0);
    drop(b);
    assert_eq!(drops.get(), 1);
    let h = ArenaBox::new_in(Counted { drops: drops.clone() }, AllocatorPort::Heap).unwrap();
    let inner = h.into_inner();
    assert_eq!(drops.get(), 1);
    drop(inner);
    assert_eq!(drops.get(), 2);
}

#[test]
fn box_that_the_arena_cannot_place_is_refused() {
    let config = ArenaConfig {
        initial_chunk_bytes: 0,
        max_chunk_bytes: 4,
        oversize_threshold_bytes: 4,
    };
    let arena = Arena::with_config(config).unwrap();
    let drops = Rc::new(Cell::new(0));
    let r = ArenaBox::new_in((Counted { drops: drops.clone() }, 0u64), AllocatorPort::Arena(&arena));
    assert_eq!(r.err(), Some(ArenaError::AllocatorExhausted));
    assert_eq!(drops.get(), 1);
    assert!(ArenaBox::new_in(1u32, AllocatorPort::Arena(&arena)).is_ok());
}

#[test]
fn box_of_a_value_without_size_has_an_empty_slot() {
    let arena = Arena::default();
    let b = ArenaBox::new_in((), AllocatorPort::Arena(&arena)).unwrap();
    let slot = b.slot().unwrap();
    assert_eq!(slot.len, 0);
    assert_ne!(slot.addr, 0);
}

#[test]
fn settle_new_takes_up_each_answer() {
    let arena = Arena::default();
    let port = AllocatorPort::Arena(&arena);
    let range = ByteRange { addr: 4096, len: 4 };
    let grant = Grant { range, copy_len: 0, zero_from: 0, zero_len: 0 };
    let b = ArenaBox::settle_new(9u32, port, Ok(Answer::Placed(grant))).unwrap();
    assert_eq!(*b, 9);
    assert_eq!(b.slot(), Some(range));
    let h = ArenaBox::settle_new(9u32, AllocatorPort::Heap, Ok(Answer::ProcessHeap)).unwrap();
    assert_eq!(*h, 9);
    assert_eq!(h.slot(), None);
    let e = ArenaBox::settle_new(9u32, port, Err(ArenaError::AllocatorExhausted));
    assert_eq!(e.err(), Some(ArenaError::AllocatorExhausted));
}
