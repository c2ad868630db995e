use swc_allocator::allocators::arena::ArenaConfig;
use swc_allocator::allocators::Arena;
use swc_allocator::boxed::ArenaBox;
use swc_allocator::error::ArenaError;
use swc_allocator::layout::Layout;
use swc_allocator::port::{AllocatorPort, Answer, FastAlloc, Mode, Release};
use swc_allocator::scope::{scope, ScopedArena};
use swc_allocator::vec::ArenaVec;

#[test]
fn no_scope_is_live_at_first() {
    let scopes = ScopedArena::new();
    assert_eq!(scopes.depth(), 0);
    assert!(scopes.current().is_none());
    assert!(scopes.current_token().is_none());
}

#[test]
fn innermost_scope_is_current() {
    let mut scopes = ScopedArena::new();
    let outer = scopes.enter().unwrap();
    assert_eq!(outer.id, 0);
    assert_eq!(scopes.depth(), 1);
    assert_eq!(scopes.current_token(), Some(outer));
    scopes.current().unwrap().allocate(Layout::from_size_align(64, 8).unwrap()).unwrap();
    let outer_room = scopes.current().unwrap().allocated_bytes();
    assert!(outer_room >= 64);
    let inner = scopes.enter().unwrap();
    assert_eq!(inner.id, 1);
    assert_eq!(scopes.depth(), 2);
    assert_eq!(scopes.current_token(), Some(inner));
    assert_eq!(scopes.current().unwrap().allocated_bytes(), 0);
    assert_eq!(scopes.arena_of(outer).unwrap().allocated_bytes(), outer_room);
    assert_eq!(scopes.exit(), Ok(inner));
    assert_eq!(scopes.current_token(), Some(outer));
    assert_eq!(scopes.current().unwrap().allocated_bytes(), outer_room);
    assert_eq!(scopes.exit(), Ok(outer));
    assert_eq!(scopes.depth(), 0);
    assert!(scopes.current().is_none());
}

#[test]
fn scope_that_has_ended_is_not_reached_any_more() {
    let mut scopes = ScopedArena::new();
    let first = scopes.enter().unwrap();
    assert!(scopes.arena_of(first).is_ok());
    scopes.exit().unwrap();
    assert_eq!(scopes.arena_of(first).err(), Some(ArenaError::UseAfterScope));
    let second = scopes.enter().unwrap();
    assert_ne!(first, second);
    assert_eq!(scopes.arena_of(first).err(), Some(ArenaError::UseAfterScope));
    assert!(scopes.arena_of(second).is_ok());
}

#[test]
fn leaving_without_a_scope_is_an_error() {
    let mut scopes = ScopedArena::new();
    assert_eq!(scopes.exit(), Err(ArenaError::UseAfterScope));
    scopes.enter().unwrap();
    scopes.exit().unwrap();
    assert_eq!(scopes.exit(), Err(ArenaError::UseAfterScope));
    assert_eq!(scopes.depth(), 0);
}

#[test]
fn scope_can_be_entered_with_a_configured_arena() {
    let config = ArenaConfig {
        initial_chunk_bytes: 1024,
        max_chunk_bytes: 2048,
        oversize_threshold_bytes: 2048,
    };
    let mut scopes = ScopedArena::new();
    let token = scopes.enter_with(Arena::with_config(config).unwrap()).unwrap();
    assert_eq!(scopes.current().unwrap().config(), config);
    assert_eq!(scopes.arena_of(token).unwrap().config(), config);
}

#[test]
fn scope_runs_its_body_with_a_fresh_arena() {
    let sum = scope(|arena: &Arena| {
        assert_eq!(arena.allocated_bytes(), 0);
        let port = AllocatorPort::Arena(arena);
        let mut v = ArenaVec::new_in(port);
        for i in 0..100u64 {
            v.push(ArenaBox::new_in(i, port).unwrap()).unwrap();
        }
        let mut sum = 0;
        for b in v.as_slice() {
            sum += **b;
        }
        sum
    });
    assert_eq!(sum, 4950);
}

#[test]
fn vector_outlives_its_scope_through_the_heap() {
    let kept = scope(|arena: &Arena| {
        let mut v = ArenaVec::new_in(AllocatorPort::Arena(arena));
        for x in [1, 2, 3] {
            v.push(x).unwrap();
        }
        v.into_heap()
    });
    assert_eq!(kept.as_slice(), &[1, 2, 3]);
}

#[test]
fn ambient_holder_follows_the_scope() {
    let mut scopes = ScopedArena::new();
    let outside = FastAlloc::in_mode(Mode::Arena, scopes.current());
    assert!(!outside.port().is_arena());
    let v: ArenaVec<u8> = ArenaVec::with_capacity_in(4, outside.port()).unwrap();
    assert_eq!(v.slot(), None);
    drop(v);
    scopes.enter().unwrap();
    assert!(!FastAlloc::in_mode(Mode::Heap, scopes.current()).port().is_arena());
    let inside = FastAlloc::in_mode(Mode::Arena, scopes.current());
    assert!(inside.port().is_arena());
    let v: ArenaVec<u8> = ArenaVec::with_capacity_in(4, inside.port()).unwrap();
    assert!(v.slot().is_some());
    assert!(scopes.current().unwrap().allocated_bytes() >= 4);
}

#[test]
fn heap_port_passes_every_request_on() {
    let port = AllocatorPort::Heap;
    let small = Layout::from_size_align(8, 8).unwrap();
    let large = Layout::from_size_align(64, 8).unwrap();
    assert_eq!(port.allocate(small), Ok(Answer::ProcessHeap));
    assert_eq!(port.allocate_zeroed(small), Ok(Answer::ProcessHeap));
    assert_eq!(port.grow(64, small, large), Ok(Answer::ProcessHeap));
    assert_eq!(port.grow_zeroed(64, small, large), Ok(Answer::ProcessHeap));
    assert_eq!(port.shrink(64, large, small), Ok(Answer::ProcessHeap));
    assert_eq!(port.deallocate(64, small), Release::Freed);
    let fast = FastAlloc::heap();
    assert_eq!(fast.allocate(small), Ok(Answer::ProcessHeap));
    assert_eq!(fast.allocate_zeroed(small), Ok(Answer::ProcessHeap));
    assert_eq!(fast.grow(64, small, large), Ok(Answer::ProcessHeap));
    assert_eq!(fast.grow_zeroed(64, small, large), Ok(Answer::ProcessHeap));
    assert_eq!(fast.shrink(64, large, small), Ok(Answer::ProcessHeap));
    assert_eq!(fast.deallocate(64, small), Release::Freed);
}

#[test]
fn arena_port_places_its_blocks() {
    let arena = Arena::default();
    let fast = FastAlloc::arena(&arena);
    let port = fast.port();
    assert!(port.is_arena());
    let small = Layout::from_size_align(8, 8).unwrap();
    let large = Layout::from_size_align(64, 8).unwrap();
    let first = match port.allocate(small) {
        Ok(Answer::Placed(grant)) => grant,
        _ => panic!("an arena places its blocks"),
    };
    assert!(first.range.answers(small));
    assert_eq!((first.copy_len, first.zero_len), (0, 0));
    let zeroed = match fast.allocate_zeroed(small) {
        Ok(Answer::Placed(grant)) => grant,
        _ => panic!("an arena places its blocks"),
    };
    assert_eq!((zeroed.copy_len, zeroed.zero_from, zeroed.zero_len), (0, 0, 8));
    let grown = match port.grow(first.range.addr, small, large) {
        Ok(Answer::Placed(grant)) => grant,
        _ => panic!("an arena places its blocks"),
    };
    assert!(grown.range.answers(large));
    assert_eq!((grown.copy_len, grown.zero_len), (8, 0));
    let cleared = match fast.grow_zeroed(first.range.addr, small, large) {
        Ok(Answer::Placed(grant)) => grant,
        _ => panic!("an arena places its blocks"),
    };
    assert_eq!((cleared.copy_len, cleared.zero_from, cleared.zero_len), (8, 8, 56));
    let shrunk = match port.shrink(grown.range.addr, large, small) {
        Ok(Answer::Placed(grant)) => grant,
        _ => panic!("an arena places its blocks"),
    };
    assert_eq!(shrunk.range.addr, grown.range.addr);
    assert_eq!(shrunk.range.len, 8);
    assert_eq!(port.deallocate(first.range.addr, small), Release::Retained);
    assert_eq!(fast.deallocate(first.range.addr, small), Release::Retained);
    assert_eq!(fast.grow(first.range.addr, small, large).map(|a| a != Answer::ProcessHeap), Ok(true));
    assert_eq!(fast.shrink(9, large, small).map(|a| a != Answer::ProcessHeap), Ok(true));
}
