//! The capability through which containers ask for memory.

use vstd::prelude::*;

use crate::allocators::arena::{Arena, Grant};
use crate::error::ArenaError;
use crate::layout::Layout;

verus! {

/// What a port answers a request for a block with.
#[derive(Clone, Copy, Debug, PartialEq, Eq, Structural)]
pub enum Answer {
    /// The block lies in the arena, with the byte work that makes it ready.
    Placed(Grant),
    /// The request goes to the process allocator unchanged: whoever holds the
    /// memory asks it in turn.
    ProcessHeap,
}

/// What becomes of a block that is given back.
#[derive(Clone, Copy, Debug, PartialEq, Eq, Structural)]
pub enum Release {
    /// The block stays in the arena until the arena is released.
    Retained,
    /// The block goes back to the process allocator.
    Freed,
}

/// Where containers get their memory from: an arena, or the process heap.
#[derive(Clone, Copy, Debug)]
pub enum AllocatorPort<'a> {
    /// Blocks are carved out of this arena and live as long as it does.
    Arena(&'a Arena),
    /// Blocks come from the process allocator.
    Heap,
}

impl<'a> AllocatorPort<'a> {
    /// What holds of every answer to a request for a block of `layout`: the
    /// heap passes each request on; an arena places a block that fits the
    /// layout, for a size that its configuration admits, or reports
    /// `AllocatorExhausted`, which it does at least for the sizes that are not
    /// admitted.
    pub open spec fn served(&self, layout: Layout, r: Result<Answer, ArenaError>) -> bool {
        match *self {
            AllocatorPort::Heap => r == Ok::<Answer, ArenaError>(Answer::ProcessHeap),
            AllocatorPort::Arena(arena) => {
                &&& match r {
                    Ok(Answer::Placed(grant)) => grant.range.fits(layout)
                        && arena.config().admits(layout.size()),
                    Ok(Answer::ProcessHeap) => false,
                    Err(e) => e == ArenaError::AllocatorExhausted,
                }
                &&& !arena.config().admits(layout.size()) ==> r.is_err()
            },
        }
    }

    /// Whether blocks come from an arena.
    pub open spec fn spec_is_arena(&self) -> bool {
        *self is Arena
    }

    /// Whether blocks come from an arena.
    #[verifier::when_used_as_spec(spec_is_arena)]
    pub fn is_arena(&self) -> (r: bool)
        ensures
            r == self.is_arena(),
    {
        match self {
            AllocatorPort::Arena(_) => true,
            AllocatorPort::Heap => false,
        }
    }

    /// Asks for a block for `layout`.
    pub fn allocate(&self, layout: Layout) -> (r: Result<Answer, ArenaError>)
        ensures
            self.served(layout, r),
            r matches Ok(Answer::Placed(grant)) ==> grant == Grant::fresh(grant.range.addr, layout),
    {
        match self {
            AllocatorPort::Heap => Ok(Answer::ProcessHeap),
            AllocatorPort::Arena(arena) => match arena.allocate(layout) {
                Ok(range) => Ok(
                    Answer::Placed(Grant { range, copy_len: 0, zero_from: 0, zero_len: 0 }),
                ),
                Err(e) => Err(e),
            },
        }
    }

    /// Asks for a block for `layout` whose bytes are all zero.
    pub fn allocate_zeroed(&self, layout: Layout) -> (r: Result<Answer, ArenaError>)
        ensures
            self.served(layout, r),
            r matches Ok(Answer::Placed(grant)) ==> grant == Grant::zeroed(
                grant.range.addr,
                layout,
            ),
    {
        match self {
            AllocatorPort::Heap => Ok(Answer::ProcessHeap),
            AllocatorPort::Arena(arena) => match arena.allocate_zeroed(layout) {
                Ok(grant) => Ok(Answer::Placed(grant)),
                Err(e) => Err(e),
            },
        }
    }

    /// Gives the block at `ptr` back.
    pub fn deallocate(&self, ptr: usize, layout: Layout) -> (r: Release)
        ensures
            r == (if self.is_arena() {
                Release::Retained
            } else {
                Release::Freed
            }),
    {
        match self {
            AllocatorPort::Heap => Release::Freed,
            AllocatorPort::Arena(arena) => {
                arena.deallocate(ptr, layout);
                Release::Retained
            },
        }
    }

    /// Asks for the block at `ptr` to be replaced by one for `new_layout`
    /// that holds what the old one held.
    pub fn grow(&self, ptr: usize, old_layout: Layout, new_layout: Layout) -> (r: Result<
        Answer,
        ArenaError,
    >)
        ensures
            self.served(new_layout, r),
            r matches Ok(Answer::Placed(grant)) ==> grant == Grant::grown(
                grant.range.addr,
                old_layout,
                new_layout,
            ),
    {
        match self {
            AllocatorPort::Heap => Ok(Answer::ProcessHeap),
            AllocatorPort::Arena(arena) => match arena.grow(ptr, old_layout, new_layout) {
                Ok(grant) => Ok(Answer::Placed(grant)),
                Err(e) => Err(e),
            },
        }
    }

    /// As `grow`, with the bytes past the old size zero.
    pub fn grow_zeroed(&self, ptr: usize, old_layout: Layout, new_layout: Layout) -> (r: Result<
        Answer,
        ArenaError,
    >)
        ensures
            self.served(new_layout, r),
            r matches Ok(Answer::Placed(grant)) ==> grant == Grant::grown_zeroed(
                grant.range.addr,
                old_layout,
                new_layout,
            ),
    {
        match self {
            AllocatorPort::Heap => Ok(Answer::ProcessHeap),
            AllocatorPort::Arena(arena) => match arena.grow_zeroed(ptr, old_layout, new_layout) {
                Ok(grant) => Ok(Answer::Placed(grant)),
                Err(e) => Err(e),
            },
        }
    }

    /// Asks for the block at `ptr` to be cut down to the size of
    /// `new_layout`. An arena keeps the block where it is.
    pub fn shrink(&self, ptr: usize, old_layout: Layout, new_layout: Layout) -> (r: Result<
        Answer,
        ArenaError,
    >)
        ensures
            r == (if self.is_arena() {
                Ok::<Answer, ArenaError>(Answer::Placed(Grant::shrunk(ptr, new_layout)))
            } else {
                Ok::<Answer, ArenaError>(Answer::ProcessHeap)
            }),
    {
        match self {
            AllocatorPort::Heap => Ok(Answer::ProcessHeap),
            AllocatorPort::Arena(arena) => match arena.shrink(ptr, old_layout, new_layout) {
                Ok(grant) => Ok(Answer::Placed(grant)),
                Err(e) => Err(e),
            },
        }
    }
}

/// Which backing containers get where none is named for them.
#[derive(Clone, Copy, Debug, PartialEq, Eq, Structural)]
pub enum Mode {
    /// Always the process heap.
    Heap,
    /// The arena of the innermost scope, and the process heap outside of any
    /// scope.
    Arena,
}

/// A holder of one port, chosen when it is made and fixed from then on.
#[derive(Clone, Copy, Debug)]
pub struct FastAlloc<'a> {
    port: AllocatorPort<'a>,
}

impl<'a> FastAlloc<'a> {
    /// The port that was chosen.
    pub closed spec fn spec_port(&self) -> AllocatorPort<'a> {
        self.port
    }

    /// A holder that passes every request on to the process allocator.
    pub fn heap() -> (r: FastAlloc<'static>)
        ensures
            r.port() == AllocatorPort::Heap,
    {
        FastAlloc { port: AllocatorPort::Heap }
    }

    /// A holder that draws on `arena`.
    pub fn arena(arena: &'a Arena) -> (r: FastAlloc<'a>)
        ensures
            r.port() == AllocatorPort::Arena(arena),
    {
        FastAlloc { port: AllocatorPort::Arena(arena) }
    }

    /// The holder for containers that name no allocator, under `mode`, where
    /// `current` is the arena of the innermost scope: in arena mode it draws
    /// on that arena where there is one; in every other case it passes
    /// requests on to the process allocator.
    pub fn in_mode(mode: Mode, current: Option<&'a Arena>) -> (r: FastAlloc<'a>)
        ensures
            r.port() == (match (mode, current) {
                (Mode::Arena, Some(arena)) => AllocatorPort::Arena(arena),
                _ => AllocatorPort::Heap,
            }),
    {
        match (mode, current) {
            (Mode::Arena, Some(arena)) => FastAlloc { port: AllocatorPort::Arena(arena) },
            _ => FastAlloc { port: AllocatorPort::Heap },
        }
    }

    /// The port that was chosen.
    #[verifier::when_used_as_spec(spec_port)]
    pub fn port(&self) -> (r: AllocatorPort<'a>)
        ensures
            r == self.port(),
    {
        self.port
    }

    /// Asks the chosen port for a block for `layout`.
    pub fn allocate(&self, layout: Layout) -> (r: Result<Answer, ArenaError>)
        ensures
            self.port().served(layout, r),
            r matches Ok(Answer::Placed(grant)) ==> grant == Grant::fresh(grant.range.addr, layout),
    {
        self.port.allocate(layout)
    }

    /// Asks the chosen port for a block for `layout` whose bytes are all
    /// zero.
    pub fn allocate_zeroed(&self, layout: Layout) -> (r: Result<Answer, ArenaError>)
        ensures
            self.port().served(layout, r),
            r matches Ok(Answer::Placed(grant)) ==> grant == Grant::zeroed(
                grant.range.addr,
                layout,
            ),
    {
        self.port.allocate_zeroed(layout)
    }

    /// Gives the block at `ptr` back to the chosen port.
    pub fn deallocate(&self, ptr: usize, layout: Layout) -> (r: Release)
        ensures
            r == (if self.port().is_arena() {
                Release::Retained
            } else {
                Release::Freed
            }),
    {
        self.port.deallocate(ptr, layout)
    }

    /// Asks the chosen port to replace the block at `ptr` by one for
    /// `new_layout` that holds what the old one held.
    pub fn grow(&self, ptr: usize, old_layout: Layout, new_layout: Layout) -> (r: Result<
        Answer,
        ArenaError,
    >)
        ensures
            self.port().served(new_layout, r),
            r matches Ok(Answer::Placed(grant)) ==> grant == Grant::grown(
                grant.range.addr,
                old_layout,
                new_layout,
            ),
    {
        self.port.grow(ptr, old_layout, new_layout)
    }

    /// As `grow`, with the bytes past the old size zero.
    pub fn grow_zeroed(&self, ptr: usize, old_layout: Layout, new_layout: Layout) -> (r: Result<
        Answer,
        ArenaError,
    >)
        ensures
            self.port().served(new_layout, r),
            r matches Ok(Answer::Placed(grant)) ==> grant == Grant::grown_zeroed(
                grant.range.addr,
                old_layout,
                new_layout,
            ),
    {
        self.port.grow_zeroed(ptr, old_layout, new_layout)
    }

    /// Asks the chosen port to cut the block at `ptr` down to the size of
    /// `new_layout`.
    pub fn shrink(&self, ptr: usize, old_layout: Layout, new_layout: Layout) -> (r: Result<
        Answer,
        ArenaError,
    >)
        ensures
            r == (if self.port().is_arena() {
                Ok::<Answer, ArenaError>(Answer::Placed(Grant::shrunk(ptr, new_layout)))
            } else {
                Ok::<Answer, ArenaError>(Answer::ProcessHeap)
            }),
    {
        self.port.shrink(ptr, old_layout, new_layout)
    }
}

} // verus!
