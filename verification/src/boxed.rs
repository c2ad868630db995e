//! A single-owner handle to one value whose slot comes from an allocator
//! port.

use vstd::layout::{align_of, size_of};
use vstd::prelude::*;

use crate::error::ArenaError;
use crate::layout::{ByteRange, Layout};
use crate::port::{AllocatorPort, Answer};

verus! {

/// Whether `answer` can be taken up as the slot for one value of type `T` by a
/// box on `port`: a block placed by an arena is not null, aligned for `T` and
/// exactly as long as a `T`; the process heap answers only a heap port.
pub open spec fn slot_suits<T>(port: AllocatorPort<'_>, answer: Result<
    Answer,
    ArenaError,
>) -> bool {
    match answer {
        Ok(Answer::Placed(grant)) => {
            &&& port.is_arena()
            &&& grant.range.addr != 0
            &&& grant.range.addr as int % align_of::<T>() as int == 0
            &&& grant.range.len == size_of::<T>()
            &&& grant.range.end() <= usize::MAX
        },
        Ok(Answer::ProcessHeap) => !port.is_arena(),
        Err(_) => true,
    }
}

/// Single-ownership handle to one `T` whose slot is obtained from a port.
///
/// The value is owned by the box and dropped with it, once. The slot is the
/// block that the port set aside for it; a box on the heap port has none, the
/// process allocator holds its value.
#[derive(Debug)]
pub struct ArenaBox<'a, T> {
    port: AllocatorPort<'a>,
    slot: Option<ByteRange>,
    value: T,
}

impl<'a, T> ArenaBox<'a, T> {
    /// The value.
    pub closed spec fn view(&self) -> T {
        self.value
    }

    /// The block that the port set aside, if any.
    pub closed spec fn spec_slot(&self) -> Option<ByteRange> {
        self.slot
    }

    /// The port that the box is bound to.
    pub closed spec fn spec_port(&self) -> AllocatorPort<'a> {
        self.port
    }

    /// The invariant of every box: a box on an arena has a slot there, not
    /// null, aligned for `T` and exactly as long as a `T`; a box on the heap
    /// has none.
    pub open spec fn wf(&self) -> bool {
        match self.slot() {
            Some(range) => {
                &&& self.port().is_arena()
                &&& range.addr != 0
                &&& range.addr as int % align_of::<T>() as int == 0
                &&& range.len == size_of::<T>()
                &&& range.end() <= usize::MAX
            },
            None => !self.port().is_arena(),
        }
    }

    /// Makes the box once the port has answered the request for the slot: a
    /// placed block becomes the slot, the process heap leaves the box without
    /// one, and an error is handed on and `value` dropped.
    pub fn settle_new(value: T, port: AllocatorPort<'a>, answer: Result<Answer, ArenaError>) -> (r:
        Result<Self, ArenaError>)
        requires
            slot_suits::<T>(port, answer),
        ensures
            match answer {
                Ok(Answer::Placed(grant)) => r.is_ok() && r.unwrap().slot() == Some(grant.range),
                Ok(Answer::ProcessHeap) => r.is_ok() && r.unwrap().slot() is None,
                Err(e) => r matches Err(handed) && handed == e,
            },
            r matches Ok(b) ==> b.wf() && b@ == value && b.port() == port,
    {
        match answer {
            Ok(Answer::Placed(grant)) => Ok(ArenaBox { port, slot: Some(grant.range), value }),
            Ok(Answer::ProcessHeap) => Ok(ArenaBox { port, slot: None, value }),
            Err(e) => Err(e),
        }
    }

    /// Asks `port` for a slot of the size and alignment of `T` and moves
    /// `value` into a box bound to it.
    ///
    /// On the heap port this always succeeds. An arena that does not give the
    /// slot makes the call fail with `AllocatorExhausted`; `value` is then
    /// dropped.
    pub fn new_in(value: T, port: AllocatorPort<'a>) -> (r: Result<Self, ArenaError>)
        ensures
            match r {
                Ok(b) => b.wf() && b@ == value && b.port() == port,
                Err(e) => e == ArenaError::AllocatorExhausted && port.is_arena(),
            },
            !port.is_arena() ==> r.is_ok(),
    {
        let layout = Layout::of::<T>();
        let answer = port.allocate(layout);
        ArenaBox::settle_new(value, port, answer)
    }

    /// The block that the port set aside, if any.
    #[verifier::when_used_as_spec(spec_slot)]
    pub fn slot(&self) -> (r: Option<ByteRange>)
        ensures
            r == self.slot(),
    {
        self.slot
    }

    /// The port that the box is bound to.
    #[verifier::when_used_as_spec(spec_port)]
    pub fn port(&self) -> (r: AllocatorPort<'a>)
        ensures
            r == self.port(),
    {
        self.port
    }

    /// Takes the value out of the box. The slot goes back to the port, which
    /// keeps it where the port is an arena.
    pub fn into_inner(self) -> (r: T)
        ensures
            r == self@,
    {
        if let Some(range) = self.slot {
            let _ = self.port.deallocate(range.addr, Layout::of::<T>());
        }
        self.value
    }
}

impl<'a, T> core::ops::Deref for ArenaBox<'a, T> {
    type Target = T;

    /// The value, to be read. Nothing is copied.
    fn deref(&self) -> (r: &T)
        ensures
            *r == self@,
    {
        &self.value
    }
}

impl<'a, T> core::ops::DerefMut for ArenaBox<'a, T> {
    /// The value, to be written through.
    fn deref_mut(&mut self) -> (r: &mut T)
        ensures
            *r == old(self)@,
            final(self)@ == *final(r),
            final(self).slot() == old(self).slot(),
            final(self).port() == old(self).port(),
    {
        &mut self.value
    }
}

} // verus!
