//! A growable sequence whose slot comes from an allocator port.

use vstd::layout::{align_of, size_of};
use vstd::prelude::*;

use crate::error::ArenaError;
use crate::layout::{max_size_for_align, ByteRange, Layout};
use crate::port::{AllocatorPort, Answer};

verus! {

/// The capacity that a full vector of capacity `cap` grows to: twice as much,
/// and at least four.
pub open spec fn grown_capacity(cap: int) -> int {
    if 2 * cap < 4 {
        4
    } else {
        2 * cap
    }
}

/// Whether a slot for `cap` values of type `T` can be asked for at all: the
/// count fits in `usize` and the bytes make a valid layout.
pub open spec fn capacity_fits<T>(cap: int) -> bool {
    &&& 0 <= cap <= usize::MAX
    &&& cap * size_of::<T>() <= max_size_for_align(align_of::<T>() as usize)
}

/// A count of values fits exactly when the layout of that many values of the
/// layout of `T` is valid.
proof fn lemma_fits_layout<T>(elem: Layout, n: usize)
    requires
        elem.size() as nat == size_of::<T>(),
        elem.align() as nat == align_of::<T>(),
    ensures
        capacity_fits::<T>(n as int) <==> elem.size() * n <= max_size_for_align(elem.align()),
        n * size_of::<T>() == elem.size() * n,
{
    assert(n * size_of::<T>() == elem.size() * n) by (nonlinear_arith)
        requires
            elem.size() as nat == size_of::<T>(),
    ;
}

/// What a vector holds and how many values its slot has room for.
pub struct VecState<T> {
    pub items: Seq<T>,
    pub capacity: int,
}

impl<T> VecState<T> {
    /// The capacity after room for one more value has been made.
    pub open spec fn capacity_for_one_more(self) -> int {
        if self.items.len() < self.capacity {
            self.capacity
        } else {
            grown_capacity(self.capacity)
        }
    }

    /// The capacity after room for `additional` more values has been made.
    pub open spec fn capacity_for_more(self, additional: int) -> int {
        if self.items.len() + additional <= self.capacity {
            self.capacity
        } else if self.items.len() + additional <= grown_capacity(self.capacity) {
            grown_capacity(self.capacity)
        } else {
            self.items.len() + additional
        }
    }

    /// After `push(x)`.
    pub open spec fn pushed(self, x: T) -> VecState<T> {
        VecState { items: self.items.push(x), capacity: self.capacity_for_one_more() }
    }

    /// After the values of `xs` have been pushed one by one, the first one
    /// first.
    pub open spec fn pushed_all(self, xs: Seq<T>) -> VecState<T>
        decreases xs.len(),
    {
        if xs.len() == 0 {
            self
        } else {
            self.pushed_all(xs.drop_last()).pushed(xs.last())
        }
    }

    /// After the vector has been bound to another port.
    pub open spec fn rehomed(self) -> VecState<T> {
        VecState { items: self.items, capacity: self.capacity }
    }

    /// After `pop()`.
    pub open spec fn popped(self) -> VecState<T> {
        if self.items.len() > 0 {
            VecState { items: self.items.drop_last(), capacity: self.capacity }
        } else {
            self
        }
    }

    /// After `insert(i, x)` with `i` at most the length.
    pub open spec fn inserted(self, i: int, x: T) -> VecState<T> {
        VecState { items: self.items.insert(i, x), capacity: self.capacity_for_one_more() }
    }

    /// After `remove(i)` with `i` below the length.
    pub open spec fn removed(self, i: int) -> VecState<T> {
        VecState { items: self.items.remove(i), capacity: self.capacity }
    }

    /// After `reserve(additional)`.
    pub open spec fn reserved(self, additional: int) -> VecState<T> {
        VecState { items: self.items, capacity: self.capacity_for_more(additional) }
    }

    /// After `truncate(k)`.
    pub open spec fn truncated(self, k: int) -> VecState<T> {
        if k < self.items.len() {
            VecState { items: self.items.subrange(0, k), capacity: self.capacity }
        } else {
            self
        }
    }

    /// After `clear()`.
    pub open spec fn cleared(self) -> VecState<T> {
        VecState { items: Seq::empty(), capacity: self.capacity }
    }

    /// After `extend(more)`.
    pub open spec fn extended(self, more: Seq<T>) -> VecState<T> {
        VecState { items: self.items + more, capacity: self.capacity_for_more(more.len() as int) }
    }

    /// After `drain(start, end)` with `start <= end` at most the length.
    pub open spec fn drained(self, start: int, end: int) -> VecState<T> {
        VecState {
            items: self.items.subrange(0, start) + self.items.subrange(
                end,
                self.items.len() as int,
            ),
            capacity: self.capacity,
        }
    }
}

/// Pushing a sequence of values appends them in their order: the length grows
/// by their number, each value stands where it was pushed, and reading from
/// front to back yields them in the order of the pushes. The capacity never
/// falls below the length.
pub proof fn law_pushes_append_in_order<T>(start: VecState<T>, xs: Seq<T>)
    requires
        start.items.len() <= start.capacity,
    ensures
        start.pushed_all(xs).items == start.items + xs,
        start.pushed_all(xs).items.len() == start.items.len() + xs.len(),
        forall|i: int|
            0 <= i < xs.len() ==> start.pushed_all(xs).items[start.items.len() + i] == xs[i],
        start.pushed_all(xs).items.len() <= start.pushed_all(xs).capacity,
    decreases xs.len(),
{
    if xs.len() == 0 {
        assert(start.items + xs =~= start.items);
    } else {
        law_pushes_append_in_order(start, xs.drop_last());
        assert(start.items + xs =~= (start.items + xs.drop_last()).push(xs.last()));
    }
}

/// Pushing into an empty vector: afterwards the vector holds exactly the
/// values pushed, in the order of the pushes.
pub proof fn law_pushes_into_empty<T>(capacity: int, xs: Seq<T>)
    requires
        0 <= capacity,
    ensures
        (VecState::<T> { items: Seq::empty(), capacity }).pushed_all(xs).items == xs,
{
    let start = VecState::<T> { items: Seq::empty(), capacity };
    law_pushes_append_in_order(start, xs);
    assert(start.items + xs =~= xs);
}

/// `insert(i, x)` followed by `remove(i)` gives back `x` and restores the
/// values; it restores the capacity too where the insertion did not have to
/// grow the vector.
pub proof fn law_insert_then_remove<T>(v: VecState<T>, i: int, x: T)
    requires
        0 <= i <= v.items.len(),
    ensures
        v.inserted(i, x).items[i] == x,
        v.inserted(i, x).removed(i).items == v.items,
        v.items.len() < v.capacity ==> v.inserted(i, x).removed(i) == v,
{
    assert(v.items.insert(i, x).remove(i) =~= v.items);
}

/// `push(x)` followed by `pop()` gives back `x` and restores the values; it
/// restores the capacity too where the push did not have to grow the vector.
pub proof fn law_push_then_pop<T>(v: VecState<T>, x: T)
    ensures
        v.pushed(x).items.last() == x,
        v.pushed(x).popped().items == v.items,
        v.items.len() < v.capacity ==> v.pushed(x).popped() == v,
{
    assert(v.items.push(x).drop_last() =~= v.items);
}

/// Binding a vector to the heap and then to an arena again keeps its length,
/// its values and its capacity.
pub proof fn law_rehoming_round_trip<T>(v: VecState<T>)
    ensures
        v.rehomed().rehomed() == v,
        v.rehomed().rehomed().items.len() == v.items.len(),
        forall|i: int| 0 <= i < v.items.len() ==> v.rehomed().rehomed().items[i] == v.items[i],
{
}

/// Clearing twice is clearing once.
pub proof fn law_clear_is_idempotent<T>(v: VecState<T>)
    ensures
        v.cleared().cleared() == v.cleared(),
{
}

/// Position 0 and the position just past the last value are the two ends of
/// the positions at which a value can be inserted: inserting there puts the
/// value first and last.
pub proof fn law_insert_at_the_ends<T>(v: VecState<T>, x: T)
    ensures
        v.inserted(0, x).items == seq![x] + v.items,
        v.inserted(v.items.len() as int, x).items == v.items.push(x),
        v.inserted(v.items.len() as int, x) == v.pushed(x),
{
    assert(v.items.insert(0, x) =~= seq![x] + v.items);
    assert(v.items.insert(v.items.len() as int, x) =~= v.items.push(x));
}

/// Whether `answer` can be taken up as the slot for `cap` values of type `T`
/// by a vector on `port`: a block placed by an arena is not null, aligned for
/// `T` and exactly as long as `cap` values; the process heap answers only a
/// heap port.
pub open spec fn answer_suits<T>(port: AllocatorPort<'_>, cap: int, answer: Result<
    Answer,
    ArenaError,
>) -> bool {
    match answer {
        Ok(Answer::Placed(grant)) => {
            &&& port.is_arena()
            &&& grant.range.addr != 0
            &&& grant.range.addr as int % align_of::<T>() as int == 0
            &&& grant.range.len == cap * size_of::<T>()
            &&& grant.range.end() <= usize::MAX
        },
        Ok(Answer::ProcessHeap) => !port.is_arena(),
        Err(_) => true,
    }
}

/// Growable contiguous sequence of `T` whose slot is obtained from a port.
///
/// The values are owned by the vector; the slot is the block that the port
/// set aside for them. A vector on the heap port has no slot of its own: the
/// process allocator holds its values.
#[derive(Debug)]
pub struct ArenaVec<'a, T> {
    port: AllocatorPort<'a>,
    items: Vec<T>,
    cap: usize,
    slot: Option<ByteRange>,
}

impl<'a, T> ArenaVec<'a, T> {
    /// The values, in order.
    pub closed spec fn view(&self) -> Seq<T> {
        self.items@
    }

    /// How many values the slot has room for.
    pub closed spec fn spec_capacity(&self) -> usize {
        self.cap
    }

    /// The block that the port set aside, if any.
    pub closed spec fn spec_slot(&self) -> Option<ByteRange> {
        self.slot
    }

    /// The port that the vector is bound to.
    pub closed spec fn spec_port(&self) -> AllocatorPort<'a> {
        self.port
    }

    /// The values and the capacity.
    pub open spec fn state(&self) -> VecState<T> {
        VecState { items: self@, capacity: self.capacity() as int }
    }

    /// The invariant of every vector: the length is at most the capacity; a
    /// vector of values without size has the largest capacity there is and no
    /// slot; a slot lies in an arena, is aligned for `T` and is exactly as
    /// long as the capacity asks for; a vector on an arena with room for
    /// values that have a size has a slot.
    pub closed spec fn wf(&self) -> bool {
        &&& self.items@.len() <= self.cap
        &&& size_of::<T>() == 0 ==> self.cap == usize::MAX
        &&& capacity_fits::<T>(self.cap as int)
        &&& match self.slot {
            Some(range) => {
                &&& self.port.is_arena()
                &&& size_of::<T>() > 0
                &&& self.cap > 0
                &&& range.addr != 0
                &&& range.addr as int % align_of::<T>() as int == 0
                &&& range.len == self.cap * size_of::<T>()
                &&& range.end() <= usize::MAX
            },
            None => self.port.is_arena() ==> self.cap == 0 || size_of::<T>() == 0,
        }
    }

    /// What holds of every valid vector: the length never exceeds the
    /// capacity, the capacity can be asked for, and a slot lies in an arena,
    /// is aligned for `T` and is as long as the capacity asks for.
    pub proof fn law_invariant(&self)
        requires
            self.wf(),
        ensures
            self@.len() <= self.capacity(),
            size_of::<T>() == 0 ==> self.capacity() == usize::MAX,
            capacity_fits::<T>(self.capacity() as int),
            self.slot() is Some ==> self.port().is_arena(),
            self.slot() matches Some(range) ==> range.addr != 0 && range.addr as int % align_of::<
                T,
            >() as int == 0 && range.len == self.capacity() * size_of::<T>(),
    {
    }

    /// An empty vector on `port`. Nothing is allocated.
    pub fn new_in(port: AllocatorPort<'a>) -> (v: Self)
        ensures
            v.wf(),
            v@ == Seq::<T>::empty(),
            v.capacity() == (if size_of::<T>() == 0 {
                usize::MAX
            } else {
                0
            }),
            v.slot() is None,
            v.port() == port,
    {
        let elem = Layout::of::<T>();
        let cap: usize = if elem.size() == 0 {
            usize::MAX
        } else {
            0
        };
        assert(usize::MAX * 0 == 0);
        proof {
            crate::layout::lemma_max_size_bounds(elem.align());
        }
        ArenaVec { port, items: Vec::new(), cap, slot: None }
    }

    /// The number of values.
    pub fn len(&self) -> (n: usize)
        ensures
            n == self@.len(),
    {
        self.items.len()
    }

    /// Whether the vector holds no value.
    pub fn is_empty(&self) -> (r: bool)
        ensures
            r == (self@.len() == 0),
    {
        self.items.len() == 0
    }

    /// How many values the slot has room for. For values without size this is
    /// `usize::MAX`.
    #[verifier::when_used_as_spec(spec_capacity)]
    pub fn capacity(&self) -> (n: usize)
        ensures
            n == self.capacity(),
    {
        self.cap
    }

    /// The block that the port set aside, if any.
    #[verifier::when_used_as_spec(spec_slot)]
    pub fn slot(&self) -> (r: Option<ByteRange>)
        ensures
            r == self.slot(),
    {
        self.slot
    }

    /// The port that the vector is bound to.
    #[verifier::when_used_as_spec(spec_port)]
    pub fn port(&self) -> (r: AllocatorPort<'a>)
        ensures
            r == self.port(),
    {
        self.port
    }

    /// Takes up the capacity `new_cap` once the port has answered the request
    /// for the new slot.
    ///
    /// A placed block becomes the slot, the process heap leaves the vector
    /// without one, and an error leaves the vector as it was and is handed
    /// on. The values stay as they are in every case.
    pub fn settle_growth(&mut self, new_cap: usize, answer: Result<Answer, ArenaError>) -> (r:
        Result<(), ArenaError>)
        requires
            old(self).wf(),
            old(self).capacity() < new_cap,
            capacity_fits::<T>(new_cap as int),
            answer_suits::<T>(old(self).port(), new_cap as int, answer),
        ensures
            final(self).wf(),
            final(self)@ == old(self)@,
            final(self).port() == old(self).port(),
            match answer {
                Ok(Answer::Placed(grant)) => r.is_ok() && final(self).capacity() == new_cap
                    && final(self).slot() == Some(grant.range),
                Ok(Answer::ProcessHeap) => r.is_ok() && final(self).capacity() == new_cap
                    && final(self).slot() is None,
                Err(e) => {
                    &&& r == Err::<(), ArenaError>(e)
                    &&& final(self).capacity() == old(self).capacity()
                    &&& final(self).slot() == old(self).slot()
                },
            },
    {
        match answer {
            Ok(Answer::Placed(grant)) => {
                self.cap = new_cap;
                self.slot = Some(grant.range);
                Ok(())
            },
            Ok(Answer::ProcessHeap) => {
                self.cap = new_cap;
                Ok(())
            },
            Err(e) => Err(e),
        }
    }

    /// Asks the port for a slot with room for `new_cap` values and takes it
    /// up.
    fn grow_to(&mut self, new_cap: usize) -> (r: Result<(), ArenaError>)
        requires
            old(self).wf(),
            old(self).capacity() < new_cap,
        ensures
            final(self).wf(),
            final(self)@ == old(self)@,
            final(self).port() == old(self).port(),
            match r {
                Ok(()) => final(self).capacity() == new_cap,
                Err(e) => {
                    &&& final(self).capacity() == old(self).capacity()
                    &&& final(self).slot() == old(self).slot()
                    &&& e == (if capacity_fits::<T>(new_cap as int) {
                        ArenaError::AllocatorExhausted
                    } else {
                        ArenaError::InvalidLayout
                    })
                },
            },
            !capacity_fits::<T>(new_cap as int) ==> r.is_err(),
    {
        let elem = Layout::of::<T>();
        proof {
            lemma_fits_layout::<T>(elem, new_cap);
            lemma_fits_layout::<T>(elem, self.cap);
        }
        let new_layout = match elem.array(new_cap) {
            Ok(layout) => layout,
            Err(_) => {
                return Err(ArenaError::InvalidLayout);
            },
        };
        let len: usize = self.items.len();
        if self.items.try_reserve(new_cap - len).is_err() {
            return Err(ArenaError::AllocatorExhausted);
        }
        let answer = match self.slot {
            Some(old_slot) => {
                match elem.array(self.cap) {
                    Ok(old_layout) => self.port.grow(old_slot.addr, old_layout, new_layout),
                    Err(e) => Err(e),
                }
            },
            None => self.port.allocate(new_layout),
        };
        self.settle_growth(new_cap, answer)
    }

    /// Makes room for one more value where the vector is full.
    fn make_room(&mut self) -> (r: Result<(), ArenaError>)
        requires
            old(self).wf(),
        ensures
            final(self).wf(),
            final(self)@ == old(self)@,
            final(self).port() == old(self).port(),
            match r {
                Ok(()) => final(self).capacity() == old(self).state().capacity_for_one_more()
                    && final(self)@.len() < final(self).capacity(),
                Err(e) => {
                    &&& final(self).capacity() == old(self).capacity()
                    &&& final(self).slot() == old(self).slot()
                    &&& old(self)@.len() == old(self).capacity()
                    &&& e == (if capacity_fits::<T>(grown_capacity(old(self).capacity() as int)) {
                        ArenaError::AllocatorExhausted
                    } else {
                        ArenaError::InvalidLayout
                    })
                },
            },
            old(self)@.len() < old(self).capacity() ==> r.is_ok(),
            old(self)@.len() == old(self).capacity() && !capacity_fits::<T>(
                grown_capacity(old(self).capacity() as int),
            ) ==> r.is_err(),
    {
        if self.items.len() < self.cap {
            return Ok(());
        }
        if self.cap > usize::MAX / 2 {
            return Err(ArenaError::InvalidLayout);
        }
        let doubled: usize = self.cap * 2;
        let new_cap: usize = if doubled < 4 {
            4
        } else {
            doubled
        };
        self.grow_to(new_cap)
    }

    /// Appends `x`.
    ///
    /// A vector that is full first grows to `grown_capacity` of its capacity.
    /// Where that capacity cannot be asked for the call fails with
    /// `InvalidLayout`, and where the allocators do not back it with
    /// `AllocatorExhausted`; the vector is then as it was.
    pub fn push(&mut self, x: T) -> (r: Result<(), ArenaError>)
        requires
            old(self).wf(),
        ensures
            final(self).wf(),
            final(self).port() == old(self).port(),
            match r {
                Ok(()) => final(self).state() == old(self).state().pushed(x),
                Err(e) => {
                    &&& final(self).state() == old(self).state()
                    &&& final(self).slot() == old(self).slot()
                    &&& old(self)@.len() == old(self).capacity()
                    &&& e == (if capacity_fits::<T>(grown_capacity(old(self).capacity() as int)) {
                        ArenaError::AllocatorExhausted
                    } else {
                        ArenaError::InvalidLayout
                    })
                },
            },
            old(self)@.len() < old(self).capacity() ==> r.is_ok(),
            old(self)@.len() == old(self).capacity() && !capacity_fits::<T>(
                grown_capacity(old(self).capacity() as int),
            ) ==> r.is_err(),
    {
        match self.make_room() {
            Ok(()) => {
                self.items.push(x);
                Ok(())
            },
            Err(e) => Err(e),
        }
    }

    /// Takes the last value off, if there is one.
    pub fn pop(&mut self) -> (r: Option<T>)
        requires
            old(self).wf(),
        ensures
            final(self).wf(),
            final(self).port() == old(self).port(),
            final(self).slot() == old(self).slot(),
            final(self).state() == old(self).state().popped(),
            r == (if old(self)@.len() > 0 {
                Some(old(self)@.last())
            } else {
                None
            }),
    {
        if self.items.len() == 0 {
            return None;
        }
        self.items.pop()
    }

    /// Puts `x` at position `i` and moves what stood there and after it one
    /// place to the right.
    ///
    /// Fails with `IndexOutOfRange` exactly when `i` is larger than the
    /// length. A full vector grows as for `push`, and fails as `push` does.
    /// After a failure the vector is as it was.
    pub fn insert(&mut self, i: usize, x: T) -> (r: Result<(), ArenaError>)
        requires
            old(self).wf(),
        ensures
            final(self).wf(),
            final(self).port() == old(self).port(),
            match r {
                Ok(()) => {
                    &&& i <= old(self)@.len()
                    &&& final(self).state() == old(self).state().inserted(i as int, x)
                },
                Err(e) => {
                    &&& final(self).state() == old(self).state()
                    &&& final(self).slot() == old(self).slot()
                    &&& e == (if i > old(self)@.len() {
                        ArenaError::IndexOutOfRange
                    } else if capacity_fits::<T>(grown_capacity(old(self).capacity() as int)) {
                        ArenaError::AllocatorExhausted
                    } else {
                        ArenaError::InvalidLayout
                    })
                    &&& i > old(self)@.len() || old(self)@.len() == old(self).capacity()
                },
            },
            i > old(self)@.len() ==> r.is_err(),
            i <= old(self)@.len() < old(self).capacity() ==> r.is_ok(),
            old(self)@.len() == old(self).capacity() && !capacity_fits::<T>(
                grown_capacity(old(self).capacity() as int),
            ) ==> r.is_err(),
    {
        if i > self.items.len() {
            return Err(ArenaError::IndexOutOfRange);
        }
        match self.make_room() {
            Ok(()) => {
                self.items.insert(i, x);
                Ok(())
            },
            Err(e) => Err(e),
        }
    }

    /// Takes the value at position `i` out and moves what stood after it one
    /// place to the left.
    ///
    /// Fails with `IndexOutOfRange` exactly when `i` is not below the length;
    /// the vector is then as it was.
    pub fn remove(&mut self, i: usize) -> (r: Result<T, ArenaError>)
        requires
            old(self).wf(),
        ensures
            final(self).wf(),
            final(self).port() == old(self).port(),
            final(self).slot() == old(self).slot(),
            match r {
                Ok(x) => i < old(self)@.len() && x == old(self)@[i as int] && final(self).state()
                    == old(self).state().removed(i as int),
                Err(e) => {
                    &&& i >= old(self)@.len()
                    &&& e == ArenaError::IndexOutOfRange
                    &&& final(self).state() == old(self).state()
                },
            },
    {
        if i >= self.items.len() {
            return Err(ArenaError::IndexOutOfRange);
        }
        Ok(self.items.remove(i))
    }
    /// An empty vector on `port` with room for exactly `n` values (for values
    /// without size: for as many as there can be).
    ///
    /// Fails with `InvalidLayout` exactly when room for `n` values cannot be
    /// asked for, and with `AllocatorExhausted` when the allocators do not
    /// back it. Nothing is asked of them for `n == 0`.
    pub fn with_capacity_in(n: usize, port: AllocatorPort<'a>) -> (r: Result<Self, ArenaError>)
        ensures
            match r {
                Ok(v) => {
                    &&& v.wf()
                    &&& v@ == Seq::<T>::empty()
                    &&& v.port() == port
                    &&& v.capacity() >= n
                    &&& v.capacity() == (if size_of::<T>() == 0 {
                        usize::MAX
                    } else {
                        n
                    })
                },
                Err(e) => n > 0 && size_of::<T>() > 0 && e == (if capacity_fits::<T>(n as int) {
                    ArenaError::AllocatorExhausted
                } else {
                    ArenaError::InvalidLayout
                }),
            },
            !capacity_fits::<T>(n as int) ==> r.is_err(),
    {
        let mut v: ArenaVec<'a, T> = ArenaVec::new_in(port);
        if n > v.cap {
            match v.grow_to(n) {
                Ok(()) => Ok(v),
                Err(e) => Err(e),
            }
        } else {
            let elem = Layout::of::<T>();
            let align: usize = elem.align();
            proof {
                assert(n * 0 == 0);
                crate::layout::lemma_max_size_bounds(align);
            }
            Ok(v)
        }
    }

    /// Makes room for `additional` more values.
    ///
    /// A vector that has the room stays as it is. Otherwise the capacity
    /// becomes `grown_capacity` of the old one, or the length plus
    /// `additional` where that is more. Where the new capacity cannot be asked
    /// for the call fails with `InvalidLayout`, and where the allocators do
    /// not back it with `AllocatorExhausted`; the vector is then as it was.
    pub fn reserve(&mut self, additional: usize) -> (r: Result<(), ArenaError>)
        requires
            old(self).wf(),
        ensures
            final(self).wf(),
            final(self).port() == old(self).port(),
            match r {
                Ok(()) => final(self).state() == old(self).state().reserved(additional as int)
                    && final(self).capacity() >= final(self)@.len() + additional,
                Err(e) => {
                    &&& final(self).state() == old(self).state()
                    &&& final(self).slot() == old(self).slot()
                    &&& old(self)@.len() + additional > old(self).capacity()
                    &&& e == (if capacity_fits::<T>(
                        old(self).state().capacity_for_more(additional as int),
                    ) {
                        ArenaError::AllocatorExhausted
                    } else {
                        ArenaError::InvalidLayout
                    })
                },
            },
            old(self)@.len() + additional <= old(self).capacity() ==> r.is_ok(),
            !capacity_fits::<T>(old(self).state().capacity_for_more(additional as int))
                ==> r.is_err(),
    {
        let len: usize = self.items.len();
        if additional <= self.cap - len {
            return Ok(());
        }
        let needed: usize = match len.checked_add(additional) {
            Some(needed) => needed,
            None => {
                return Err(ArenaError::InvalidLayout);
            },
        };
        if self.cap > usize::MAX / 2 {
            return Err(ArenaError::InvalidLayout);
        }
        let doubled: usize = if self.cap * 2 < 4 {
            4
        } else {
            self.cap * 2
        };
        let new_cap: usize = if needed <= doubled {
            doubled
        } else {
            needed
        };
        self.grow_to(new_cap)
    }

    /// Drops the values from position `k` on, the last one first. A `k` that
    /// is not below the length changes nothing.
    pub fn truncate(&mut self, k: usize)
        requires
            old(self).wf(),
        ensures
            final(self).wf(),
            final(self).port() == old(self).port(),
            final(self).slot() == old(self).slot(),
            final(self).state() == old(self).state().truncated(k as int),
    {
        while self.items.len() > k
            invariant
                self.wf(),
                self.port() == old(self).port(),
                self.slot() == old(self).slot(),
                self.capacity() == old(self).capacity(),
                k <= self@.len() <= old(self)@.len() || self@ == old(self)@,
                self@ == old(self)@.subrange(0, self@.len() as int),
            decreases self.items.len(),
        {
            let last = self.items.pop();
        }
    }

    /// Drops all values, the first one first. The capacity stays.
    pub fn clear(&mut self)
        requires
            old(self).wf(),
        ensures
            final(self).wf(),
            final(self).port() == old(self).port(),
            final(self).slot() == old(self).slot(),
            final(self).state() == old(self).state().cleared(),
    {
        self.items.clear();
    }

    /// Appends the values of `more`, in their order.
    ///
    /// Room is made as by `reserve(more.len())`, and the call fails as
    /// `reserve` does; the vector is then as it was.
    pub fn extend(&mut self, more: Vec<T>) -> (r: Result<(), ArenaError>)
        requires
            old(self).wf(),
        ensures
            final(self).wf(),
            final(self).port() == old(self).port(),
            match r {
                Ok(()) => final(self).state() == old(self).state().extended(more@),
                Err(e) => {
                    &&& final(self).state() == old(self).state()
                    &&& final(self).slot() == old(self).slot()
                    &&& old(self)@.len() + more@.len() > old(self).capacity()
                    &&& e == (if capacity_fits::<T>(
                        old(self).state().capacity_for_more(more@.len() as int),
                    ) {
                        ArenaError::AllocatorExhausted
                    } else {
                        ArenaError::InvalidLayout
                    })
                },
            },
            old(self)@.len() + more@.len() <= old(self).capacity() ==> r.is_ok(),
    {
        let mut more = more;
        match self.reserve(more.len()) {
            Ok(()) => {
                self.items.append(&mut more);
                Ok(())
            },
            Err(e) => Err(e),
        }
    }

    /// Takes the values at the positions from `start` up to `end` out and
    /// returns them in their order; what stood after them moves left.
    ///
    /// Fails with `IndexOutOfRange` exactly when `start > end` or `end` is
    /// larger than the length; the vector is then as it was.
    pub fn drain(&mut self, start: usize, end: usize) -> (r: Result<Vec<T>, ArenaError>)
        requires
            old(self).wf(),
        ensures
            final(self).wf(),
            final(self).port() == old(self).port(),
            final(self).slot() == old(self).slot(),
            match r {
                Ok(taken) => {
                    &&& start <= end <= old(self)@.len()
                    &&& taken@ == old(self)@.subrange(start as int, end as int)
                    &&& final(self).state() == old(self).state().drained(start as int, end as int)
                },
                Err(e) => {
                    &&& !(start <= end <= old(self)@.len())
                    &&& e == ArenaError::IndexOutOfRange
                    &&& final(self).state() == old(self).state()
                },
            },
    {
        if start > end || end > self.items.len() {
            return Err(ArenaError::IndexOutOfRange);
        }
        let mut rest: Vec<T> = self.items.split_off(end);
        let taken: Vec<T> = self.items.split_off(start);
        self.items.append(&mut rest);
        proof {
            let before = old(self)@;
            assert(taken@ =~= before.subrange(start as int, end as int));
            assert(self.items@ =~= before.subrange(0, start as int) + before.subrange(
                end as int,
                before.len() as int,
            ));
        }
        Ok(taken)
    }

    /// The value at position `i`, if there is one.
    pub fn get(&self, i: usize) -> (r: Option<&T>)
        ensures
            r == (if i < self@.len() {
                Some(&self@[i as int])
            } else {
                None
            }),
    {
        if i < self.items.len() {
            Some(&self.items[i])
        } else {
            None
        }
    }

    /// Puts `x` in the place of the value at position `i` and returns that
    /// value.
    ///
    /// Fails with `IndexOutOfRange` exactly when `i` is not below the length;
    /// the vector is then as it was.
    pub fn replace(&mut self, i: usize, x: T) -> (r: Result<T, ArenaError>)
        requires
            old(self).wf(),
        ensures
            final(self).wf(),
            final(self).port() == old(self).port(),
            final(self).slot() == old(self).slot(),
            final(self).capacity() == old(self).capacity(),
            match r {
                Ok(before) => {
                    &&& i < old(self)@.len()
                    &&& before == old(self)@[i as int]
                    &&& final(self)@ == old(self)@.update(i as int, x)
                },
                Err(e) => i >= old(self)@.len() && e == ArenaError::IndexOutOfRange && final(self)@
                    == old(self)@,
            },
    {
        if i >= self.items.len() {
            return Err(ArenaError::IndexOutOfRange);
        }
        let mut x = x;
        core::mem::swap(&mut self.items[i], &mut x);
        Ok(x)
    }

    /// The values as one slice.
    pub fn as_slice(&self) -> (r: &[T])
        ensures
            r@ == self@,
    {
        self.items.as_slice()
    }

    /// The values in a vector of the process heap, in their order. The slot
    /// stays with the port.
    pub fn into_vec(self) -> (r: Vec<T>)
        ensures
            r@ == self@,
    {
        self.items
    }

    /// The same values and capacity, bound to the process heap: the one way
    /// for a vector to outlive the arena it was made in. The slot stays with
    /// the arena.
    pub fn into_heap(self) -> (r: ArenaVec<'static, T>)
        requires
            self.wf(),
        ensures
            r.wf(),
            r.state() == self.state().rehomed(),
            r.port() == AllocatorPort::Heap,
            r.slot() is None,
    {
        ArenaVec { port: AllocatorPort::Heap, items: self.items, cap: self.cap, slot: None }
    }

    /// The same values and capacity, bound to `arena`.
    ///
    /// A slot for the capacity is carved out of the arena, unless the
    /// capacity or the size of a value is zero. Where the arena does not give
    /// one the call fails with `AllocatorExhausted`, and the values are
    /// dropped.
    pub fn into_arena<'b>(self, arena: &'b crate::allocators::arena::Arena) -> (r: Result<
        ArenaVec<'b, T>,
        ArenaError,
    >)
        requires
            self.wf(),
        ensures
            match r {
                Ok(v) => v.wf() && v.state() == self.state().rehomed() && v.port()
                    == AllocatorPort::Arena(
                    arena,
                ),
                Err(e) => e == ArenaError::AllocatorExhausted && self.capacity() > 0 && size_of::<
                    T,
                >() > 0,
            },
            self.capacity() == 0 || size_of::<T>() == 0 ==> r.is_ok(),
    {
        let port = AllocatorPort::Arena(arena);
        let elem = Layout::of::<T>();
        proof {
            lemma_fits_layout::<T>(elem, self.cap);
        }
        if self.cap == 0 || elem.size() == 0 {
            return Ok(ArenaVec { port, items: self.items, cap: self.cap, slot: None });
        }
        let layout = match elem.array(self.cap) {
            Ok(layout) => layout,
            Err(_) => {
                return Err(ArenaError::AllocatorExhausted);
            },
        };
        match arena.allocate(layout) {
            Ok(range) => Ok(ArenaVec { port, items: self.items, cap: self.cap, slot: Some(range) }),
            Err(e) => Err(e),
        }
    }

    /// The value at position `i`, to be written through, if there is one.
    pub fn get_mut(&mut self, i: usize) -> (r: Option<&mut T>)
        requires
            old(self).wf(),
        ensures
            final(self).wf(),
            final(self).port() == old(self).port(),
            final(self).slot() == old(self).slot(),
            final(self).capacity() == old(self).capacity(),
            match r {
                Some(place) => {
                    &&& i < old(self)@.len()
                    &&& *place == old(self)@[i as int]
                    &&& final(self)@ == old(self)@.update(i as int, *final(place))
                },
                None => i >= old(self)@.len() && final(self)@ == old(self)@,
            },
    {
        if i < self.items.len() {
            Some(&mut self.items[i])
        } else {
            None
        }
    }
}

} // verus!
