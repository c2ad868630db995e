//! A bump arena: ranges are carved out of chunks and released all at once.

use vstd::layout::valid_layout;
use vstd::prelude::*;

use crate::error::ArenaError;
use crate::layout::{ByteRange, Layout};

verus! {

/// The room reserved at first, unless configured otherwise: 4 KiB.
pub const DEFAULT_INITIAL_CHUNK_BYTES: usize = 4096;

/// The largest request that is served, unless configured otherwise: 32 MiB.
pub const DEFAULT_MAX_CHUNK_BYTES: usize = 33_554_432;

/// The size above which a request is rated as fit for a chunk of its own,
/// unless configured otherwise: 16 MiB.
pub const DEFAULT_OVERSIZE_THRESHOLD_BYTES: usize = 16_777_216;

/// How a configuration rates a request of a given size.
///
/// Only `Refused` changes what an arena does: such a request fails before the
/// bump region is asked. How the chunks for the others are cut is the bump
/// region's own business.
#[derive(Clone, Copy, Debug, PartialEq, Eq, Structural)]
pub enum Admission {
    /// At most the oversize threshold: fit for the chunk that is being
    /// filled.
    Regular,
    /// Above the oversize threshold and at most the largest chunk: fit for a
    /// chunk of its own.
    Dedicated,
    /// Larger than any chunk may be: not served.
    Refused,
}

/// The sizes that govern an arena's chunks.
#[derive(Clone, Copy, Debug, PartialEq, Eq, Structural)]
pub struct ArenaConfig {
    /// Room that `Arena::with_config` reserves when it makes the arena.
    pub initial_chunk_bytes: usize,
    /// No request larger than this is served.
    pub max_chunk_bytes: usize,
    /// Requests larger than this are rated as fit for a chunk of their own.
    pub oversize_threshold_bytes: usize,
}

impl ArenaConfig {
    /// The configuration that an arena has unless it is given another one.
    pub open spec fn standard() -> ArenaConfig {
        ArenaConfig {
            initial_chunk_bytes: DEFAULT_INITIAL_CHUNK_BYTES,
            max_chunk_bytes: DEFAULT_MAX_CHUNK_BYTES,
            oversize_threshold_bytes: DEFAULT_OVERSIZE_THRESHOLD_BYTES,
        }
    }

    /// How a request of `size` bytes is rated.
    pub open spec fn spec_admission(&self, size: usize) -> Admission {
        if size > self.max_chunk_bytes {
            Admission::Refused
        } else if size > self.oversize_threshold_bytes {
            Admission::Dedicated
        } else {
            Admission::Regular
        }
    }

    /// Whether a request of `size` bytes is served at all.
    pub open spec fn admits(&self, size: usize) -> bool {
        size <= self.max_chunk_bytes
    }

    /// How a request of `size` bytes is rated.
    #[verifier::when_used_as_spec(spec_admission)]
    pub fn admission(&self, size: usize) -> (r: Admission)
        ensures
            r == self.admission(size),
            self.admits(size) <==> r != Admission::Refused,
    {
        if size > self.max_chunk_bytes {
            Admission::Refused
        } else if size > self.oversize_threshold_bytes {
            Admission::Dedicated
        } else {
            Admission::Regular
        }
    }
}

impl Default for ArenaConfig {
    fn default() -> (r: Self)
        ensures
            r == ArenaConfig::standard(),
    {
        ArenaConfig {
            initial_chunk_bytes: DEFAULT_INITIAL_CHUNK_BYTES,
            max_chunk_bytes: DEFAULT_MAX_CHUNK_BYTES,
            oversize_threshold_bytes: DEFAULT_OVERSIZE_THRESHOLD_BYTES,
        }
    }
}

/// A block in an arena together with the byte work that makes it ready.
///
/// The arena only hands out addresses. Whoever owns the memory copies the
/// first `copy_len` bytes of the block that is being replaced to the start of
/// `range`, and clears `zero_len` bytes from offset `zero_from` of `range` on.
#[derive(Clone, Copy, Debug, PartialEq, Eq, Structural)]
pub struct Grant {
    /// The block that was handed out.
    pub range: ByteRange,
    /// How many bytes of the replaced block are carried over.
    pub copy_len: usize,
    /// The offset in `range` at which clearing starts.
    pub zero_from: usize,
    /// How many bytes are cleared.
    pub zero_len: usize,
}

/// The smaller of two sizes.
pub open spec fn min_size(a: usize, b: usize) -> usize {
    if a <= b {
        a
    } else {
        b
    }
}

impl Grant {
    /// A fresh block at `addr` for `layout`, with nothing to be done to its
    /// bytes.
    pub open spec fn fresh(addr: usize, layout: Layout) -> Grant {
        Grant {
            range: ByteRange { addr, len: layout.size() },
            copy_len: 0,
            zero_from: 0,
            zero_len: 0,
        }
    }

    /// A fresh block at `addr` for `layout`, with its bytes cleared.
    pub open spec fn zeroed(addr: usize, layout: Layout) -> Grant {
        Grant {
            range: ByteRange { addr, len: layout.size() },
            copy_len: 0,
            zero_from: 0,
            zero_len: layout.size(),
        }
    }

    /// A block at `addr` for `new_layout` that takes over what the block of
    /// `old_layout` held: as many bytes as both have.
    pub open spec fn grown(addr: usize, old_layout: Layout, new_layout: Layout) -> Grant {
        Grant {
            range: ByteRange { addr, len: new_layout.size() },
            copy_len: min_size(old_layout.size(), new_layout.size()),
            zero_from: 0,
            zero_len: 0,
        }
    }

    /// As `grown`, with the bytes past the old size cleared.
    pub open spec fn grown_zeroed(addr: usize, old_layout: Layout, new_layout: Layout) -> Grant {
        let kept = min_size(old_layout.size(), new_layout.size());
        Grant {
            range: ByteRange { addr, len: new_layout.size() },
            copy_len: kept,
            zero_from: kept,
            zero_len: (new_layout.size() - kept) as usize,
        }
    }

    /// The block at `addr` cut down to the size of `new_layout`, in place.
    pub open spec fn shrunk(addr: usize, new_layout: Layout) -> Grant {
        Grant {
            range: ByteRange { addr, len: new_layout.size() },
            copy_len: 0,
            zero_from: 0,
            zero_len: 0,
        }
    }

    /// The bytes carried over and the bytes cleared lie within the block and
    /// do not overlap.
    pub open spec fn within_block(self) -> bool {
        &&& self.copy_len <= self.range.len
        &&& self.zero_from + self.zero_len <= self.range.len
        &&& self.zero_len > 0 ==> self.copy_len <= self.zero_from
    }
}

/// The byte work of every grant that an arena makes lies within the block
/// that it hands out, and what is cleared starts where what is carried over
/// ends.
pub proof fn law_grants_stay_within_block(addr: usize, old_layout: Layout, new_layout: Layout)
    ensures
        Grant::fresh(addr, new_layout).within_block(),
        Grant::zeroed(addr, new_layout).within_block(),
        Grant::grown(addr, old_layout, new_layout).within_block(),
        Grant::grown_zeroed(addr, old_layout, new_layout).within_block(),
        Grant::shrunk(addr, new_layout).within_block(),
        Grant::grown_zeroed(addr, old_layout, new_layout).copy_len + Grant::grown_zeroed(
            addr,
            old_layout,
            new_layout,
        ).zero_len == new_layout.size(),
{
}

/// The block of an answer, or its error.
pub open spec fn range_of(r: Result<Grant, ArenaError>) -> Result<ByteRange, ArenaError> {
    match r {
        Ok(grant) => Ok(grant.range),
        Err(e) => Err(e),
    }
}

/// The bump region of the `bumpalo` crate. Nothing of its state is visible
/// here.
#[verifier::external_type_specification]
#[verifier::external_body]
pub struct ExBump<const MIN_ALIGN: usize>(bumpalo::Bump<MIN_ALIGN>);

/// The error that `bumpalo` reports when it cannot reserve memory.
#[verifier::external_type_specification]
#[verifier::external_body]
pub struct ExAllocErr(bumpalo::AllocErr);

/// Calls `bumpalo::Bump::default`, which makes an arena without any chunk.
/// Nothing is claimed of the result.
#[verifier::external_body]
fn bump_default() -> bumpalo::Bump {
    bumpalo::Bump::default()
}

/// Calls `bumpalo::Bump::try_with_capacity`, which reserves a first chunk with
/// room for `capacity` bytes or reports that it cannot. Nothing is claimed of
/// the result.
#[verifier::external_body]
fn bump_try_with_capacity(capacity: usize) -> Result<bumpalo::Bump, bumpalo::AllocErr> {
    bumpalo::Bump::try_with_capacity(capacity)
}

/// Calls `bumpalo::Bump::allocated_bytes`, the room in all chunks taken
/// together. Nothing is claimed of the result.
#[verifier::external_body]
fn bump_allocated_bytes(bump: &bumpalo::Bump) -> usize {
    bump.allocated_bytes()
}

/// Calls `bumpalo::Bump::try_alloc_layout` and reports the address of the
/// block. On success the address is not null and a multiple of `align`, and
/// the block of `size` bytes ends within the address space.
#[verifier::external_body]
fn bump_try_alloc_layout(bump: &bumpalo::Bump, size: usize, align: usize) -> (found: Result<
    usize,
    bumpalo::AllocErr,
>)
    requires
        valid_layout(size, align),
    ensures
        found matches Ok(addr) ==> addr != 0 && addr as int % align as int == 0 && addr + size
            <= usize::MAX,
{
    match std::alloc::Layout::from_size_align(size, align) {
        Ok(layout) => match bump.try_alloc_layout(layout) {
            Ok(ptr) => Ok(ptr.as_ptr() as usize),
            Err(e) => Err(e),
        },
        Err(_) => Err(bumpalo::AllocErr),
    }
}

/// What `allocate` answers once the bump region has been asked: the block at
/// the address found, or `AllocatorExhausted`.
pub fn settle_allocate(found: Result<usize, bumpalo::AllocErr>, layout: Layout) -> (r: Result<
    ByteRange,
    ArenaError,
>)
    ensures
        r == (match found {
            Ok(addr) => Ok::<ByteRange, ArenaError>(ByteRange { addr, len: layout.size() }),
            Err(_) => Err::<ByteRange, ArenaError>(ArenaError::AllocatorExhausted),
        }),
{
    match found {
        Ok(addr) => Ok(ByteRange { addr, len: layout.size() }),
        Err(_) => Err(ArenaError::AllocatorExhausted),
    }
}

/// What `allocate_zeroed` answers once the bump region has been asked: the
/// block at the address found, all of it to be cleared, or
/// `AllocatorExhausted`.
pub fn settle_allocate_zeroed(found: Result<usize, bumpalo::AllocErr>, layout: Layout) -> (r:
    Result<Grant, ArenaError>)
    ensures
        r == (match found {
            Ok(addr) => Ok::<Grant, ArenaError>(Grant::zeroed(addr, layout)),
            Err(_) => Err::<Grant, ArenaError>(ArenaError::AllocatorExhausted),
        }),
{
    match found {
        Ok(addr) => {
            let size: usize = layout.size();
            let range = ByteRange { addr, len: size };
            Ok(Grant { range, copy_len: 0, zero_from: 0, zero_len: size })
        },
        Err(_) => Err(ArenaError::AllocatorExhausted),
    }
}

/// What `grow` answers once the bump region has been asked for the new block:
/// the block at the address found, to which as many bytes are carried over as
/// the old and the new layout both have, or `AllocatorExhausted`.
pub fn settle_grow(
    found: Result<usize, bumpalo::AllocErr>,
    old_layout: Layout,
    new_layout: Layout,
) -> (r: Result<Grant, ArenaError>)
    ensures
        r == (match found {
            Ok(addr) => Ok::<Grant, ArenaError>(Grant::grown(addr, old_layout, new_layout)),
            Err(_) => Err::<Grant, ArenaError>(ArenaError::AllocatorExhausted),
        }),
{
    match found {
        Ok(addr) => {
            let old_size: usize = old_layout.size();
            let new_size: usize = new_layout.size();
            let copy_len: usize = if old_size <= new_size {
                old_size
            } else {
                new_size
            };
            let range = ByteRange { addr, len: new_size };
            Ok(Grant { range, copy_len, zero_from: 0, zero_len: 0 })
        },
        Err(_) => Err(ArenaError::AllocatorExhausted),
    }
}

/// What `grow_zeroed` answers once the bump region has been asked for the new
/// block: as `settle_grow`, and the bytes from the old size up to the new one
/// are to be cleared.
pub fn settle_grow_zeroed(
    found: Result<usize, bumpalo::AllocErr>,
    old_layout: Layout,
    new_layout: Layout,
) -> (r: Result<Grant, ArenaError>)
    ensures
        r == (match found {
            Ok(addr) => Ok::<Grant, ArenaError>(
                Grant::grown_zeroed(addr, old_layout, new_layout),
            ),
            Err(_) => Err::<Grant, ArenaError>(ArenaError::AllocatorExhausted),
        }),
{
    match found {
        Ok(addr) => {
            let old_size: usize = old_layout.size();
            let new_size: usize = new_layout.size();
            let copy_len: usize = if old_size <= new_size {
                old_size
            } else {
                new_size
            };
            let zero_len: usize = if new_size > old_size {
                new_size - old_size
            } else {
                0
            };
            let range = ByteRange { addr, len: new_size };
            Ok(Grant { range, copy_len, zero_from: copy_len, zero_len })
        },
        Err(_) => Err(ArenaError::AllocatorExhausted),
    }
}

/// Arena allocator
#[derive(Debug)]
pub struct Arena {
    inner: bumpalo::Bump,
    config: ArenaConfig,
}

impl Arena {
    /// The sizes that govern the arena's chunks.
    pub closed spec fn spec_config(&self) -> ArenaConfig {
        self.config
    }

    /// The sizes that govern the arena's chunks.
    #[verifier::when_used_as_spec(spec_config)]
    pub fn config(&self) -> (r: ArenaConfig)
        ensures
            r == self.config(),
    {
        self.config
    }

    /// What holds of every answer to a request for a block of `layout`: a
    /// block that fits the layout, for a size that the configuration admits,
    /// or `AllocatorExhausted`; and a size that is not admitted fails.
    pub open spec fn served(&self, layout: Layout, r: Result<ByteRange, ArenaError>) -> bool {
        &&& match r {
            Ok(range) => range.fits(layout) && self.config().admits(layout.size()),
            Err(e) => e == ArenaError::AllocatorExhausted,
        }
        &&& !self.config().admits(layout.size()) ==> r.is_err()
    }

    /// An arena without any chunk, under the default configuration.
    pub fn new() -> (r: Arena)
        ensures
            r.config() == ArenaConfig::standard(),
    {
        Arena { inner: bump_default(), config: ArenaConfig::default() }
    }

    /// An arena under `config`, with a first chunk of
    /// `config.initial_chunk_bytes` reserved.
    ///
    /// Fails with `AllocatorExhausted` when the process allocator does not
    /// back that chunk. Whether it does is not decided here.
    pub fn with_config(config: ArenaConfig) -> (r: Result<Arena, ArenaError>)
        ensures
            match r {
                Ok(arena) => arena.config() == config,
                Err(e) => e == ArenaError::AllocatorExhausted,
            },
    {
        match bump_try_with_capacity(config.initial_chunk_bytes) {
            Ok(inner) => Ok(Arena { inner, config }),
            Err(_) => Err(ArenaError::AllocatorExhausted),
        }
    }

    /// The room in all chunks that the arena holds, in bytes.
    pub fn allocated_bytes(&self) -> usize {
        bump_allocated_bytes(&self.inner)
    }

    /// Carves a block for `layout` out of the arena.
    ///
    /// A request that the configuration does not admit fails with
    /// `AllocatorExhausted` and leaves the arena untouched. An admitted one is
    /// answered by `settle_allocate` from what the bump region found.
    pub fn allocate(&self, layout: Layout) -> (r: Result<ByteRange, ArenaError>)
        ensures
            self.served(layout, r),
    {
        let size: usize = layout.size();
        if self.config.admission(size) == Admission::Refused {
            return Err(ArenaError::AllocatorExhausted);
        }
        let found = bump_try_alloc_layout(&self.inner, size, layout.align());
        settle_allocate(found, layout)
    }

    /// Gives a block back. Blocks of an arena are released together with the
    /// arena, so this does nothing.
    pub fn deallocate(&self, ptr: usize, layout: Layout) {
        let _ = (ptr, layout);
    }

    /// Carves a block for `layout` out of the arena and asks for all of its
    /// bytes to be cleared.
    pub fn allocate_zeroed(&self, layout: Layout) -> (r: Result<Grant, ArenaError>)
        ensures
            self.served(layout, range_of(r)),
            r matches Ok(grant) ==> grant == Grant::zeroed(grant.range.addr, layout),
    {
        let size: usize = layout.size();
        if self.config.admission(size) == Admission::Refused {
            return Err(ArenaError::AllocatorExhausted);
        }
        let found = bump_try_alloc_layout(&self.inner, size, layout.align());
        settle_allocate_zeroed(found, layout)
    }

    /// Replaces the block at `ptr` by a new one for `new_layout`. The old
    /// block stays where it is until the arena is released; as many bytes as
    /// both layouts have are carried over.
    pub fn grow(&self, ptr: usize, old_layout: Layout, new_layout: Layout) -> (r: Result<
        Grant,
        ArenaError,
    >)
        ensures
            self.served(new_layout, range_of(r)),
            r matches Ok(grant) ==> grant == Grant::grown(grant.range.addr, old_layout, new_layout),
    {
        let _ = ptr;
        let size: usize = new_layout.size();
        if self.config.admission(size) == Admission::Refused {
            return Err(ArenaError::AllocatorExhausted);
        }
        let found = bump_try_alloc_layout(&self.inner, size, new_layout.align());
        settle_grow(found, old_layout, new_layout)
    }

    /// As `grow`, and the bytes from the old size up to the new one are to be
    /// cleared.
    pub fn grow_zeroed(&self, ptr: usize, old_layout: Layout, new_layout: Layout) -> (r: Result<
        Grant,
        ArenaError,
    >)
        ensures
            self.served(new_layout, range_of(r)),
            r matches Ok(grant) ==> grant == Grant::grown_zeroed(
                grant.range.addr,
                old_layout,
                new_layout,
            ),
    {
        let _ = ptr;
        let size: usize = new_layout.size();
        if self.config.admission(size) == Admission::Refused {
            return Err(ArenaError::AllocatorExhausted);
        }
        let found = bump_try_alloc_layout(&self.inner, size, new_layout.align());
        settle_grow_zeroed(found, old_layout, new_layout)
    }

    /// Cuts the block at `ptr` down to the size of `new_layout` without moving
    /// it. Nothing is given back to the arena.
    pub fn shrink(&self, ptr: usize, old_layout: Layout, new_layout: Layout) -> (r: Result<
        Grant,
        ArenaError,
    >)
        ensures
            r == Ok::<Grant, ArenaError>(Grant::shrunk(ptr, new_layout)),
    {
        let _ = old_layout;
        let range = ByteRange { addr: ptr, len: new_layout.size() };
        Ok(Grant { range, copy_len: 0, zero_from: 0, zero_len: 0 })
    }
}

impl Default for Arena {
    fn default() -> (r: Self)
        ensures
            r.config() == ArenaConfig::standard(),
    {
        Arena::new()
    }
}

impl core::ops::Deref for Arena {
    type Target = bumpalo::Bump;

    /// The bump region behind the arena.
    fn deref(&self) -> (r: &bumpalo::Bump)
        ensures
            *r == self.region(),
    {
        &self.inner
    }
}

impl core::ops::DerefMut for Arena {
    /// The bump region behind the arena, to be changed. The configuration
    /// stays.
    fn deref_mut(&mut self) -> (r: &mut bumpalo::Bump)
        ensures
            *r == old(self).region(),
            final(self).region() == *final(r),
            final(self).config() == old(self).config(),
    {
        &mut self.inner
    }
}

impl From<bumpalo::Bump> for Arena {
    /// An arena over the bump region `inner`, under the default
    /// configuration.
    fn from(inner: bumpalo::Bump) -> (r: Self)
        ensures
            r.region() == inner,
            r.config() == ArenaConfig::standard(),
    {
        Arena { inner, config: ArenaConfig::default() }
    }
}

impl vstd::std_specs::convert::FromSpecImpl<bumpalo::Bump> for Arena {
    open spec fn obeys_from_spec() -> bool {
        true
    }

    closed spec fn from_spec(inner: bumpalo::Bump) -> Arena {
        Arena { inner, config: ArenaConfig::standard() }
    }
}

impl Arena {
    /// The bump region behind the arena: what `deref` and `deref_mut` lend
    /// out, and what `from` was given.
    pub closed spec fn region(&self) -> bumpalo::Bump {
        self.inner
    }
}

} // verus!
