//! The error kinds that allocation and container operations report.

use vstd::prelude::*;

verus! {

/// Why an allocator or container operation did not succeed.
#[derive(Clone, Copy, Debug, PartialEq, Eq, Structural)]
pub enum ArenaError {
    /// The process allocator refused to back a new chunk, or the request is
    /// larger than the arena admits.
    AllocatorExhausted,
    /// The alignment is zero or not a power of two, or the size overflows when
    /// it is rounded up to the alignment.
    InvalidLayout,
    /// A container operation addressed a position past its length.
    IndexOutOfRange,
    /// A scope was addressed after it had ended.
    UseAfterScope,
}

impl ArenaError {
    /// A short description of the error, for messages.
    pub fn message(&self) -> (text: &'static str)
        ensures
            text@ == (match *self {
                ArenaError::AllocatorExhausted => "allocator exhausted"@,
                ArenaError::InvalidLayout => "invalid layout"@,
                ArenaError::IndexOutOfRange => "index out of range"@,
                ArenaError::UseAfterScope => "use after scope"@,
            }),
    {
        match self {
            ArenaError::AllocatorExhausted => "allocator exhausted",
            ArenaError::InvalidLayout => "invalid layout",
            ArenaError::IndexOutOfRange => "index out of range",
            ArenaError::UseAfterScope => "use after scope",
        }
    }
}

} // verus!
