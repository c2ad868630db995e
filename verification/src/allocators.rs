//! The allocators that containers can draw their memory from.

pub mod arena;

pub use arena::Arena;
