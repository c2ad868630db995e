//! A scoped arena allocation subsystem.
//!
//! Memory is asked for as a [`layout::Layout`] and handed out as a
//! [`layout::ByteRange`]. An [`allocators::Arena`] carves ranges out of a bump
//! region and releases all of them at once when it is dropped. Containers
//! reach their allocator through an [`port::AllocatorPort`], which is either an
//! arena or the process heap: [`boxed::ArenaBox`] holds one value,
//! [`vec::ArenaVec`] a growable sequence. [`scope::ScopedArena`] keeps the
//! arenas of nested scopes.
//!
//! The library hands out addresses and decides what is to be done with the
//! bytes behind them; it never reads or writes those bytes itself.

pub mod allocators;
pub mod boxed;
pub mod error;
pub mod exec_options;
pub mod layout;
pub mod port;
pub mod scope;
pub mod vec;
