//! Scopes: spans of execution during which an arena is live.

use vstd::prelude::*;

use crate::allocators::arena::Arena;
use crate::error::ArenaError;

verus! {

/// Names one scope, also after it has ended.
#[derive(Clone, Copy, Debug, PartialEq, Eq, Structural)]
pub struct ScopeToken {
    /// The number of the scope. Scopes are numbered in the order in which
    /// they are entered.
    pub id: u64,
}

/// One live scope: its number and its arena.
#[derive(Debug)]
struct Scope {
    id: u64,
    arena: Arena,
}

/// The scopes that are live, the innermost last. Each has an arena of its
/// own, which is released when the scope is left.
#[derive(Debug)]
pub struct ScopedArena {
    scopes: Vec<Scope>,
    next_id: u64,
}

impl ScopedArena {
    /// The numbers of the live scopes, the innermost last.
    pub closed spec fn ids(&self) -> Seq<u64> {
        Seq::new(self.scopes@.len(), |i: int| self.scopes@[i].id)
    }

    /// The arenas of the live scopes, the innermost last.
    pub closed spec fn arenas(&self) -> Seq<Arena> {
        Seq::new(self.scopes@.len(), |i: int| self.scopes@[i].arena)
    }

    /// The number that the next scope gets.
    pub closed spec fn next_id(&self) -> u64 {
        self.next_id
    }

    /// The invariant: each live scope has one arena, the numbers of the live
    /// scopes rise from the outermost to the innermost, and all are below the
    /// number that the next scope gets.
    pub open spec fn wf(&self) -> bool {
        &&& self.ids().len() == self.arenas().len()
        &&& forall|i: int, j: int|
            0 <= i < j < self.ids().len() ==> self.ids()[i] < self.ids()[j]
        &&& forall|i: int| 0 <= i < self.ids().len() ==> self.ids()[i] < self.next_id()
    }

    /// Whether the scope that `token` names is live.
    pub open spec fn live(&self, token: ScopeToken) -> bool {
        self.ids().contains(token.id)
    }

    /// No scope is live.
    pub fn new() -> (r: ScopedArena)
        ensures
            r.wf(),
            r.ids() == Seq::<u64>::empty(),
            r.next_id() == 0,
    {
        let r = ScopedArena { scopes: Vec::new(), next_id: 0 };
        assert(r.ids() =~= Seq::<u64>::empty());
        r
    }

    /// The number of live scopes.
    pub fn depth(&self) -> (n: usize)
        ensures
            n == self.ids().len(),
    {
        self.scopes.len()
    }

    /// Enters a scope with `arena` as its arena; it becomes the innermost.
    ///
    /// Fails with `AllocatorExhausted` exactly when the numbers for scopes
    /// have run out; nothing changes then, and `arena` is released.
    pub fn enter_with(&mut self, arena: Arena) -> (r: Result<ScopeToken, ArenaError>)
        requires
            old(self).wf(),
        ensures
            final(self).wf(),
            match r {
                Ok(token) => {
                    &&& old(self).next_id() < u64::MAX
                    &&& token.id == old(self).next_id()
                    &&& final(self).next_id() == old(self).next_id() + 1
                    &&& final(self).ids() == old(self).ids().push(token.id)
                    &&& final(self).arenas() == old(self).arenas().push(arena)
                },
                Err(e) => {
                    &&& old(self).next_id() == u64::MAX
                    &&& e == ArenaError::AllocatorExhausted
                    &&& final(self).ids() == old(self).ids()
                    &&& final(self).arenas() == old(self).arenas()
                    &&& final(self).next_id() == old(self).next_id()
                },
            },
    {
        if self.next_id == u64::MAX {
            return Err(ArenaError::AllocatorExhausted);
        }
        let id: u64 = self.next_id;
        self.scopes.push(Scope { id, arena });
        self.next_id = id + 1;
        assert(self.ids() =~= old(self).ids().push(id));
        assert(self.arenas() =~= old(self).arenas().push(arena));
        Ok(ScopeToken { id })
    }

    /// Enters a scope with a fresh arena; it becomes the innermost.
    ///
    /// Fails as `enter_with` does.
    pub fn enter(&mut self) -> (r: Result<ScopeToken, ArenaError>)
        requires
            old(self).wf(),
        ensures
            final(self).wf(),
            match r {
                Ok(token) => {
                    &&& old(self).next_id() < u64::MAX
                    &&& token.id == old(self).next_id()
                    &&& final(self).next_id() == old(self).next_id() + 1
                    &&& final(self).ids() == old(self).ids().push(token.id)
                    &&& final(self).arenas().drop_last() == old(self).arenas()
                },
                Err(e) => {
                    &&& old(self).next_id() == u64::MAX
                    &&& e == ArenaError::AllocatorExhausted
                    &&& final(self).ids() == old(self).ids()
                    &&& final(self).arenas() == old(self).arenas()
                    &&& final(self).next_id() == old(self).next_id()
                },
            },
    {
        let arena = Arena::new();
        let r = self.enter_with(arena);
        proof {
            if r.is_ok() {
                assert(old(self).arenas().push(arena).drop_last() =~= old(self).arenas());
            }
        }
        r
    }

    /// Leaves the innermost scope and releases its arena.
    ///
    /// Fails with `UseAfterScope` exactly when no scope is live.
    pub fn exit(&mut self) -> (r: Result<ScopeToken, ArenaError>)
        requires
            old(self).wf(),
        ensures
            final(self).wf(),
            final(self).next_id() == old(self).next_id(),
            match r {
                Ok(token) => {
                    &&& old(self).ids().len() > 0
                    &&& token.id == old(self).ids().last()
                    &&& final(self).ids() == old(self).ids().drop_last()
                    &&& final(self).arenas() == old(self).arenas().drop_last()
                    &&& !final(self).live(token)
                },
                Err(e) => {
                    &&& old(self).ids().len() == 0
                    &&& e == ArenaError::UseAfterScope
                    &&& final(self).ids() == old(self).ids()
                    &&& final(self).arenas() == old(self).arenas()
                },
            },
    {
        match self.scopes.pop() {
            Some(scope) => {
                assert(self.ids() =~= old(self).ids().drop_last());
                assert(self.arenas() =~= old(self).arenas().drop_last());
                Ok(ScopeToken { id: scope.id })
            },
            None => {
                assert(self.ids() =~= old(self).ids());
                assert(self.arenas() =~= old(self).arenas());
                Err(ArenaError::UseAfterScope)
            },
        }
    }

    /// The arena of the innermost scope, if a scope is live.
    pub fn current(&self) -> (r: Option<&Arena>)
        ensures
            r == (if self.arenas().len() > 0 {
                Some(&self.arenas().last())
            } else {
                None
            }),
    {
        let n: usize = self.scopes.len();
        if n == 0 {
            None
        } else {
            Some(&self.scopes[n - 1].arena)
        }
    }

    /// The name of the innermost scope, if a scope is live.
    pub fn current_token(&self) -> (r: Option<ScopeToken>)
        ensures
            match r {
                Some(token) => self.ids().len() > 0 && token.id == self.ids().last(),
                None => self.ids().len() == 0,
            },
    {
        let n: usize = self.scopes.len();
        if n == 0 {
            None
        } else {
            Some(ScopeToken { id: self.scopes[n - 1].id })
        }
    }

    /// The arena of the scope that `token` names.
    ///
    /// Fails with `UseAfterScope` exactly when that scope is not live.
    pub fn arena_of(&self, token: ScopeToken) -> (r: Result<&Arena, ArenaError>)
        requires
            self.wf(),
        ensures
            match r {
                Ok(arena) => self.live(token) && exists|i: int|
                    0 <= i < self.ids().len() && self.ids()[i] == token.id && *arena
                        == self.arenas()[i],
                Err(e) => !self.live(token) && e == ArenaError::UseAfterScope,
            },
    {
        let mut i: usize = self.scopes.len();
        while i > 0
            invariant
                i <= self.scopes@.len(),
                self.ids().len() == self.scopes@.len(),
                forall|j: int| i <= j < self.ids().len() ==> self.ids()[j] != token.id,
            decreases i,
        {
            i = i - 1;
            if self.scopes[i].id == token.id {
                assert(self.ids()[i as int] == token.id);
                assert(self.arenas()[i as int] == self.scopes@[i as int].arena);
                return Ok(&self.scopes[i].arena);
            }
        }
        Err(ArenaError::UseAfterScope)
    }
}

/// Runs `body` in a scope of its own: a fresh arena is made, handed to
/// `body`, and released when `body` has returned.
pub fn scope<R, F: FnOnce(&Arena) -> R>(body: F) -> (r: R)
    requires
        forall|arena: &Arena| arena.config() == crate::allocators::arena::ArenaConfig::standard()
            ==> body.requires((arena,)),
    ensures
        exists|arena: &Arena|
            arena.config() == crate::allocators::arena::ArenaConfig::standard() && body.ensures(
                (arena,),
                r,
            ),
{
    let arena = Arena::new();
    body(&arena)
}

} // verus!
