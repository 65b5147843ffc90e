//! Registry that keeps caller-supplied callbacks alive until the native layer
//! completes them.
//!
//! The native layer cannot hold a process-local closure; it holds an opaque
//! context value and calls a plain trampoline function with it later. The
//! bridge therefore stores each pending callback in this registry and hands
//! the native layer a generated integer token instead of a raw address: the
//! token is what crosses the boundary, and the trampoline looks the entry up
//! again when the completion arrives.
//!
//! Two invocation policies share the one mechanism:
//!
//! - a one-shot completion is claimed with [`CallbackRegistry::take`], which
//!   removes the entry, so the stored callback can run at most once — a second
//!   arrival of the same token finds nothing and is thereby exposed as a
//!   contract violation rather than silently re-running stale state;
//! - a filter-style predicate is consulted with [`CallbackRegistry::get`],
//!   which leaves the entry in place, because the native call that uses it
//!   invokes it many times before returning; the entry is taken out only when
//!   that call is done.
//!
//! The registry is parameterized over the stored payload: it never looks
//! inside a callback, it only owns it and accounts for it. Running a claimed
//! callback — and walling its panics off from the foreign stack — is the
//! unverified driver's part.

use vstd::prelude::*;

verus! {

/// Owner of pending callbacks, keyed by generated tokens.
///
/// Tokens are handed out in increasing order and never reused, so a token
/// identifies one registration for the registry's whole lifetime.
pub struct CallbackRegistry<C> {
    /// Live entries, each a generated token with the stored callback.
    pub entries: Vec<(u64, C)>,
    /// The token the next registration will receive.
    pub next_token: u64,
}

impl<C> CallbackRegistry<C> {
    /// The stored entries, in registration order.
    pub open spec fn spec_entries(self) -> Seq<(u64, C)> {
        self.entries@
    }

    /// The token the next registration will receive.
    pub open spec fn spec_next_token(self) -> u64 {
        self.next_token
    }

    /// Tokens are pairwise distinct and all below the next token.
    pub open spec fn wf(self) -> bool {
        &&& forall|i: int, j: int|
            0 <= i < j < self.entries@.len() ==> (#[trigger] self.entries@[i]).0 != (
            #[trigger] self.entries@[j]).0
        &&& forall|i: int|
            0 <= i < self.entries@.len() ==> (#[trigger] self.entries@[i]).0 < self.next_token
    }

    /// Whether a callback is registered under `token`.
    pub open spec fn spec_contains(self, token: u64) -> bool {
        exists|i: int| 0 <= i < self.entries@.len() && (#[trigger] self.entries@[i]).0 == token
    }

    /// Position of the entry registered under `token`.
    pub open spec fn spec_index_of(self, token: u64) -> int {
        choose|i: int| 0 <= i < self.entries@.len() && (#[trigger] self.entries@[i]).0 == token
    }

    /// The callback registered under `token`.
    pub open spec fn spec_get(self, token: u64) -> C {
        self.entries@[self.spec_index_of(token)].1
    }

    /// Builds an empty registry.
    pub fn new() -> (r: CallbackRegistry<C>)
        ensures
            r.wf(),
            r.spec_entries() == Seq::<(u64, C)>::empty(),
            r.spec_next_token() == 0u64,
    {
        CallbackRegistry { entries: Vec::new(), next_token: 0 }
    }

    /// How many callbacks are pending.
    pub fn len(&self) -> (n: usize)
        ensures
            n == self.spec_entries().len(),
    {
        self.entries.len()
    }

    /// Stores `callback` and returns the fresh token under which the native
    /// layer will refer to it. The token was never handed out before.
    pub fn register(&mut self, callback: C) -> (token: u64)
        requires
            old(self).wf(),
            old(self).spec_next_token() < u64::MAX,
        ensures
            final(self).wf(),
            token == old(self).spec_next_token(),
            !old(self).spec_contains(token),
            final(self).spec_contains(token),
            final(self).spec_entries() == old(self).spec_entries().push((token, callback)),
            final(self).spec_next_token() == token + 1,
            final(self).spec_get(token) == callback,
    {
        let token = self.next_token;
        self.entries.push((token, callback));
        self.next_token = token + 1;
        proof {
            let n = self.entries@.len() - 1;
            assert forall|k: int| 0 <= k < n implies (#[trigger] self.entries@[k]).0 != token by {
                assert(self.entries@[k] == old(self).spec_entries()[k]);
            }
            assert(self.entries@[n].0 == token);
            assert(self.spec_contains(token));
            let i = self.spec_index_of(token);
            assert(0 <= i < self.entries@.len() && self.entries@[i].0 == token);
            assert(i == n);
        }
        token
    }

    /// Whether a callback is registered under `token`.
    pub fn contains(&self, token: u64) -> (b: bool)
        ensures
            b == self.spec_contains(token),
    {
        let mut i: usize = 0;
        while i < self.entries.len()
            invariant
                i <= self.entries@.len(),
                forall|j: int| 0 <= j < i ==> (#[trigger] self.entries@[j]).0 != token,
            decreases self.entries@.len() - i,
        {
            if self.entries[i].0 == token {
                return true;
            }
            i += 1;
        }
        false
    }

    /// Borrows the callback registered under `token` without removing it —
    /// the policy for filter-style predicates, which the native call invokes
    /// many times before it returns.
    pub fn get(&self, token: u64) -> (r: Option<&C>)
        requires
            self.wf(),
        ensures
            self.spec_contains(token) ==> (r matches Some(c) && *c == self.spec_get(token)),
            !self.spec_contains(token) ==> r is None,
    {
        let mut i: usize = 0;
        while i < self.entries.len()
            invariant
                self.wf(),
                i <= self.entries@.len(),
                forall|j: int| 0 <= j < i ==> (#[trigger] self.entries@[j]).0 != token,
            decreases self.entries@.len() - i,
        {
            if self.entries[i].0 == token {
                proof {
                    let k = self.spec_index_of(token);
                    assert(self.entries@[k].0 == token);
                    assert(k == i);
                }
                return Some(&self.entries[i].1);
            }
            i += 1;
        }
        None
    }

    /// Claims the callback registered under `token`, removing the entry: the
    /// policy for one-shot completions. After a successful claim the token is
    /// gone, so claiming it again yields `None` and changes nothing — a
    /// stored callback can never be obtained twice.
    pub fn take(&mut self, token: u64) -> (r: Option<C>)
        requires
            old(self).wf(),
        ensures
            final(self).wf(),
            !final(self).spec_contains(token),
            final(self).spec_next_token() == old(self).spec_next_token(),
            old(self).spec_contains(token) ==> {
                &&& r == Some(old(self).spec_get(token))
                &&& final(self).spec_entries() == old(self).spec_entries().remove(
                    old(self).spec_index_of(token),
                )
            },
            !old(self).spec_contains(token) ==> r is None && *final(self) == *old(self),
    {
        let mut i: usize = 0;
        while i < self.entries.len()
            invariant
                *self == *old(self),
                self.wf(),
                i <= self.entries@.len(),
                forall|j: int| 0 <= j < i ==> (#[trigger] self.entries@[j]).0 != token,
            decreases self.entries@.len() - i,
        {
            if self.entries[i].0 == token {
                proof {
                    let k = self.spec_index_of(token);
                    assert(self.entries@[k].0 == token);
                    assert(k == i);
                    old(self).spec_entries().remove_ensures(i as int);
                }
                let entry = self.entries.remove(i);
                proof {
                    let olds = old(self).spec_entries();
                    assert forall|a: int, b: int|
                        0 <= a < b < self.entries@.len() implies (
                    #[trigger] self.entries@[a]).0 != (#[trigger] self.entries@[b]).0 by {
                        let ai: int = if a < i { a } else { a + 1 };
                        let bi: int = if b < i { b } else { b + 1 };
                        assert(self.entries@[a] == olds[ai]);
                        assert(self.entries@[b] == olds[bi]);
                    }
                    assert forall|a: int| 0 <= a < self.entries@.len() implies (
                    #[trigger] self.entries@[a]).0 != token && (#[trigger] self.entries@[a]).0
                        < self.next_token by {
                        let ai: int = if a < i { a } else { a + 1 };
                        assert(self.entries@[a] == olds[ai]);
                    }
                }
                return Some(entry.1);
            }
            i += 1;
        }
        None
    }
}

} // verus!
