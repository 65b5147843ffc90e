//! Cursor over a native "count" + "get at index" accessor pair.
//!
//! Native lists are not handed over as arrays: the layer exposes one call that
//! reports how many elements exist and one call that fetches the element at a
//! position. [`Collection`] turns such a pair into a finite, index-addressed
//! sequence walk: it decides which index to fetch next, supports walking from
//! the front and from the back, and fuses — once the walk is exhausted, or
//! once the caller records that a fetch failed, no further index is ever
//! handed out, so the native accessor is not re-invoked.
//!
//! The fetches themselves are foreign calls and happen outside this crate:
//! the driver asks the cursor for the next index, performs the fetch, and on a
//! failure reports it back through [`Collection::record_failure`].

use vstd::prelude::*;

use crate::error::Error;

verus! {

/// Walk state over an index-addressed native collection.
///
/// `front` and `back` delimit the positions not yet visited, exactly as a
/// double-ended iterator does: the next index from the front is `front`, the
/// next from the back is `back - 1`, and the walk is exhausted when they meet.
#[derive(Clone, Copy, Debug, PartialEq, Eq, Structural)]
pub struct Collection {
    /// Number of elements the native count accessor reported.
    pub count: u32,
    /// First position not yet yielded from the front.
    pub front: u32,
    /// One past the last position not yet yielded from the back.
    pub back: u32,
    /// Whether an element fetch failed; a failed walk yields nothing more.
    pub failed: bool,
}

impl Collection {
    /// The cursor's bounds are ordered and within the reported count.
    pub open spec fn wf(self) -> bool {
        self.front <= self.back <= self.count
    }

    /// Whether the walk hands out no further index.
    pub open spec fn spec_exhausted(self) -> bool {
        self.failed || self.front == self.back
    }

    /// The indices a forward walk of `self` would fetch, in order.
    pub open spec fn spec_forward_indices(self) -> Seq<u32> {
        if self.failed {
            Seq::empty()
        } else {
            Seq::new((self.back - self.front) as nat, |k: int| (self.front + k) as u32)
        }
    }

    /// The indices a backward walk of `self` would fetch, in order.
    pub open spec fn spec_backward_indices(self) -> Seq<u32> {
        if self.failed {
            Seq::empty()
        } else {
            Seq::new((self.back - self.front) as nat, |k: int| (self.back - 1 - k) as u32)
        }
    }

    /// Builds a cursor from the count a native accessor reported, validating
    /// the signed-to-unsigned conversion: a negative count is a malformed
    /// native reply and is rejected, never wrapped around.
    pub fn from_native_count(count: i32) -> (r: Result<Collection, Error>)
        ensures
            count >= 0 <==> r is Ok,
            count >= 0 ==> r == Ok::<Collection, Error>(Collection {
                count: count as u32,
                front: 0,
                back: count as u32,
                failed: false,
            }),
            count < 0 ==> r == Err::<Collection, Error>(Error::Internal),
    {
        if count < 0 {
            Err(Error::Internal)
        } else {
            Ok(Collection { count: count as u32, front: 0, back: count as u32, failed: false })
        }
    }

    /// How many elements remain to be fetched.
    pub fn remaining(&self) -> (n: u32)
        requires
            self.wf(),
        ensures
            n == self.spec_forward_indices().len(),
    {
        if self.failed {
            0
        } else {
            self.back - self.front
        }
    }

    /// Whether the walk hands out no further index.
    pub fn is_exhausted(&self) -> (b: bool)
        ensures
            b == self.spec_exhausted(),
    {
        self.failed || self.front == self.back
    }

    /// Next index of a forward walk. Returns `None`, and changes nothing,
    /// once the walk is exhausted or failed.
    pub fn next_index(&mut self) -> (r: Option<u32>)
        requires
            old(self).wf(),
        ensures
            final(self).wf(),
            old(self).spec_exhausted() ==> r is None && *final(self) == *old(self),
            !old(self).spec_exhausted() ==> {
                &&& r == Some(old(self).front)
                &&& *final(self) == Collection { front: (old(self).front + 1) as u32, ..*old(self) }
            },
    {
        if self.failed || self.front == self.back {
            None
        } else {
            let i = self.front;
            self.front = self.front + 1;
            Some(i)
        }
    }

    /// Next index of a backward walk. Returns `None`, and changes nothing,
    /// once the walk is exhausted or failed.
    pub fn next_back_index(&mut self) -> (r: Option<u32>)
        requires
            old(self).wf(),
        ensures
            final(self).wf(),
            old(self).spec_exhausted() ==> r is None && *final(self) == *old(self),
            !old(self).spec_exhausted() ==> {
                &&& r == Some((old(self).back - 1) as u32)
                &&& *final(self) == Collection { back: (old(self).back - 1) as u32, ..*old(self) }
            },
    {
        if self.failed || self.front == self.back {
            None
        } else {
            self.back = self.back - 1;
            Some(self.back)
        }
    }

    /// Index of a forward walk after skipping `n` positions: random access by
    /// the remaining length. Skipping past the end exhausts the walk and
    /// yields `None`.
    pub fn nth_index(&mut self, n: u32) -> (r: Option<u32>)
        requires
            old(self).wf(),
        ensures
            final(self).wf(),
            old(self).failed ==> r is None && *final(self) == *old(self),
            !old(self).failed && n < old(self).back - old(self).front ==> {
                &&& r == Some((old(self).front + n) as u32)
                &&& *final(self) == Collection { front: (old(self).front + n + 1) as u32, ..*old(self) }
            },
            !old(self).failed && n >= old(self).back - old(self).front ==> {
                &&& r is None
                &&& *final(self) == Collection { front: old(self).back, ..*old(self) }
            },
    {
        if self.failed {
            None
        } else if n < self.back - self.front {
            let i = self.front + n;
            self.front = i + 1;
            Some(i)
        } else {
            self.front = self.back;
            None
        }
    }

    /// Records that fetching an element failed. The walk is terminated: every
    /// later request for an index yields `None`, so the native accessor is
    /// never re-invoked after an error.
    pub fn record_failure(&mut self)
        requires
            old(self).wf(),
        ensures
            final(self).wf(),
            *final(self) == (Collection { failed: true, ..*old(self) }),
            final(self).spec_exhausted(),
    {
        self.failed = true;
    }
}

/// A forward walk and a backward walk of the same cursor visit exactly the
/// same positions: the index fetched at step `k` from the front equals the
/// index fetched at step `len - 1 - k` from the back, so driving a collection
/// from either end reads the same elements for the same native snapshot.
pub proof fn lemma_bidirectional_consistency(c: Collection)
    requires
        c.wf(),
    ensures
        c.spec_backward_indices() == c.spec_forward_indices().reverse(),
        forall|k: int| 0 <= k < c.spec_forward_indices().len() ==> c.spec_forward_indices()[k]
            == c.spec_backward_indices()[c.spec_forward_indices().len() - 1 - k],
{
    assert(c.spec_backward_indices() =~= c.spec_forward_indices().reverse());
}

} // verus!
