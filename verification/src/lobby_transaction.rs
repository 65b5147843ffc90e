//! Builder that batches lobby mutations and replays them against a native
//! transaction object.
//!
//! A [`LobbyTransaction`] accumulates optional scalar field mutations (kind,
//! owner, capacity, locked flag) and a key-to-mutation mapping for metadata,
//! in which an upsert and a delete of the same key shadow one another: a key
//! occurs at most once, and the latest mutation wins. Keys and values are
//! stored as owned, NUL-terminated copies, ready for the fixed-size buffers
//! of the C ABI; the caller's own text is never altered.
//!
//! Submitting the batch is split along the foreign-call boundary:
//!
//! - [`LobbyTransaction::calls`] computes the replay plan — the exact
//!   sequence of native setter calls the batch denotes: the scalar setters in
//!   a fixed order (kind, owner, capacity, locked), then one metadata call
//!   per mapping entry in stored order;
//! - [`TransactionReplay`] walks that plan one call at a time. The driver
//!   performs each native call and reports its status back; the first
//!   non-success status aborts the remaining replay and becomes the
//!   operation's error. Partial application is an accepted semantics of the
//!   native layer and is not hidden: no rollback is attempted.
//!
//! The ordering of metadata replay across distinct keys follows the stored
//! order of this builder; the native layer documents no ordering requirement,
//! and callers must not rely on one.

use vstd::prelude::*;

use crate::charbuf::{bytes_eq, copy_bytes, nul_terminated, spec_is_terminated, spec_terminated};
use crate::error::{spec_error_of, Error};
use crate::handle::UserID;

verus! {

/// Visibility of a lobby: whether it can be found by search.
#[derive(Clone, Copy, Debug, PartialEq, Eq, Structural)]
pub enum LobbyKind {
    /// The lobby is private: it cannot be found by search.
    Private,
    /// The lobby is public: it can be found by search.
    Public,
}

/// The integer that stands for a lobby kind on the native side.
pub open spec fn spec_lobby_kind_value(k: LobbyKind) -> i32 {
    match k {
        LobbyKind::Private => 1i32,
        LobbyKind::Public => 2i32,
    }
}

impl LobbyKind {
    /// The integer that stands for this kind on the native side.
    pub fn native_value(self) -> (v: i32)
        ensures
            v == spec_lobby_kind_value(self),
    {
        match self {
            LobbyKind::Private => 1,
            LobbyKind::Public => 2,
        }
    }
}

/// One pending metadata mutation: set the key to a value, or delete it.
#[derive(Clone, Debug, PartialEq, Eq)]
pub struct MetadataEntry {
    /// The metadata key, NUL-terminated.
    pub key: Vec<u8>,
    /// `Some(value)` to set the key (value NUL-terminated), `None` to delete
    /// it.
    pub value: Option<Vec<u8>>,
}

impl View for MetadataEntry {
    type V = (Seq<u8>, Option<Seq<u8>>);

    open spec fn view(&self) -> (Seq<u8>, Option<Seq<u8>>) {
        (
            self.key@,
            match self.value {
                Some(v) => Some(v@),
                None => None,
            },
        )
    }
}

/// One native setter call of a transaction replay.
#[derive(Clone, Debug, PartialEq, Eq)]
pub enum LobbyCall {
    /// Set the lobby kind.
    SetKind(LobbyKind),
    /// Set the owning user.
    SetOwner(UserID),
    /// Set the maximum number of members.
    SetCapacity(u32),
    /// Set whether new users may join.
    SetLocked(bool),
    /// Set a metadata key (key and value NUL-terminated).
    UpsertMetadata(Vec<u8>, Vec<u8>),
    /// Delete a metadata key (NUL-terminated).
    DeleteMetadata(Vec<u8>),
}

/// Mathematical image of a [`LobbyCall`], with byte vectors as sequences.
pub enum LobbyCallView {
    SetKind(LobbyKind),
    SetOwner(i64),
    SetCapacity(u32),
    SetLocked(bool),
    UpsertMetadata(Seq<u8>, Seq<u8>),
    DeleteMetadata(Seq<u8>),
}

impl View for LobbyCall {
    type V = LobbyCallView;

    open spec fn view(&self) -> LobbyCallView {
        match self {
            LobbyCall::SetKind(k) => LobbyCallView::SetKind(*k),
            LobbyCall::SetOwner(o) => LobbyCallView::SetOwner(*o),
            LobbyCall::SetCapacity(c) => LobbyCallView::SetCapacity(*c),
            LobbyCall::SetLocked(l) => LobbyCallView::SetLocked(*l),
            LobbyCall::UpsertMetadata(k, v) => LobbyCallView::UpsertMetadata(k@, v@),
            LobbyCall::DeleteMetadata(k) => LobbyCallView::DeleteMetadata(k@),
        }
    }
}

/// Whether a call touches metadata rather than a scalar field.
pub open spec fn spec_is_metadata_call(c: LobbyCallView) -> bool {
    c is UpsertMetadata || c is DeleteMetadata
}

/// Mathematical image of a [`LobbyTransaction`].
pub struct LobbyTransactionView {
    pub kind: Option<LobbyKind>,
    pub owner: Option<UserID>,
    pub capacity: Option<u32>,
    pub locked: Option<bool>,
    /// Pending metadata mutations, in stored order; at most one per key.
    pub metadata: Seq<(Seq<u8>, Option<Seq<u8>>)>,
}

/// Keys of the mapping are pairwise distinct: at most one pending mutation
/// per key.
pub open spec fn spec_keys_distinct(m: Seq<(Seq<u8>, Option<Seq<u8>>)>) -> bool {
    forall|i: int, j: int| 0 <= i < j < m.len() ==> (#[trigger] m[i]).0 != (#[trigger] m[j]).0
}

/// The pending metadata mapping is well formed: keys are pairwise distinct
/// and every stored key and value is NUL-terminated.
pub open spec fn spec_metadata_wf(m: Seq<(Seq<u8>, Option<Seq<u8>>)>) -> bool {
    &&& spec_keys_distinct(m)
    &&& forall|i: int|
        0 <= i < m.len() ==> spec_is_terminated((#[trigger] m[i]).0)
    &&& forall|i: int|
        0 <= i < m.len() ==> ((#[trigger] m[i]).1 matches Some(v) ==> spec_is_terminated(v))
}

/// Whether the mapping holds a mutation for `key`.
pub open spec fn spec_metadata_contains(m: Seq<(Seq<u8>, Option<Seq<u8>>)>, key: Seq<u8>) -> bool {
    exists|i: int| 0 <= i < m.len() && (#[trigger] m[i]).0 == key
}

/// Position of the mutation for `key`.
pub open spec fn spec_metadata_index_of(m: Seq<(Seq<u8>, Option<Seq<u8>>)>, key: Seq<u8>) -> int {
    choose|i: int| 0 <= i < m.len() && (#[trigger] m[i]).0 == key
}

/// The mapping after recording a mutation for `key`: an existing entry for
/// the key is overwritten in place — the latest mutation wins — and a new key
/// is appended.
pub open spec fn spec_upsert(
    m: Seq<(Seq<u8>, Option<Seq<u8>>)>,
    key: Seq<u8>,
    value: Option<Seq<u8>>,
) -> Seq<(Seq<u8>, Option<Seq<u8>>)> {
    if spec_metadata_contains(m, key) {
        m.update(spec_metadata_index_of(m, key), (key, value))
    } else {
        m.push((key, value))
    }
}

/// Batch of pending lobby mutations, replayed on submission.
#[derive(Clone, Debug, PartialEq, Eq)]
pub struct LobbyTransaction {
    /// Pending lobby kind, if set.
    pub kind: Option<LobbyKind>,
    /// Pending owner, if set.
    pub owner: Option<UserID>,
    /// Pending member capacity, if set.
    pub capacity: Option<u32>,
    /// Pending locked flag, if set.
    pub locked: Option<bool>,
    /// Pending metadata mutations, at most one per key, latest wins.
    pub metadata: Vec<MetadataEntry>,
}

impl View for LobbyTransaction {
    type V = LobbyTransactionView;

    open spec fn view(&self) -> LobbyTransactionView {
        LobbyTransactionView {
            kind: self.kind,
            owner: self.owner,
            capacity: self.capacity,
            locked: self.locked,
            metadata: self.metadata@.map_values(|e: MetadataEntry| e@),
        }
    }
}

/// The scalar setter calls a transaction denotes, in replay order: kind,
/// owner, capacity, locked — one call per field that was set.
pub open spec fn spec_scalar_calls(t: LobbyTransactionView) -> Seq<LobbyCallView> {
    (match t.kind {
        Some(k) => seq![LobbyCallView::SetKind(k)],
        None => Seq::empty(),
    }) + (match t.owner {
        Some(o) => seq![LobbyCallView::SetOwner(o)],
        None => Seq::empty(),
    }) + (match t.capacity {
        Some(c) => seq![LobbyCallView::SetCapacity(c)],
        None => Seq::empty(),
    }) + (match t.locked {
        Some(l) => seq![LobbyCallView::SetLocked(l)],
        None => Seq::empty(),
    })
}

/// How many scalar fields of the transaction were set.
pub open spec fn spec_scalar_count(t: LobbyTransactionView) -> int {
    (if t.kind is Some { 1int } else { 0 }) + (if t.owner is Some { 1int } else { 0 }) + (
    if t.capacity is Some { 1int } else { 0 }) + (if t.locked is Some { 1int } else { 0 })
}

/// The native call one metadata mutation denotes.
pub open spec fn spec_metadata_call(e: (Seq<u8>, Option<Seq<u8>>)) -> LobbyCallView {
    match e.1 {
        Some(v) => LobbyCallView::UpsertMetadata(e.0, v),
        None => LobbyCallView::DeleteMetadata(e.0),
    }
}

/// The metadata calls a mapping denotes, one per entry, in stored order.
pub open spec fn spec_metadata_calls(m: Seq<(Seq<u8>, Option<Seq<u8>>)>) -> Seq<LobbyCallView> {
    m.map_values(|e: (Seq<u8>, Option<Seq<u8>>)| spec_metadata_call(e))
}

/// The full replay plan of a transaction: scalar setters first, then the
/// metadata calls.
pub open spec fn spec_calls(t: LobbyTransactionView) -> Seq<LobbyCallView> {
    spec_scalar_calls(t) + spec_metadata_calls(t.metadata)
}

/// The view of an executable plan.
pub open spec fn spec_plan_view(plan: Seq<LobbyCall>) -> Seq<LobbyCallView> {
    plan.map_values(|c: LobbyCall| c@)
}

impl LobbyTransaction {
    /// The batch's bookkeeping is intact: metadata keys distinct, all stored
    /// text NUL-terminated.
    pub open spec fn wf(self) -> bool {
        spec_metadata_wf(self@.metadata)
    }

    /// Builds an empty transaction: no field set, no metadata mutation.
    pub fn new() -> (r: LobbyTransaction)
        ensures
            r.wf(),
            r@.kind is None,
            r@.owner is None,
            r@.capacity is None,
            r@.locked is None,
            r@.metadata == Seq::<(Seq<u8>, Option<Seq<u8>>)>::empty(),
    {
        let r = LobbyTransaction {
            kind: None,
            owner: None,
            capacity: None,
            locked: None,
            metadata: Vec::new(),
        };
        proof {
            assert(r@.metadata =~= Seq::<(Seq<u8>, Option<Seq<u8>>)>::empty());
        }
        r
    }

    /// Marks the lobby as private or public.
    pub fn kind(&mut self, kind: LobbyKind) -> (r: &mut Self)
        requires
            old(self).wf(),
        ensures
            r.wf(),
            r@ == (LobbyTransactionView { kind: Some(kind), ..old(self)@ }),
            *final(self) == *final(r),
    {
        self.kind = Some(kind);
        self
    }

    /// Sets the user owning the lobby.
    pub fn owner(&mut self, user_id: UserID) -> (r: &mut Self)
        requires
            old(self).wf(),
        ensures
            r.wf(),
            r@ == (LobbyTransactionView { owner: Some(user_id), ..old(self)@ }),
            *final(self) == *final(r),
    {
        self.owner = Some(user_id);
        self
    }

    /// Sets the maximum number of players that can join.
    pub fn capacity(&mut self, capacity: u32) -> (r: &mut Self)
        requires
            old(self).wf(),
        ensures
            r.wf(),
            r@ == (LobbyTransactionView { capacity: Some(capacity), ..old(self)@ }),
            *final(self) == *final(r),
    {
        self.capacity = Some(capacity);
        self
    }

    /// Sets whether the lobby is locked; new users cannot join a locked
    /// lobby.
    pub fn locked(&mut self, locked: bool) -> (r: &mut Self)
        requires
            old(self).wf(),
        ensures
            r.wf(),
            r@ == (LobbyTransactionView { locked: Some(locked), ..old(self)@ }),
            *final(self) == *final(r),
    {
        self.locked = Some(locked);
        self
    }

    /// Records that `key` is to be set to `value`, shadowing any earlier
    /// mutation of the same key. Owned, NUL-terminated copies are stored; the
    /// caller's buffers are never altered.
    pub fn add_metadata(&mut self, key: Vec<u8>, value: Vec<u8>) -> (r: &mut Self)
        requires
            old(self).wf(),
        ensures
            r.wf(),
            r@ == (LobbyTransactionView {
                metadata: spec_upsert(
                    old(self)@.metadata,
                    spec_terminated(key@),
                    Some(spec_terminated(value@)),
                ),
                ..old(self)@
            }),
            *final(self) == *final(r),
    {
        let tkey = nul_terminated(&key);
        let tvalue = nul_terminated(&value);
        self.upsert(MetadataEntry { key: tkey, value: Some(tvalue) });
        self
    }

    /// Records that `key` is to be deleted, shadowing any earlier mutation of
    /// the same key. An owned, NUL-terminated copy of the key is stored; the
    /// caller's buffer is never altered.
    pub fn delete_metadata(&mut self, key: Vec<u8>) -> (r: &mut Self)
        requires
            old(self).wf(),
        ensures
            r.wf(),
            r@ == (LobbyTransactionView {
                metadata: spec_upsert(old(self)@.metadata, spec_terminated(key@), None),
                ..old(self)@
            }),
            *final(self) == *final(r),
    {
        let tkey = nul_terminated(&key);
        self.upsert(MetadataEntry { key: tkey, value: None });
        self
    }

    /// Writes `entry` into the mapping, overwriting the entry with the same
    /// key when one exists and appending otherwise.
    fn upsert(&mut self, entry: MetadataEntry)
        requires
            old(self).wf(),
            spec_is_terminated(entry@.0),
            entry@.1 matches Some(v) ==> spec_is_terminated(v),
        ensures
            final(self).wf(),
            final(self)@ == (LobbyTransactionView {
                metadata: spec_upsert(old(self)@.metadata, entry@.0, entry@.1),
                ..old(self)@
            }),
    {
        let ghost m = old(self)@.metadata;
        let ghost key = entry@.0;
        let mut i: usize = 0;
        while i < self.metadata.len()
            invariant
                *self == *old(self),
                i <= self.metadata@.len(),
                m == self@.metadata,
                spec_metadata_wf(m),
                key == entry@.0,
                spec_is_terminated(entry@.0),
                entry@.1 matches Some(v) ==> spec_is_terminated(v),
                forall|j: int| 0 <= j < i ==> (#[trigger] m[j]).0 != key,
            decreases self.metadata@.len() - i,
        {
            let same = bytes_eq(&self.metadata[i].key, &entry.key);
            proof {
                assert(m[i as int] == self.metadata@[i as int]@);
            }
            if same {
                proof {
                    assert(m[i as int].0 == key);
                    assert(spec_metadata_contains(m, key));
                    let k = spec_metadata_index_of(m, key);
                    assert(m[k].0 == key);
                    assert(k == i);
                }
                self.metadata[i] = entry;
                proof {
                    assert(self@.metadata =~= m.update(i as int, (key, entry@.1)));
                    assert(self@.metadata =~= spec_upsert(m, key, entry@.1));
                    assert forall|a: int, b: int|
                        0 <= a < b < self@.metadata.len() implies (#[trigger] self@.metadata[a]).0
                        != (#[trigger] self@.metadata[b]).0 by {
                        assert(m[a].0 == self@.metadata[a].0 && m[b].0 == self@.metadata[b].0);
                    }
                    assert forall|a: int| 0 <= a < self@.metadata.len() implies spec_is_terminated(
                        (#[trigger] self@.metadata[a]).0,
                    ) && ((#[trigger] self@.metadata[a]).1 matches Some(v)
                        ==> spec_is_terminated(v)) by {
                        if a != i {
                            assert(self@.metadata[a] == m[a]);
                        }
                    }
                    assert(spec_metadata_wf(self@.metadata));
                }
                return ;
            }
            i += 1;
        }
        proof {
            assert(!spec_metadata_contains(m, key));
        }
        self.metadata.push(entry);
        proof {
            assert(self@.metadata =~= m.push((key, entry@.1)));
            assert(self@.metadata =~= spec_upsert(m, key, entry@.1));
            assert forall|a: int, b: int|
                0 <= a < b < self@.metadata.len() implies (#[trigger] self@.metadata[a]).0 != (
            #[trigger] self@.metadata[b]).0 by {
                if b < self@.metadata.len() - 1 {
                    assert(self@.metadata[a] == m[a] && self@.metadata[b] == m[b]);
                } else {
                    assert(self@.metadata[a] == m[a]);
                }
            }
            assert(spec_metadata_wf(self@.metadata));
        }
    }

    /// Computes the replay plan: the exact sequence of native setter calls
    /// this batch denotes — one call per scalar field that was set, in the
    /// order kind, owner, capacity, locked, then one call per metadata
    /// mutation in stored order. A batch with no mutations yields the empty
    /// plan.
    pub fn calls(&self) -> (plan: Vec<LobbyCall>)
        ensures
            spec_plan_view(plan@) == spec_calls(self@),
    {
        let mut plan: Vec<LobbyCall> = Vec::new();
        if let Some(k) = self.kind {
            plan.push(LobbyCall::SetKind(k));
        }
        if let Some(o) = self.owner {
            plan.push(LobbyCall::SetOwner(o));
        }
        if let Some(c) = self.capacity {
            plan.push(LobbyCall::SetCapacity(c));
        }
        if let Some(l) = self.locked {
            plan.push(LobbyCall::SetLocked(l));
        }
        proof {
            assert(spec_plan_view(plan@) =~= spec_scalar_calls(self@));
        }
        let ghost scal = spec_scalar_calls(self@);
        let mut i: usize = 0;
        while i < self.metadata.len()
            invariant
                i <= self.metadata@.len(),
                scal == spec_scalar_calls(self@),
                self@.metadata.len() == self.metadata@.len(),
                spec_plan_view(plan@) == scal + spec_metadata_calls(self@.metadata.take(i as int)),
            decreases self.metadata@.len() - i,
        {
            let e = &self.metadata[i];
            match &e.value {
                Some(v) => {
                    plan.push(LobbyCall::UpsertMetadata(copy_bytes(&e.key), copy_bytes(v)));
                },
                None => {
                    plan.push(LobbyCall::DeleteMetadata(copy_bytes(&e.key)));
                },
            }
            i += 1;
            proof {
                let prev = self@.metadata.take(i - 1);
                assert(self@.metadata[i - 1] == self.metadata@[i - 1]@);
                assert(plan@.last()@ == spec_metadata_call(self@.metadata[i - 1]));
                assert(self@.metadata.take(i as int) =~= prev.push(self@.metadata[i - 1]));
                assert(spec_metadata_calls(self@.metadata.take(i as int)) =~= spec_metadata_calls(
                    prev,
                ).push(spec_metadata_call(self@.metadata[i - 1])));
                assert(spec_plan_view(plan@) =~= (scal + spec_metadata_calls(prev)).push(
                    spec_metadata_call(self@.metadata[i - 1]),
                ));
                assert(spec_plan_view(plan@) =~= scal + spec_metadata_calls(
                    self@.metadata.take(i as int),
                ));
            }
        }
        proof {
            assert(self@.metadata.take(self.metadata@.len() as int) =~= self@.metadata);
            assert(spec_plan_view(plan@) =~= spec_calls(self@));
        }
        plan
    }
}

impl Default for LobbyTransaction {
    /// Builds an empty transaction, as [`LobbyTransaction::new`] does.
    fn default() -> (r: LobbyTransaction)
        ensures
            r.wf(),
            r@.kind is None,
            r@.owner is None,
            r@.capacity is None,
            r@.locked is None,
            r@.metadata == Seq::<(Seq<u8>, Option<Seq<u8>>)>::empty(),
    {
        LobbyTransaction::new()
    }
}

/// Walk of a replay plan along the foreign-call boundary.
///
/// The driver repeatedly asks for the next call, performs it natively, and
/// reports the returned status. A non-success status aborts the walk: the
/// remaining calls are never handed out, and the mapped error is the
/// replay's outcome. Calls already performed stay performed — partial
/// application is surfaced, not rolled back.
pub struct TransactionReplay {
    /// The plan being replayed.
    pub plan: Vec<LobbyCall>,
    /// How many calls of the plan succeeded so far.
    pub pos: usize,
    /// The error that aborted the replay, if one did.
    pub failure: Option<Error>,
}

impl TransactionReplay {
    /// The walk's position stays within the plan.
    pub open spec fn wf(self) -> bool {
        self.pos <= self.plan@.len()
    }

    /// The calls performed so far, in order: a prefix of the plan.
    pub open spec fn spec_performed(self) -> Seq<LobbyCallView> {
        spec_plan_view(self.plan@).take(self.pos as int)
    }

    /// Whether the walk is over: every call succeeded, or one failed.
    pub open spec fn spec_finished(self) -> bool {
        self.failure is Some || self.pos == self.plan@.len()
    }

    /// Starts a replay of `plan` from its first call.
    pub fn new(plan: Vec<LobbyCall>) -> (r: TransactionReplay)
        ensures
            r.wf(),
            spec_plan_view(r.plan@) == spec_plan_view(plan@),
            r.pos == 0,
            r.failure is None,
            r.spec_performed() == Seq::<LobbyCallView>::empty(),
    {
        let r = TransactionReplay { plan, pos: 0, failure: None };
        proof {
            assert(r.spec_performed() =~= Seq::<LobbyCallView>::empty());
        }
        r
    }

    /// The next call the driver must perform, or `None` when the walk is
    /// over. Asking does not advance the walk: the call counts as performed
    /// only once its status is reported.
    pub fn next_call(&self) -> (c: Option<&LobbyCall>)
        requires
            self.wf(),
        ensures
            !self.spec_finished() ==> (c matches Some(call) && call@ == spec_plan_view(
                self.plan@,
            )[self.pos as int]),
            self.spec_finished() ==> c is None,
    {
        if self.failure.is_none() && self.pos < self.plan.len() {
            Some(&self.plan[self.pos])
        } else {
            None
        }
    }

    /// Reports the native status of the call last handed out. Status `0`
    /// advances the walk past that call; any other status aborts the replay
    /// with the mapped error, leaving the earlier calls applied.
    pub fn report_status(&mut self, status: i32)
        requires
            old(self).wf(),
            !old(self).spec_finished(),
        ensures
            final(self).wf(),
            final(self).plan == old(self).plan,
            status == 0i32 ==> {
                &&& final(self).pos == old(self).pos + 1
                &&& final(self).failure is None
                &&& final(self).spec_performed() == old(self).spec_performed().push(
                    spec_plan_view(old(self).plan@)[old(self).pos as int],
                )
            },
            status != 0i32 ==> {
                &&& final(self).pos == old(self).pos
                &&& final(self).failure == Some(spec_error_of(status))
                &&& final(self).spec_performed() == old(self).spec_performed()
            },
    {
        if status == 0 {
            assert(self.pos < self.plan.len());
            self.pos = self.pos + 1;
            proof {
                assert(self.spec_performed() =~= old(self).spec_performed().push(
                    spec_plan_view(old(self).plan@)[old(self).pos as int],
                ));
            }
        } else {
            self.failure = Some(Error::from_status(status));
        }
    }

    /// Whether the walk is over.
    pub fn finished(&self) -> (b: bool)
        requires
            self.wf(),
        ensures
            b == self.spec_finished(),
    {
        self.failure.is_some() || self.pos == self.plan.len()
    }

    /// A replay driven to the end without a failure performs every call of
    /// the plan exactly once, in plan order.
    pub proof fn lemma_full_replay_performs_plan(self)
        requires
            self.wf(),
            self.spec_finished(),
            self.failure is None,
        ensures
            self.spec_performed() == spec_plan_view(self.plan@),
    {
        assert(self.spec_performed() =~= spec_plan_view(self.plan@));
    }

    /// The replay's outcome once the walk is over: `Ok` when every call of
    /// the plan succeeded, the aborting error otherwise.
    pub fn outcome(&self) -> (r: Result<(), Error>)
        requires
            self.wf(),
            self.spec_finished(),
        ensures
            self.failure matches Some(e) ==> r == Err::<(), Error>(e),
            self.failure is None ==> r == Ok::<(), Error>(())
                && self.spec_performed() == spec_plan_view(self.plan@),
    {
        match self.failure {
            Some(e) => Err(e),
            None => {
                proof {
                    assert(self.spec_performed() =~= spec_plan_view(self.plan@));
                }
                Ok(())
            },
        }
    }
}

/// Replaying a transaction with scalar mutations only issues exactly one
/// native setter call per field that was set — the matching call, each
/// exactly once — and no metadata call at all.
pub proof fn lemma_scalar_calls_exact(t: LobbyTransactionView)
    requires
        t.metadata.len() == 0,
    ensures
        spec_calls(t).len() == spec_scalar_count(t),
        forall|i: int|
            0 <= i < spec_calls(t).len() ==> !spec_is_metadata_call(#[trigger] spec_calls(t)[i]),
        forall|i: int, j: int|
            0 <= i < j < spec_calls(t).len() ==> #[trigger] spec_calls(t)[i] != #[trigger] spec_calls(
                t,
            )[j],
        t.kind matches Some(k) ==> spec_calls(t).contains(LobbyCallView::SetKind(k)),
        t.owner matches Some(o) ==> spec_calls(t).contains(LobbyCallView::SetOwner(o)),
        t.capacity matches Some(c) ==> spec_calls(t).contains(LobbyCallView::SetCapacity(c)),
        t.locked matches Some(l) ==> spec_calls(t).contains(LobbyCallView::SetLocked(l)),
        forall|i: int|
            0 <= i < spec_calls(t).len() ==> ((#[trigger] spec_calls(t)[i]) matches
                LobbyCallView::SetKind(k) ==> t.kind == Some(k)),
        forall|i: int|
            0 <= i < spec_calls(t).len() ==> ((#[trigger] spec_calls(t)[i]) matches
                LobbyCallView::SetOwner(o) ==> t.owner == Some(o)),
        forall|i: int|
            0 <= i < spec_calls(t).len() ==> ((#[trigger] spec_calls(t)[i]) matches
                LobbyCallView::SetCapacity(c) ==> t.capacity == Some(c)),
        forall|i: int|
            0 <= i < spec_calls(t).len() ==> ((#[trigger] spec_calls(t)[i]) matches
                LobbyCallView::SetLocked(l) ==> t.locked == Some(l)),
{
    assert(spec_metadata_calls(t.metadata) =~= Seq::<LobbyCallView>::empty());
    assert(spec_calls(t) =~= spec_scalar_calls(t));
    let nk: int = if t.kind is Some { 1 } else { 0 };
    let no: int = if t.owner is Some { 1 } else { 0 };
    let nc: int = if t.capacity is Some { 1 } else { 0 };
    if let Some(k) = t.kind {
        assert(spec_calls(t)[0] == LobbyCallView::SetKind(k));
        assert(spec_calls(t).contains(LobbyCallView::SetKind(k)));
    }
    if let Some(o) = t.owner {
        assert(spec_calls(t)[nk] == LobbyCallView::SetOwner(o));
        assert(spec_calls(t).contains(LobbyCallView::SetOwner(o)));
    }
    if let Some(c) = t.capacity {
        assert(spec_calls(t)[nk + no] == LobbyCallView::SetCapacity(c));
        assert(spec_calls(t).contains(LobbyCallView::SetCapacity(c)));
    }
    if let Some(l) = t.locked {
        assert(spec_calls(t)[nk + no + nc] == LobbyCallView::SetLocked(l));
        assert(spec_calls(t).contains(LobbyCallView::SetLocked(l)));
    }
}

/// One upsert on a mapping with distinct keys leaves exactly one entry for
/// the written key, holding the written mutation; distinctness is preserved,
/// and whether any other key is present does not change.
pub proof fn lemma_upsert_exact(
    m: Seq<(Seq<u8>, Option<Seq<u8>>)>,
    key: Seq<u8>,
    value: Option<Seq<u8>>,
)
    requires
        spec_keys_distinct(m),
    ensures
        spec_keys_distinct(spec_upsert(m, key, value)),
        spec_metadata_contains(spec_upsert(m, key, value), key),
        forall|i: int|
            0 <= i < spec_upsert(m, key, value).len() && (#[trigger] spec_upsert(m, key, value)[i]).0
                == key ==> spec_upsert(m, key, value)[i].1 == value,
        forall|k2: Seq<u8>|
            k2 != key ==> (spec_metadata_contains(spec_upsert(m, key, value), k2)
                == spec_metadata_contains(m, k2)),
{
    let r = spec_upsert(m, key, value);
    if spec_metadata_contains(m, key) {
        let k = spec_metadata_index_of(m, key);
        assert(0 <= k < m.len() && m[k].0 == key);
        assert(r =~= m.update(k, (key, value)));
        assert(r[k].0 == key);
        assert(spec_metadata_contains(r, key));
        assert forall|i: int| 0 <= i < r.len() && (#[trigger] r[i]).0 == key implies r[i].1
            == value by {
            if i != k {
                assert(m[i].0 == key && m[k].0 == key);
            }
        }
        assert forall|k2: Seq<u8>| k2 != key implies (spec_metadata_contains(r, k2)
            == spec_metadata_contains(m, k2)) by {
            if spec_metadata_contains(r, k2) {
                let i = spec_metadata_index_of(r, k2);
                assert(r[i].0 == k2 && i != k);
                assert(m[i].0 == k2);
            }
            if spec_metadata_contains(m, k2) {
                let i = spec_metadata_index_of(m, k2);
                assert(m[i].0 == k2 && i != k);
                assert(r[i].0 == k2);
            }
        }
    } else {
        assert(r =~= m.push((key, value)));
        assert(r[r.len() - 1].0 == key);
        assert(spec_metadata_contains(r, key));
        assert forall|k2: Seq<u8>| k2 != key implies (spec_metadata_contains(r, k2)
            == spec_metadata_contains(m, k2)) by {
            if spec_metadata_contains(r, k2) {
                let i = spec_metadata_index_of(r, k2);
                assert(r[i].0 == k2 && i != r.len() - 1);
                assert(m[i].0 == k2);
            }
            if spec_metadata_contains(m, k2) {
                let i = spec_metadata_index_of(m, k2);
                assert(r[i].0 == k2);
            }
        }
    }
}

/// When the same key is first upserted and then deleted — or the other way
/// round — before the replay, only the later mutation survives: the plan
/// carries exactly one metadata call for that key, and it is the later
/// mutation's call.
pub proof fn lemma_metadata_last_writer_wins(
    m: Seq<(Seq<u8>, Option<Seq<u8>>)>,
    key: Seq<u8>,
    first: Option<Seq<u8>>,
    second: Option<Seq<u8>>,
)
    requires
        spec_keys_distinct(m),
    ensures
        spec_metadata_contains(spec_upsert(spec_upsert(m, key, first), key, second), key),
        forall|i: int|
            0 <= i < spec_upsert(spec_upsert(m, key, first), key, second).len() && (
            #[trigger] spec_upsert(spec_upsert(m, key, first), key, second)[i]).0 == key
                ==> spec_metadata_call(spec_upsert(spec_upsert(m, key, first), key, second)[i])
                == spec_metadata_call((key, second)),
        forall|i: int, j: int|
            0 <= i < j < spec_upsert(spec_upsert(m, key, first), key, second).len() ==> !((
            #[trigger] spec_upsert(spec_upsert(m, key, first), key, second)[i]).0 == key && (
            #[trigger] spec_upsert(spec_upsert(m, key, first), key, second)[j]).0 == key),
{
    lemma_upsert_exact(m, key, first);
    lemma_upsert_exact(spec_upsert(m, key, first), key, second);
    let r = spec_upsert(spec_upsert(m, key, first), key, second);
    assert forall|i: int| 0 <= i < r.len() && (#[trigger] r[i]).0 == key implies spec_metadata_call(
        r[i],
    ) == spec_metadata_call((key, second)) by {
        assert(r[i].1 == second);
        assert(r[i] == (key, second));
    }
}

} // verus!
