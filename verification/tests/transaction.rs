//! The transaction builder and its replay against a mock native transaction.

use discord_game_sdk::error::Error;
use discord_game_sdk::lobby_transaction::{
    LobbyCall, LobbyKind, LobbyTransaction, TransactionReplay,
};

/// A mock native transaction object that records every setter call it
/// receives and answers each with the status it was configured to return.
struct MockNativeTransaction {
    received: Vec<LobbyCall>,
    statuses: Vec<i32>,
}

impl MockNativeTransaction {
    fn accepting_all() -> Self {
        MockNativeTransaction { received: Vec::new(), statuses: Vec::new() }
    }

    fn with_statuses(statuses: Vec<i32>) -> Self {
        MockNativeTransaction { received: Vec::new(), statuses }
    }

    fn perform(&mut self, call: &LobbyCall) -> i32 {
        let status = if self.received.len() < self.statuses.len() {
            self.statuses[self.received.len()]
        } else {
            0
        };
        self.received.push(call.clone());
        status
    }
}

/// Drives a full replay of the transaction against the mock, as the driver
/// around the library does, and returns the outcome.
fn process(tx: &LobbyTransaction, mock: &mut MockNativeTransaction) -> Result<(), Error> {
    let mut replay = TransactionReplay::new(tx.calls());
    while !replay.finished() {
        let status = {
            let call = replay.next_call().expect("unfinished replay must hand out a call");
            mock.perform(call)
        };
        replay.report_status(status);
    }
    replay.outcome()
}

#[test]
fn empty_transaction_processes_trivially() {
    let tx = LobbyTransaction::new();
    let mut mock = MockNativeTransaction::accepting_all();
    assert_eq!(process(&tx, &mut mock), Ok(()));
    assert!(mock.received.is_empty());
}

#[test]
fn scalar_mutations_each_call_once() {
    let mut tx = LobbyTransaction::new();
    tx.kind(LobbyKind::Public).owner(42).capacity(8).locked(true);
    let mut mock = MockNativeTransaction::accepting_all();
    assert_eq!(process(&tx, &mut mock), Ok(()));
    assert_eq!(
        mock.received,
        vec![
            LobbyCall::SetKind(LobbyKind::Public),
            LobbyCall::SetOwner(42),
            LobbyCall::SetCapacity(8),
            LobbyCall::SetLocked(true),
        ]
    );
}

#[test]
fn unset_fields_issue_no_call() {
    let mut tx = LobbyTransaction::new();
    tx.capacity(5);
    let mut mock = MockNativeTransaction::accepting_all();
    assert_eq!(process(&tx, &mut mock), Ok(()));
    assert_eq!(mock.received, vec![LobbyCall::SetCapacity(5)]);
}

#[test]
fn latest_scalar_mutation_wins() {
    let mut tx = LobbyTransaction::new();
    tx.capacity(5);
    tx.capacity(9);
    let mut mock = MockNativeTransaction::accepting_all();
    assert_eq!(process(&tx, &mut mock), Ok(()));
    assert_eq!(mock.received, vec![LobbyCall::SetCapacity(9)]);
}

#[test]
fn upsert_then_delete_issues_only_the_delete() {
    let mut tx = LobbyTransaction::new();
    tx.add_metadata(b"mode".to_vec(), b"ranked".to_vec());
    tx.delete_metadata(b"mode".to_vec());
    let mut mock = MockNativeTransaction::accepting_all();
    assert_eq!(process(&tx, &mut mock), Ok(()));
    assert_eq!(mock.received, vec![LobbyCall::DeleteMetadata(b"mode\0".to_vec())]);
}

#[test]
fn delete_then_upsert_issues_only_the_upsert() {
    let mut tx = LobbyTransaction::new();
    tx.delete_metadata(b"mode".to_vec());
    tx.add_metadata(b"mode".to_vec(), b"casual".to_vec());
    let mut mock = MockNativeTransaction::accepting_all();
    assert_eq!(process(&tx, &mut mock), Ok(()));
    assert_eq!(
        mock.received,
        vec![LobbyCall::UpsertMetadata(b"mode\0".to_vec(), b"casual\0".to_vec())]
    );
}

#[test]
fn repeated_upsert_keeps_latest_value_once() {
    let mut tx = LobbyTransaction::new();
    tx.add_metadata(b"mode".to_vec(), b"ranked".to_vec());
    tx.add_metadata(b"mode".to_vec(), b"casual".to_vec());
    let mut mock = MockNativeTransaction::accepting_all();
    assert_eq!(process(&tx, &mut mock), Ok(()));
    assert_eq!(
        mock.received,
        vec![LobbyCall::UpsertMetadata(b"mode\0".to_vec(), b"casual\0".to_vec())]
    );
}

#[test]
fn distinct_keys_replay_in_stored_order() {
    let mut tx = LobbyTransaction::new();
    tx.add_metadata(b"alpha".to_vec(), b"1".to_vec());
    tx.add_metadata(b"beta".to_vec(), b"2".to_vec());
    tx.delete_metadata(b"gamma".to_vec());
    let mut mock = MockNativeTransaction::accepting_all();
    assert_eq!(process(&tx, &mut mock), Ok(()));
    assert_eq!(
        mock.received,
        vec![
            LobbyCall::UpsertMetadata(b"alpha\0".to_vec(), b"1\0".to_vec()),
            LobbyCall::UpsertMetadata(b"beta\0".to_vec(), b"2\0".to_vec()),
            LobbyCall::DeleteMetadata(b"gamma\0".to_vec()),
        ]
    );
}

#[test]
fn already_terminated_text_is_not_terminated_again() {
    let mut tx = LobbyTransaction::new();
    tx.add_metadata(b"key\0".to_vec(), b"value\0".to_vec());
    let plan = tx.calls();
    assert_eq!(
        plan,
        vec![LobbyCall::UpsertMetadata(b"key\0".to_vec(), b"value\0".to_vec())]
    );
}

#[test]
fn scalars_replay_before_metadata() {
    let mut tx = LobbyTransaction::new();
    tx.add_metadata(b"k".to_vec(), b"v".to_vec());
    tx.locked(false);
    let mut mock = MockNativeTransaction::accepting_all();
    assert_eq!(process(&tx, &mut mock), Ok(()));
    assert_eq!(
        mock.received,
        vec![
            LobbyCall::SetLocked(false),
            LobbyCall::UpsertMetadata(b"k\0".to_vec(), b"v\0".to_vec()),
        ]
    );
}

#[test]
fn first_failing_status_aborts_the_replay() {
    let mut tx = LobbyTransaction::new();
    tx.kind(LobbyKind::Private).owner(7).capacity(3);
    // The second native call reports "not found"; the third must never occur.
    let mut mock = MockNativeTransaction::with_statuses(vec![0, 9, 0]);
    assert_eq!(process(&tx, &mut mock), Err(Error::NotFound));
    assert_eq!(
        mock.received,
        vec![LobbyCall::SetKind(LobbyKind::Private), LobbyCall::SetOwner(7)]
    );
}

#[test]
fn failing_first_call_applies_nothing_more() {
    let mut tx = LobbyTransaction::new();
    tx.locked(true);
    tx.add_metadata(b"k".to_vec(), b"v".to_vec());
    let mut mock = MockNativeTransaction::with_statuses(vec![27]);
    assert_eq!(process(&tx, &mut mock), Err(Error::NotRunning));
    assert_eq!(mock.received, vec![LobbyCall::SetLocked(true)]);
}

#[test]
fn default_builds_the_empty_transaction() {
    let tx = LobbyTransaction::default();
    assert!(tx.calls().is_empty());
}
