//! The facade: session state, callback bookkeeping, event queues and the
//! collection walks it hands out.

use std::cell::RefCell;
use std::rc::Rc;

use discord_game_sdk::discord::{CollectionSource, CreateFlags, Discord};
use discord_game_sdk::error::{completion_result, Error};
use discord_game_sdk::event::{Event, LobbyDelete, LobbyMessage, LobbyUpdate};
use discord_game_sdk::lobby_transaction::{LobbyKind, LobbyTransaction, TransactionReplay};

type TestCallback = Box<dyn FnOnce(Result<i64, Error>)>;

#[test]
fn new_session_state_is_empty() {
    let discord: Discord<TestCallback> = Discord::new(1234);
    assert_eq!(discord.client_id, 1234);
    assert_eq!(discord.create_flags, CreateFlags::Default);
    assert_eq!(discord.pending_callbacks(), 0);
    assert!(discord.events.lobbies_update.is_empty());
    assert!(discord.events.achievements_update.is_empty());
}

#[test]
fn creation_parameters_carry_identity_flags_and_versions() {
    let discord: Discord<TestCallback> =
        Discord::with_create_flags(77, CreateFlags::NoRequireDiscord);
    let params = discord.create_params();
    assert_eq!(params.client_id, 77);
    assert_eq!(params.flags, 1);
    assert_eq!(params.version, 3);
    assert_eq!(params.lobby_version, 1);
    assert_eq!(params.overlay_version, 2);
    assert_eq!(params.achievement_version, 1);

    let default_params: Discord<TestCallback> = Discord::new(77);
    assert_eq!(default_params.create_params().flags, 0);
}

#[test]
fn native_value_mappings() {
    assert_eq!(CreateFlags::Default.native_value(), 0);
    assert_eq!(CreateFlags::NoRequireDiscord.native_value(), 1);
    assert_eq!(LobbyKind::Private.native_value(), 1);
    assert_eq!(LobbyKind::Public.native_value(), 2);
}

#[test]
fn completion_flow_runs_the_callback_once() {
    let mut discord: Discord<TestCallback> = Discord::new(1);
    let outcome: Rc<RefCell<Option<Result<i64, Error>>>> = Rc::new(RefCell::new(None));

    // Registration happens before the native call is issued and returns
    // immediately; only the token crosses the boundary.
    let outcome_slot = outcome.clone();
    let token = discord.register_callback(Box::new(move |result| {
        *outcome_slot.borrow_mut() = Some(result);
    }));
    assert_eq!(discord.pending_callbacks(), 1);
    assert!(outcome.borrow().is_none(), "the bridge never invokes a callback inline");

    // Later, during a pump, the native layer completes with a status and a
    // payload; the trampoline claims the closure and runs it exactly once.
    let closure = discord.claim_callback(token).expect("completion must find its callback");
    closure(Ok(4242));
    assert_eq!(*outcome.borrow(), Some(Ok(4242)));
    assert_eq!(discord.pending_callbacks(), 0);

    // The same token arriving again finds nothing.
    assert!(discord.claim_callback(token).is_none());
}

#[test]
fn delivered_events_drain_in_arrival_order() {
    let mut discord: Discord<TestCallback> = Discord::new(1);
    discord.deliver_event(Event::LobbiesUpdate(LobbyUpdate { id: 10 }));
    discord.deliver_event(Event::LobbiesUpdate(LobbyUpdate { id: 11 }));
    discord.deliver_event(Event::LobbiesDelete(LobbyDelete { id: 10, reason: 2 }));
    discord.deliver_event(Event::LobbiesMessage(LobbyMessage {
        id: 10,
        user_id: 5,
        buffer: b"hi".to_vec(),
    }));

    let updates = discord.recv_lobbies_update();
    assert_eq!(updates, vec![LobbyUpdate { id: 10 }, LobbyUpdate { id: 11 }]);
    // Draining empties the queue and touches no other queue.
    assert!(discord.recv_lobbies_update().is_empty());
    assert_eq!(discord.recv_lobbies_delete(), vec![LobbyDelete { id: 10, reason: 2 }]);
    let messages = discord.recv_lobbies_message();
    assert_eq!(messages.len(), 1);
    assert_eq!(messages[0].buffer, b"hi".to_vec());
    assert!(discord.recv_lobbies_member_connect().is_empty());
    assert!(discord.recv_lobbies_member_update().is_empty());
    assert!(discord.recv_lobbies_member_disconnect().is_empty());
    assert!(discord.recv_lobbies_speaking().is_empty());
    assert!(discord.recv_lobbies_network_message().is_empty());
    assert!(discord.recv_achievements_update().is_empty());
}

#[test]
fn collection_walks_carry_their_source() {
    let discord: Discord<TestCallback> = Discord::new(1);

    let all = discord.iter_lobbies(3).unwrap();
    assert_eq!(all.source, CollectionSource::Lobbies);
    assert_eq!(all.cursor.count, 3);

    let meta = discord.iter_lobby_metadata(900, 2).unwrap();
    assert_eq!(meta.source, CollectionSource::LobbyMetadata { lobby_id: 900 });

    let members = discord.iter_lobby_member_ids(900, 4).unwrap();
    assert_eq!(members.source, CollectionSource::LobbyMemberIds { lobby_id: 900 });

    let member_meta = discord.iter_lobby_member_metadata(900, 7, 1).unwrap();
    assert_eq!(
        member_meta.source,
        CollectionSource::LobbyMemberMetadata { lobby_id: 900, user_id: 7 }
    );

    assert_eq!(discord.iter_relationships(0).unwrap().source, CollectionSource::Relationships);
    assert_eq!(discord.iter_skus(1).unwrap().source, CollectionSource::Skus);
    assert_eq!(discord.iter_entitlements(2).unwrap().source, CollectionSource::Entitlements);
}

#[test]
fn malformed_native_counts_are_rejected() {
    let discord: Discord<TestCallback> = Discord::new(1);
    assert_eq!(discord.iter_lobbies(-1).err(), Some(Error::Internal));
    assert_eq!(discord.iter_lobby_metadata(9, -5).err(), Some(Error::Internal));
    assert_eq!(discord.iter_skus(i32::MIN).err(), Some(Error::Internal));
}

/// The full data flow: batch mutations, replay them against an accepting
/// native transaction, submit with a bridged callback, and drain the event
/// the native layer raises after completion.
#[test]
fn full_lobby_creation_flow() {
    let mut discord: Discord<TestCallback> = Discord::new(3000);

    let mut tx = LobbyTransaction::new();
    tx.kind(LobbyKind::Public).capacity(4);
    tx.add_metadata(b"mode".to_vec(), b"ranked".to_vec());

    // Replay the batch onto the native transaction object; every call is
    // accepted.
    let mut replay = TransactionReplay::new(tx.calls());
    let mut native_calls = 0;
    while !replay.finished() {
        assert!(replay.next_call().is_some());
        native_calls += 1;
        replay.report_status(0);
    }
    assert_eq!(replay.outcome(), Ok(()));
    assert_eq!(native_calls, 3);

    // Submit together with a completion callback; only a token crosses.
    let created: Rc<RefCell<Option<Result<i64, Error>>>> = Rc::new(RefCell::new(None));
    let slot = created.clone();
    let token = discord.register_callback(Box::new(move |result| {
        *slot.borrow_mut() = Some(result);
    }));

    // During a later pump the native layer completes the call and raises an
    // update event for the new lobby.
    let callback = discord.claim_callback(token).expect("completion finds its callback");
    callback(completion_result(0, 555));
    discord.deliver_event(Event::LobbiesUpdate(LobbyUpdate { id: 555 }));

    assert_eq!(*created.borrow(), Some(Ok(555)));
    assert_eq!(discord.recv_lobbies_update(), vec![LobbyUpdate { id: 555 }]);
}

#[test]
fn walking_a_handed_out_collection() {
    let discord: Discord<TestCallback> = Discord::new(1);
    let mut walk = discord.iter_lobby_member_ids(42, 3).unwrap();
    let mut indices = Vec::new();
    while let Some(i) = walk.cursor.next_index() {
        indices.push(i);
    }
    assert_eq!(indices, vec![0, 1, 2]);
    assert!(walk.cursor.is_exhausted());
}
