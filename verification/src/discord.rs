//! Facade over one native session.
//!
//! A [`Discord`] value is the process-side state of a single native session:
//! the client identifier and creation flags the session was opened with, the
//! registry of in-flight callbacks awaiting native completion, and the queues
//! of asynchronous events not yet drained by the caller. The opaque session
//! handle itself, and every foreign call made with it, live in the unverified
//! driver around this crate; the driver consults this facade for what each
//! call needs (creation parameters, callback tokens, collection cursors) and
//! feeds back what the native layer produced (statuses, events, completion
//! tokens).
//!
//! The facade is parameterized over the stored callback type, which it never
//! inspects. It is single-owner state: nothing here is shared across threads,
//! and a host that pumps callbacks from another thread must synchronize its
//! access to the one owner.

use vstd::prelude::*;

use crate::callbacks::CallbackRegistry;
use crate::collection::Collection;
use crate::error::Error;
use crate::event::{
    AchievementUpdate, Event, EventQueues, LobbyDelete, LobbyMemberConnect, LobbyMemberDisconnect,
    LobbyMemberUpdate, LobbyMessage, LobbyNetworkMessage, LobbySpeaking, LobbyUpdate,
};
use crate::handle::{ClientID, LobbyID, UserID};

verus! {

/// Version of the native ABI this crate is written against.
pub const SDK_VERSION: i32 = 3;

/// Version of the application manager's event table.
pub const APPLICATION_MANAGER_VERSION: i32 = 1;

/// Version of the user manager's event table.
pub const USER_MANAGER_VERSION: i32 = 1;

/// Version of the image manager's event table.
pub const IMAGE_MANAGER_VERSION: i32 = 1;

/// Version of the activity manager's event table.
pub const ACTIVITY_MANAGER_VERSION: i32 = 1;

/// Version of the relationship manager's event table.
pub const RELATIONSHIP_MANAGER_VERSION: i32 = 1;

/// Version of the lobby manager's event table.
pub const LOBBY_MANAGER_VERSION: i32 = 1;

/// Version of the network manager's event table.
pub const NETWORK_MANAGER_VERSION: i32 = 1;

/// Version of the overlay manager's event table.
pub const OVERLAY_MANAGER_VERSION: i32 = 2;

/// Version of the storage manager's event table.
pub const STORAGE_MANAGER_VERSION: i32 = 1;

/// Version of the store manager's event table.
pub const STORE_MANAGER_VERSION: i32 = 1;

/// Version of the voice manager's event table.
pub const VOICE_MANAGER_VERSION: i32 = 1;

/// Version of the achievement manager's event table.
pub const ACHIEVEMENT_MANAGER_VERSION: i32 = 1;

/// How the native session is created.
#[derive(Clone, Copy, Debug, PartialEq, Eq, Structural)]
pub enum CreateFlags {
    /// Require the native client to be running; exit otherwise.
    Default,
    /// Do not require the native client to be running.
    NoRequireDiscord,
}

/// The integer that stands for the creation flags on the native side.
pub open spec fn spec_create_flags_value(f: CreateFlags) -> u64 {
    match f {
        CreateFlags::Default => 0u64,
        CreateFlags::NoRequireDiscord => 1u64,
    }
}

impl CreateFlags {
    /// The integer that stands for these flags on the native side.
    pub fn native_value(self) -> (v: u64)
        ensures
            v == spec_create_flags_value(self),
    {
        match self {
            CreateFlags::Default => 0,
            CreateFlags::NoRequireDiscord => 1,
        }
    }
}

/// Everything the native creation call must be handed, assembled once at
/// session construction: the client identity, the creation flags, and the
/// version of each per-manager event table the session subscribes to.
#[derive(Clone, Copy, Debug, PartialEq, Eq, Structural)]
pub struct CreateParams {
    pub version: i32,
    pub client_id: ClientID,
    pub flags: u64,
    pub application_version: i32,
    pub user_version: i32,
    pub image_version: i32,
    pub activity_version: i32,
    pub relationship_version: i32,
    pub lobby_version: i32,
    pub network_version: i32,
    pub overlay_version: i32,
    pub storage_version: i32,
    pub store_version: i32,
    pub voice_version: i32,
    pub achievement_version: i32,
}

/// Which native list a collection cursor walks, with the identifiers the
/// per-index accessor needs.
#[derive(Clone, Copy, Debug, PartialEq, Eq, Structural)]
pub enum CollectionSource {
    /// Metadata of one lobby.
    LobbyMetadata { lobby_id: LobbyID },
    /// Member ids of one lobby.
    LobbyMemberIds { lobby_id: LobbyID },
    /// Metadata of one member of one lobby.
    LobbyMemberMetadata { lobby_id: LobbyID, user_id: UserID },
    /// The lobbies a completed search returned.
    Lobbies,
    /// The relationships a completed filter retained.
    Relationships,
    /// The fetched SKUs.
    Skus,
    /// The fetched entitlements.
    Entitlements,
}

/// A collection cursor bound to the native list it walks: the cursor decides
/// which position to fetch next, the source says which native accessor the
/// driver must consult for it.
#[derive(Clone, Copy, Debug, PartialEq, Eq, Structural)]
pub struct NativeCollection {
    /// The native list being walked.
    pub source: CollectionSource,
    /// The walk state.
    pub cursor: Collection,
}

/// The fresh, well-formed cursor over `count` elements.
pub open spec fn spec_fresh_cursor(count: i32) -> Collection {
    Collection { count: count as u32, front: 0, back: count as u32, failed: false }
}

/// Process-side state of one native session.
///
/// Dropping the facade before the native layer has completed a registered
/// call drops the pending callbacks with it, without invoking them: a torn
/// down session reports no cancellations.
pub struct Discord<C> {
    /// The client identity the session was created with.
    pub client_id: ClientID,
    /// The creation flags the session was created with.
    pub create_flags: CreateFlags,
    /// In-flight callbacks awaiting native completion.
    pub callbacks: CallbackRegistry<C>,
    /// Buffered asynchronous events, not yet drained.
    pub events: EventQueues,
}

impl<C> Discord<C> {
    /// The facade's bookkeeping is intact.
    pub open spec fn wf(self) -> bool {
        self.callbacks.wf()
    }

    /// Builds the state of a new session created with [`CreateFlags::Default`]:
    /// no callback in flight, no event buffered.
    pub fn new(client_id: ClientID) -> (d: Discord<C>)
        ensures
            d.wf(),
            d.client_id == client_id,
            d.create_flags == CreateFlags::Default,
            d.callbacks.spec_entries() == Seq::<(u64, C)>::empty(),
            d.callbacks.spec_next_token() == 0u64,
            d.events.spec_all_empty(),
    {
        Discord::with_create_flags(client_id, CreateFlags::Default)
    }

    /// Builds the state of a new session created with the given flags: no
    /// callback in flight, no event buffered.
    pub fn with_create_flags(client_id: ClientID, flags: CreateFlags) -> (d: Discord<C>)
        ensures
            d.wf(),
            d.client_id == client_id,
            d.create_flags == flags,
            d.callbacks.spec_entries() == Seq::<(u64, C)>::empty(),
            d.callbacks.spec_next_token() == 0u64,
            d.events.spec_all_empty(),
    {
        Discord {
            client_id,
            create_flags: flags,
            callbacks: CallbackRegistry::new(),
            events: EventQueues::new(),
        }
    }

    /// Assembles the parameters of the native creation call: the session's
    /// client identity and flags, and the version of every manager event
    /// table, as the pinned native revision expects them.
    pub fn create_params(&self) -> (p: CreateParams)
        ensures
            p == (CreateParams {
                version: SDK_VERSION,
                client_id: self.client_id,
                flags: spec_create_flags_value(self.create_flags),
                application_version: APPLICATION_MANAGER_VERSION,
                user_version: USER_MANAGER_VERSION,
                image_version: IMAGE_MANAGER_VERSION,
                activity_version: ACTIVITY_MANAGER_VERSION,
                relationship_version: RELATIONSHIP_MANAGER_VERSION,
                lobby_version: LOBBY_MANAGER_VERSION,
                network_version: NETWORK_MANAGER_VERSION,
                overlay_version: OVERLAY_MANAGER_VERSION,
                storage_version: STORAGE_MANAGER_VERSION,
                store_version: STORE_MANAGER_VERSION,
                voice_version: VOICE_MANAGER_VERSION,
                achievement_version: ACHIEVEMENT_MANAGER_VERSION,
            }),
    {
        CreateParams {
            version: SDK_VERSION,
            client_id: self.client_id,
            flags: self.create_flags.native_value(),
            application_version: APPLICATION_MANAGER_VERSION,
            user_version: USER_MANAGER_VERSION,
            image_version: IMAGE_MANAGER_VERSION,
            activity_version: ACTIVITY_MANAGER_VERSION,
            relationship_version: RELATIONSHIP_MANAGER_VERSION,
            lobby_version: LOBBY_MANAGER_VERSION,
            network_version: NETWORK_MANAGER_VERSION,
            overlay_version: OVERLAY_MANAGER_VERSION,
            storage_version: STORAGE_MANAGER_VERSION,
            store_version: STORE_MANAGER_VERSION,
            voice_version: VOICE_MANAGER_VERSION,
            achievement_version: ACHIEVEMENT_MANAGER_VERSION,
        }
    }

    /// Stores a callback until its native completion arrives and returns the
    /// fresh token that will travel across the boundary in its stead.
    /// Registration happens before the native call that may complete it is
    /// issued, and returns immediately: the callback runs only during a later
    /// pump.
    pub fn register_callback(&mut self, callback: C) -> (token: u64)
        requires
            old(self).wf(),
            old(self).callbacks.spec_next_token() < u64::MAX,
        ensures
            final(self).wf(),
            token == old(self).callbacks.spec_next_token(),
            !old(self).callbacks.spec_contains(token),
            final(self).callbacks.spec_contains(token),
            final(self).callbacks.spec_entries() == old(self).callbacks.spec_entries().push(
                (token, callback),
            ),
            final(self).callbacks.spec_next_token() == token + 1,
            final(self).callbacks.spec_get(token) == callback,
            final(self).client_id == old(self).client_id,
            final(self).create_flags == old(self).create_flags,
            final(self).events == old(self).events,
    {
        self.callbacks.register(callback)
    }

    /// Claims the callback a native completion names, removing it: the
    /// trampoline calls this exactly once per completion, and a token that
    /// arrives twice finds nothing the second time.
    pub fn claim_callback(&mut self, token: u64) -> (r: Option<C>)
        requires
            old(self).wf(),
        ensures
            final(self).wf(),
            !final(self).callbacks.spec_contains(token),
            final(self).callbacks.spec_next_token() == old(self).callbacks.spec_next_token(),
            old(self).callbacks.spec_contains(token) ==> {
                &&& r == Some(old(self).callbacks.spec_get(token))
                &&& final(self).callbacks.spec_entries() == old(
                    self,
                ).callbacks.spec_entries().remove(old(self).callbacks.spec_index_of(token))
            },
            !old(self).callbacks.spec_contains(token) ==> r is None && final(self).callbacks
                == old(self).callbacks,
            final(self).client_id == old(self).client_id,
            final(self).create_flags == old(self).create_flags,
            final(self).events == old(self).events,
    {
        self.callbacks.take(token)
    }

    /// Borrows the callback a token names without removing it: the policy
    /// for filter-style predicates that the native call invokes many times
    /// before returning.
    pub fn borrow_callback(&self, token: u64) -> (r: Option<&C>)
        requires
            self.wf(),
        ensures
            self.callbacks.spec_contains(token) ==> (r matches Some(c) && *c
                == self.callbacks.spec_get(token)),
            !self.callbacks.spec_contains(token) ==> r is None,
    {
        self.callbacks.get(token)
    }

    /// How many callbacks are in flight.
    pub fn pending_callbacks(&self) -> (n: usize)
        ensures
            n == self.callbacks.spec_entries().len(),
    {
        self.callbacks.len()
    }

    /// Buffers one asynchronous native event in the queue of its kind, to be
    /// drained by the matching `recv_` method.
    pub fn deliver_event(&mut self, event: Event)
        ensures
            final(self).client_id == old(self).client_id,
            final(self).create_flags == old(self).create_flags,
            final(self).callbacks == old(self).callbacks,
            final(self).events.achievements_update@ == (match event {
                Event::AchievementsUpdate(u) => old(self).events.achievements_update@.push(u),
                _ => old(self).events.achievements_update@,
            }),
            final(self).events.lobbies_update@ == (match event {
                Event::LobbiesUpdate(u) => old(self).events.lobbies_update@.push(u),
                _ => old(self).events.lobbies_update@,
            }),
            final(self).events.lobbies_delete@ == (match event {
                Event::LobbiesDelete(u) => old(self).events.lobbies_delete@.push(u),
                _ => old(self).events.lobbies_delete@,
            }),
            final(self).events.lobbies_member_connect@ == (match event {
                Event::LobbiesMemberConnect(u) => old(self).events.lobbies_member_connect@.push(u),
                _ => old(self).events.lobbies_member_connect@,
            }),
            final(self).events.lobbies_member_update@ == (match event {
                Event::LobbiesMemberUpdate(u) => old(self).events.lobbies_member_update@.push(u),
                _ => old(self).events.lobbies_member_update@,
            }),
            final(self).events.lobbies_member_disconnect@ == (match event {
                Event::LobbiesMemberDisconnect(u) => old(
                    self,
                ).events.lobbies_member_disconnect@.push(u),
                _ => old(self).events.lobbies_member_disconnect@,
            }),
            final(self).events.lobbies_message@ == (match event {
                Event::LobbiesMessage(u) => old(self).events.lobbies_message@.push(u),
                _ => old(self).events.lobbies_message@,
            }),
            final(self).events.lobbies_speaking@ == (match event {
                Event::LobbiesSpeaking(u) => old(self).events.lobbies_speaking@.push(u),
                _ => old(self).events.lobbies_speaking@,
            }),
            final(self).events.lobbies_network_message@ == (match event {
                Event::LobbiesNetworkMessage(u) => old(self).events.lobbies_network_message@.push(
                    u,
                ),
                _ => old(self).events.lobbies_network_message@,
            }),
    {
        self.events.deliver(event)
    }

    /// Starts a walk over one lobby's metadata. `count` is what the native
    /// metadata count accessor just reported for that lobby; a negative
    /// count is a malformed reply and is rejected.
    pub fn iter_lobby_metadata(&self, lobby_id: LobbyID, count: i32) -> (r: Result<
        NativeCollection,
        Error,
    >)
        ensures
            count >= 0 ==> (r matches Ok(c) && c.source == (CollectionSource::LobbyMetadata {
                lobby_id,
            }) && c.cursor == spec_fresh_cursor(count) && c.cursor.wf()),
            count < 0 ==> r == Err::<NativeCollection, Error>(Error::Internal),
    {
        match Collection::from_native_count(count) {
            Ok(cursor) => Ok(
                NativeCollection { source: CollectionSource::LobbyMetadata { lobby_id }, cursor },
            ),
            Err(e) => Err(e),
        }
    }

    /// Starts a walk over one lobby's member ids. `count` is what the native
    /// member count accessor just reported; a negative count is a malformed
    /// reply and is rejected.
    pub fn iter_lobby_member_ids(&self, lobby_id: LobbyID, count: i32) -> (r: Result<
        NativeCollection,
        Error,
    >)
        ensures
            count >= 0 ==> (r matches Ok(c) && c.source == (CollectionSource::LobbyMemberIds {
                lobby_id,
            }) && c.cursor == spec_fresh_cursor(count) && c.cursor.wf()),
            count < 0 ==> r == Err::<NativeCollection, Error>(Error::Internal),
    {
        match Collection::from_native_count(count) {
            Ok(cursor) => Ok(
                NativeCollection { source: CollectionSource::LobbyMemberIds { lobby_id }, cursor },
            ),
            Err(e) => Err(e),
        }
    }

    /// Starts a walk over one lobby member's metadata. `count` is what the
    /// native member metadata count accessor just reported; a negative count
    /// is a malformed reply and is rejected.
    pub fn iter_lobby_member_metadata(&self, lobby_id: LobbyID, user_id: UserID, count: i32) -> (r:
        Result<NativeCollection, Error>)
        ensures
            count >= 0 ==> (r matches Ok(c) && c.source == (
            CollectionSource::LobbyMemberMetadata { lobby_id, user_id }) && c.cursor
                == spec_fresh_cursor(count) && c.cursor.wf()),
            count < 0 ==> r == Err::<NativeCollection, Error>(Error::Internal),
    {
        match Collection::from_native_count(count) {
            Ok(cursor) => Ok(
                NativeCollection {
                    source: CollectionSource::LobbyMemberMetadata { lobby_id, user_id },
                    cursor,
                },
            ),
            Err(e) => Err(e),
        }
    }

    /// Starts a walk over the lobbies a completed search returned. `count`
    /// is what the native lobby count accessor just reported; a negative
    /// count is a malformed reply and is rejected.
    pub fn iter_lobbies(&self, count: i32) -> (r: Result<NativeCollection, Error>)
        ensures
            count >= 0 ==> (r matches Ok(c) && c.source == CollectionSource::Lobbies && c.cursor
                == spec_fresh_cursor(count) && c.cursor.wf()),
            count < 0 ==> r == Err::<NativeCollection, Error>(Error::Internal),
    {
        match Collection::from_native_count(count) {
            Ok(cursor) => Ok(NativeCollection { source: CollectionSource::Lobbies, cursor }),
            Err(e) => Err(e),
        }
    }

    /// Starts a walk over the relationships a completed filter retained.
    /// `count` is what the native relationship count accessor just reported;
    /// a negative count is a malformed reply and is rejected.
    pub fn iter_relationships(&self, count: i32) -> (r: Result<NativeCollection, Error>)
        ensures
            count >= 0 ==> (r matches Ok(c) && c.source == CollectionSource::Relationships
                && c.cursor == spec_fresh_cursor(count) && c.cursor.wf()),
            count < 0 ==> r == Err::<NativeCollection, Error>(Error::Internal),
    {
        match Collection::from_native_count(count) {
            Ok(cursor) => Ok(NativeCollection { source: CollectionSource::Relationships, cursor }),
            Err(e) => Err(e),
        }
    }

    /// Starts a walk over the fetched SKUs. `count` is what the native SKU
    /// count accessor just reported; a negative count is a malformed reply
    /// and is rejected.
    pub fn iter_skus(&self, count: i32) -> (r: Result<NativeCollection, Error>)
        ensures
            count >= 0 ==> (r matches Ok(c) && c.source == CollectionSource::Skus && c.cursor
                == spec_fresh_cursor(count) && c.cursor.wf()),
            count < 0 ==> r == Err::<NativeCollection, Error>(Error::Internal),
    {
        match Collection::from_native_count(count) {
            Ok(cursor) => Ok(NativeCollection { source: CollectionSource::Skus, cursor }),
            Err(e) => Err(e),
        }
    }

    /// Starts a walk over the fetched entitlements. `count` is what the
    /// native entitlement count accessor just reported; a negative count is
    /// a malformed reply and is rejected.
    pub fn iter_entitlements(&self, count: i32) -> (r: Result<NativeCollection, Error>)
        ensures
            count >= 0 ==> (r matches Ok(c) && c.source == CollectionSource::Entitlements
                && c.cursor == spec_fresh_cursor(count) && c.cursor.wf()),
            count < 0 ==> r == Err::<NativeCollection, Error>(Error::Internal),
    {
        match Collection::from_native_count(count) {
            Ok(cursor) => Ok(NativeCollection { source: CollectionSource::Entitlements, cursor }),
            Err(e) => Err(e),
        }
    }

    /// Drains the buffered achievement updates, in arrival order.
    pub fn recv_achievements_update(&mut self) -> (v: Vec<AchievementUpdate>)
        ensures
            v@ == old(self).events.achievements_update@,
            final(self).events.achievements_update@ == Seq::<AchievementUpdate>::empty(),
            *final(self) == (Discord {
                events: EventQueues {
                    achievements_update: final(self).events.achievements_update,
                    ..old(self).events
                },
                ..*old(self)
            }),
    {
        let mut drained: Vec<AchievementUpdate> = Vec::new();
        core::mem::swap(&mut drained, &mut self.events.achievements_update);
        drained
    }

    /// Drains the buffered lobby updates, in arrival order.
    pub fn recv_lobbies_update(&mut self) -> (v: Vec<LobbyUpdate>)
        ensures
            v@ == old(self).events.lobbies_update@,
            final(self).events.lobbies_update@ == Seq::<LobbyUpdate>::empty(),
            *final(self) == (Discord {
                events: EventQueues {
                    lobbies_update: final(self).events.lobbies_update,
                    ..old(self).events
                },
                ..*old(self)
            }),
    {
        let mut drained: Vec<LobbyUpdate> = Vec::new();
        core::mem::swap(&mut drained, &mut self.events.lobbies_update);
        drained
    }

    /// Drains the buffered lobby deletions, in arrival order.
    pub fn recv_lobbies_delete(&mut self) -> (v: Vec<LobbyDelete>)
        ensures
            v@ == old(self).events.lobbies_delete@,
            final(self).events.lobbies_delete@ == Seq::<LobbyDelete>::empty(),
            *final(self) == (Discord {
                events: EventQueues {
                    lobbies_delete: final(self).events.lobbies_delete,
                    ..old(self).events
                },
                ..*old(self)
            }),
    {
        let mut drained: Vec<LobbyDelete> = Vec::new();
        core::mem::swap(&mut drained, &mut self.events.lobbies_delete);
        drained
    }

    /// Drains the buffered member connections, in arrival order.
    pub fn recv_lobbies_member_connect(&mut self) -> (v: Vec<LobbyMemberConnect>)
        ensures
            v@ == old(self).events.lobbies_member_connect@,
            final(self).events.lobbies_member_connect@ == Seq::<LobbyMemberConnect>::empty(),
            *final(self) == (Discord {
                events: EventQueues {
                    lobbies_member_connect: final(self).events.lobbies_member_connect,
                    ..old(self).events
                },
                ..*old(self)
            }),
    {
        let mut drained: Vec<LobbyMemberConnect> = Vec::new();
        core::mem::swap(&mut drained, &mut self.events.lobbies_member_connect);
        drained
    }

    /// Drains the buffered member updates, in arrival order.
    pub fn recv_lobbies_member_update(&mut self) -> (v: Vec<LobbyMemberUpdate>)
        ensures
            v@ == old(self).events.lobbies_member_update@,
            final(self).events.lobbies_member_update@ == Seq::<LobbyMemberUpdate>::empty(),
            *final(self) == (Discord {
                events: EventQueues {
                    lobbies_member_update: final(self).events.lobbies_member_update,
                    ..old(self).events
                },
                ..*old(self)
            }),
    {
        let mut drained: Vec<LobbyMemberUpdate> = Vec::new();
        core::mem::swap(&mut drained, &mut self.events.lobbies_member_update);
        drained
    }

    /// Drains the buffered member disconnections, in arrival order.
    pub fn recv_lobbies_member_disconnect(&mut self) -> (v: Vec<LobbyMemberDisconnect>)
        ensures
            v@ == old(self).events.lobbies_member_disconnect@,
            final(self).events.lobbies_member_disconnect@ == Seq::<LobbyMemberDisconnect>::empty(),
            *final(self) == (Discord {
                events: EventQueues {
                    lobbies_member_disconnect: final(self).events.lobbies_member_disconnect,
                    ..old(self).events
                },
                ..*old(self)
            }),
    {
        let mut drained: Vec<LobbyMemberDisconnect> = Vec::new();
        core::mem::swap(&mut drained, &mut self.events.lobbies_member_disconnect);
        drained
    }

    /// Drains the buffered lobby messages, in arrival order.
    pub fn recv_lobbies_message(&mut self) -> (v: Vec<LobbyMessage>)
        ensures
            v@ == old(self).events.lobbies_message@,
            final(self).events.lobbies_message@ == Seq::<LobbyMessage>::empty(),
            *final(self) == (Discord {
                events: EventQueues {
                    lobbies_message: final(self).events.lobbies_message,
                    ..old(self).events
                },
                ..*old(self)
            }),
    {
        let mut drained: Vec<LobbyMessage> = Vec::new();
        core::mem::swap(&mut drained, &mut self.events.lobbies_message);
        drained
    }

    /// Drains the buffered speaking changes, in arrival order.
    pub fn recv_lobbies_speaking(&mut self) -> (v: Vec<LobbySpeaking>)
        ensures
            v@ == old(self).events.lobbies_speaking@,
            final(self).events.lobbies_speaking@ == Seq::<LobbySpeaking>::empty(),
            *final(self) == (Discord {
                events: EventQueues {
                    lobbies_speaking: final(self).events.lobbies_speaking,
                    ..old(self).events
                },
                ..*old(self)
            }),
    {
        let mut drained: Vec<LobbySpeaking> = Vec::new();
        core::mem::swap(&mut drained, &mut self.events.lobbies_speaking);
        drained
    }

    /// Drains the buffered network messages, in arrival order.
    pub fn recv_lobbies_network_message(&mut self) -> (v: Vec<LobbyNetworkMessage>)
        ensures
            v@ == old(self).events.lobbies_network_message@,
            final(self).events.lobbies_network_message@ == Seq::<LobbyNetworkMessage>::empty(),
            *final(self) == (Discord {
                events: EventQueues {
                    lobbies_network_message: final(self).events.lobbies_network_message,
                    ..old(self).events
                },
                ..*old(self)
            }),
    {
        let mut drained: Vec<LobbyNetworkMessage> = Vec::new();
        core::mem::swap(&mut drained, &mut self.events.lobbies_network_message);
        drained
    }
}

} // verus!
