//! Queues for asynchronous native events.
//!
//! Besides completions of explicit calls, the native layer raises unsolicited
//! events — a lobby changed, a member joined, a message arrived. The driver
//! receives each one during the callback pump and hands it to
//! [`EventQueues::deliver`], which appends it to the queue of its kind; the
//! caller later drains each queue through the facade's `recv_` methods. No
//! ordering is imposed across queues beyond arrival order within each.

use vstd::prelude::*;

use crate::handle::{LobbyID, UserID};

verus! {

/// An achievement's progress was updated.
#[derive(Clone, Debug, PartialEq, Eq, Structural)]
pub struct AchievementUpdate {
    /// The achievement whose progress changed.
    pub achievement_id: i64,
    /// The user holding the achievement.
    pub user_id: UserID,
    /// Completion in percent, `0..=100`.
    pub percent_complete: u8,
}

/// A lobby was updated.
#[derive(Clone, Copy, Debug, PartialEq, Eq, Structural)]
pub struct LobbyUpdate {
    /// The lobby that changed.
    pub id: LobbyID,
}

/// A lobby was deleted.
#[derive(Clone, Copy, Debug, PartialEq, Eq, Structural)]
pub struct LobbyDelete {
    /// The lobby that was deleted.
    pub id: LobbyID,
    /// The native reason code for the deletion.
    pub reason: u32,
}

/// A member joined a lobby.
#[derive(Clone, Copy, Debug, PartialEq, Eq, Structural)]
pub struct LobbyMemberConnect {
    /// The lobby joined.
    pub id: LobbyID,
    /// The member that joined.
    pub user_id: UserID,
}

/// A lobby member's data was updated.
#[derive(Clone, Copy, Debug, PartialEq, Eq, Structural)]
pub struct LobbyMemberUpdate {
    /// The lobby concerned.
    pub id: LobbyID,
    /// The member whose data changed.
    pub user_id: UserID,
}

/// A member left a lobby.
#[derive(Clone, Copy, Debug, PartialEq, Eq, Structural)]
pub struct LobbyMemberDisconnect {
    /// The lobby left.
    pub id: LobbyID,
    /// The member that left.
    pub user_id: UserID,
}

/// A message was sent to a lobby.
#[derive(Clone, Debug, PartialEq, Eq)]
pub struct LobbyMessage {
    /// The lobby messaged.
    pub id: LobbyID,
    /// The sending member.
    pub user_id: UserID,
    /// The message payload.
    pub buffer: Vec<u8>,
}

/// A member connected to voice started or stopped speaking.
#[derive(Clone, Copy, Debug, PartialEq, Eq, Structural)]
pub struct LobbySpeaking {
    /// The lobby concerned.
    pub id: LobbyID,
    /// The member concerned.
    pub user_id: UserID,
    /// Whether the member is now speaking.
    pub speaking: bool,
}

/// A message arrived on the lobby's networking layer.
#[derive(Clone, Debug, PartialEq, Eq)]
pub struct LobbyNetworkMessage {
    /// The lobby concerned.
    pub id: LobbyID,
    /// The sending member.
    pub user_id: UserID,
    /// The channel the message arrived on.
    pub channel_id: u8,
    /// The message payload.
    pub buffer: Vec<u8>,
}

/// One asynchronous native event, ready to be routed to its queue.
#[derive(Clone, Debug, PartialEq, Eq)]
pub enum Event {
    AchievementsUpdate(AchievementUpdate),
    LobbiesUpdate(LobbyUpdate),
    LobbiesDelete(LobbyDelete),
    LobbiesMemberConnect(LobbyMemberConnect),
    LobbiesMemberUpdate(LobbyMemberUpdate),
    LobbiesMemberDisconnect(LobbyMemberDisconnect),
    LobbiesMessage(LobbyMessage),
    LobbiesSpeaking(LobbySpeaking),
    LobbiesNetworkMessage(LobbyNetworkMessage),
}

/// The buffered events of each kind, in arrival order.
pub struct EventQueues {
    pub achievements_update: Vec<AchievementUpdate>,
    pub lobbies_update: Vec<LobbyUpdate>,
    pub lobbies_delete: Vec<LobbyDelete>,
    pub lobbies_member_connect: Vec<LobbyMemberConnect>,
    pub lobbies_member_update: Vec<LobbyMemberUpdate>,
    pub lobbies_member_disconnect: Vec<LobbyMemberDisconnect>,
    pub lobbies_message: Vec<LobbyMessage>,
    pub lobbies_speaking: Vec<LobbySpeaking>,
    pub lobbies_network_message: Vec<LobbyNetworkMessage>,
}

impl EventQueues {
    /// Every queue is empty.
    pub open spec fn spec_all_empty(self) -> bool {
        &&& self.achievements_update@.len() == 0
        &&& self.lobbies_update@.len() == 0
        &&& self.lobbies_delete@.len() == 0
        &&& self.lobbies_member_connect@.len() == 0
        &&& self.lobbies_member_update@.len() == 0
        &&& self.lobbies_member_disconnect@.len() == 0
        &&& self.lobbies_message@.len() == 0
        &&& self.lobbies_speaking@.len() == 0
        &&& self.lobbies_network_message@.len() == 0
    }

    /// Builds the queues, all empty.
    pub fn new() -> (q: EventQueues)
        ensures
            q.spec_all_empty(),
    {
        EventQueues {
            achievements_update: Vec::new(),
            lobbies_update: Vec::new(),
            lobbies_delete: Vec::new(),
            lobbies_member_connect: Vec::new(),
            lobbies_member_update: Vec::new(),
            lobbies_member_disconnect: Vec::new(),
            lobbies_message: Vec::new(),
            lobbies_speaking: Vec::new(),
            lobbies_network_message: Vec::new(),
        }
    }

    /// Appends `event` to the queue of its kind; every other queue is left
    /// as it was.
    pub fn deliver(&mut self, event: Event)
        ensures
            final(self).achievements_update@ == (match event {
                Event::AchievementsUpdate(u) => old(self).achievements_update@.push(u),
                _ => old(self).achievements_update@,
            }),
            final(self).lobbies_update@ == (match event {
                Event::LobbiesUpdate(u) => old(self).lobbies_update@.push(u),
                _ => old(self).lobbies_update@,
            }),
            final(self).lobbies_delete@ == (match event {
                Event::LobbiesDelete(u) => old(self).lobbies_delete@.push(u),
                _ => old(self).lobbies_delete@,
            }),
            final(self).lobbies_member_connect@ == (match event {
                Event::LobbiesMemberConnect(u) => old(self).lobbies_member_connect@.push(u),
                _ => old(self).lobbies_member_connect@,
            }),
            final(self).lobbies_member_update@ == (match event {
                Event::LobbiesMemberUpdate(u) => old(self).lobbies_member_update@.push(u),
                _ => old(self).lobbies_member_update@,
            }),
            final(self).lobbies_member_disconnect@ == (match event {
                Event::LobbiesMemberDisconnect(u) => old(self).lobbies_member_disconnect@.push(u),
                _ => old(self).lobbies_member_disconnect@,
            }),
            final(self).lobbies_message@ == (match event {
                Event::LobbiesMessage(u) => old(self).lobbies_message@.push(u),
                _ => old(self).lobbies_message@,
            }),
            final(self).lobbies_speaking@ == (match event {
                Event::LobbiesSpeaking(u) => old(self).lobbies_speaking@.push(u),
                _ => old(self).lobbies_speaking@,
            }),
            final(self).lobbies_network_message@ == (match event {
                Event::LobbiesNetworkMessage(u) => old(self).lobbies_network_message@.push(u),
                _ => old(self).lobbies_network_message@,
            }),
    {
        match event {
            Event::AchievementsUpdate(u) => self.achievements_update.push(u),
            Event::LobbiesUpdate(u) => self.lobbies_update.push(u),
            Event::LobbiesDelete(u) => self.lobbies_delete.push(u),
            Event::LobbiesMemberConnect(u) => self.lobbies_member_connect.push(u),
            Event::LobbiesMemberUpdate(u) => self.lobbies_member_update.push(u),
            Event::LobbiesMemberDisconnect(u) => self.lobbies_member_disconnect.push(u),
            Event::LobbiesMessage(u) => self.lobbies_message.push(u),
            Event::LobbiesSpeaking(u) => self.lobbies_speaking.push(u),
            Event::LobbiesNetworkMessage(u) => self.lobbies_network_message.push(u),
        }
    }
}

} // verus!
