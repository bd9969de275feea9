//! What is sent in consequence, relayed match frames, lost connections.

use vstd::prelude::*;
use vstd::string::*;

use crate::game::{ConnectionState, Game, WinnerStatus};
use crate::ids::{into_bytes, uuid_bytes, uuid_bytes_injective, Uuid};
use crate::model::{is_room_info, GameView};
use crate::payload::json::{
    JSONPlayerDisconnectedNotification, JSONWinnerNotification, JsonMessage, MessageView,
};

verus! {

/// The label of the channel that loses nothing.
pub const RELIABLE_CHANNEL_LABEL: &'static str = "reliable-main";

/// The label of the channel that may lose frames.
pub const UNRELIABLE_CHANNEL_LABEL: &'static str = "unreliable-main";

/// How long a lost player is kept, in seconds. A player who comes back within that time, with an
/// offer that carries their identifier, goes on with the match.
pub const RECONNECT_GRACE_SECS: u64 = 3;

/// The two kinds of data channels.
#[derive(Clone, Copy, Debug, PartialEq, Eq, Structural)]
pub enum ChannelKind {
    Reliable,
    Unreliable,
}

impl ChannelKind {
    /// The kind of channel that a label stands for.
    pub open spec fn spec_from_label(label: Seq<char>) -> Option<ChannelKind> {
        if label == RELIABLE_CHANNEL_LABEL@ {
            Some(ChannelKind::Reliable)
        } else if label == UNRELIABLE_CHANNEL_LABEL@ {
            Some(ChannelKind::Unreliable)
        } else {
            None
        }
    }

    /// The kind of channel that a label stands for.
    pub fn from_label(label: &String) -> (kind: Option<ChannelKind>)
        ensures
            kind == ChannelKind::spec_from_label(label@),
    {
        if *label == RELIABLE_CHANNEL_LABEL.to_string() {
            Some(ChannelKind::Reliable)
        } else if *label == UNRELIABLE_CHANNEL_LABEL.to_string() {
            Some(ChannelKind::Unreliable)
        } else {
            None
        }
    }

    /// Whether the channel loses nothing.
    pub fn is_reliable(self) -> (reliable: bool)
        ensures
            reliable == (self == ChannelKind::Reliable),
    {
        match self {
            ChannelKind::Reliable => true,
            ChannelKind::Unreliable => false,
        }
    }
}

/// How far a peer connection is.
#[derive(Clone, Copy, Debug, PartialEq, Eq, Structural)]
pub enum PeerState {
    Unspecified,
    New,
    Connecting,
    Connected,
    Disconnected,
    Failed,
    Closed,
}

impl PeerState {
    /// Whether the player counts as lost. A connection that is only interrupted may recover, so it
    /// does not count.
    pub fn is_terminal(self) -> (terminal: bool)
        ensures
            terminal == (self == PeerState::Failed || self == PeerState::Closed),
    {
        match self {
            PeerState::Failed | PeerState::Closed => true,
            _ => false,
        }
    }
}

/// A match frame as it is passed on: the sender's identifier stands behind the first byte.
pub open spec fn relayed(data: Seq<u8>, sender: Uuid) -> Seq<u8> {
    seq![data[0]] + uuid_bytes(sender) + data.skip(1)
}

/// Puts the sender's identifier behind the first byte of a match frame.
pub fn relay_match_frame(data: &[u8], sender_id: &Uuid) -> (out: Vec<u8>)
    requires
        data@.len() > 0,
    ensures
        out@ == relayed(data@, *sender_id),
{
    let sender = into_bytes(*sender_id);
    let mut out: Vec<u8> = Vec::new();
    out.push(data[0]);
    let mut i: usize = 0;
    while i < 16
        invariant
            i <= 16,
            data@.len() > 0,
            sender@ == uuid_bytes(*sender_id),
            out@ == seq![data@[0]] + uuid_bytes(*sender_id).take(i as int),
        decreases 16 - i,
    {
        out.push(sender[i]);
        i += 1;
        assert(out@ =~= seq![data@[0]] + uuid_bytes(*sender_id).take(i as int));
    }
    assert(uuid_bytes(*sender_id).take(16) =~= uuid_bytes(*sender_id));
    out.extend_from_slice(vstd::slice::slice_subrange(data, 1, data.len()));
    assert(data@.subrange(1, data@.len() as int) =~= data@.skip(1));
    assert(out@ =~= relayed(data@, *sender_id));
    out
}

/// A relayed frame keeps its first byte and its content, and carries the sender's identifier in
/// sixteen bytes between them.
pub proof fn law_relayed_frame_layout(data: Seq<u8>, sender: Uuid)
    requires
        data.len() > 0,
    ensures
        relayed(data, sender).len() == data.len() + 16,
        relayed(data, sender)[0] == data[0],
        relayed(data, sender).subrange(1, 17) == uuid_bytes(sender),
        relayed(data, sender).skip(17) == data.skip(1),
{
    assert(relayed(data, sender).subrange(1, 17) =~= uuid_bytes(sender));
    assert(relayed(data, sender).skip(17) =~= data.skip(1));
}

/// Frame and sender can both be told from a relayed frame.
pub proof fn law_relaying_loses_nothing(
    data: Seq<u8>,
    sender: Uuid,
    other_data: Seq<u8>,
    other_sender: Uuid,
)
    requires
        data.len() > 0,
        other_data.len() > 0,
        relayed(data, sender) == relayed(other_data, other_sender),
    ensures
        data == other_data,
        sender == other_sender,
{
    law_relayed_frame_layout(data, sender);
    law_relayed_frame_layout(other_data, other_sender);
    uuid_bytes_injective(sender, other_sender);
    assert forall|i: int| 0 <= i < data.len() implies data[i] == other_data[i] by {
        if i > 0 {
            assert(data.skip(1)[i - 1] == other_data.skip(1)[i - 1]);
        }
    }
    assert(data =~= other_data);
}

/// What is to be sent after the answer to a request, in order.
pub enum Followup {
    /// The state of the room, to everybody in it.
    NotifyRoom(Uuid),
    /// A message, to everybody in the room.
    Broadcast(Uuid, JsonMessage),
}

/// What a consequence stands for.
#[verifier::ext_equal]
pub enum FollowupView {
    NotifyRoom(Uuid),
    Broadcast(Uuid, MessageView),
}

impl View for Followup {
    type V = FollowupView;

    open spec fn view(&self) -> FollowupView {
        match self {
            Followup::NotifyRoom(room_id) => FollowupView::NotifyRoom(*room_id),
            Followup::Broadcast(room_id, message) => FollowupView::Broadcast(*room_id, message@),
        }
    }
}

/// What a list of consequences stands for.
pub open spec fn followups_view(followups: Seq<Followup>) -> Seq<FollowupView> {
    followups.map_values(|followup: Followup| followup@)
}

/// No consequences.
pub(crate) fn no_followups() -> (followups: Vec<Followup>)
    ensures
        followups_view(followups@) == Seq::<FollowupView>::empty(),
{
    let followups: Vec<Followup> = Vec::new();
    assert(followups_view(followups@) =~= Seq::<FollowupView>::empty());
    followups
}

/// One consequence.
pub(crate) fn one_followup(followup: Followup) -> (followups: Vec<Followup>)
    ensures
        followups_view(followups@) == seq![followup@],
{
    let mut followups: Vec<Followup> = Vec::new();
    followups.push(followup);
    assert(followups_view(followups@) =~= seq![followup@]);
    followups
}

/// What the players of a room are told when a match is decided: nothing while the match continues.
pub open spec fn decision_followups(room_id: Uuid, decision: WinnerStatus) -> Seq<FollowupView> {
    match decision {
        WinnerStatus::MatchContinues => Seq::empty(),
        WinnerStatus::Winner(id) => seq![
            FollowupView::Broadcast(
                room_id,
                MessageView::WinnerNotification { room_id, winner: Some(id) },
            ),
        ],
        WinnerStatus::Draw => seq![
            FollowupView::Broadcast(
                room_id,
                MessageView::WinnerNotification { room_id, winner: None },
            ),
        ],
    }
}

/// What the players of a room are told when a match is decided: nothing while the match continues.
pub(crate) fn tell_decision(room_id: Uuid, decision: WinnerStatus) -> (followups: Vec<Followup>)
    ensures
        followups_view(followups@) == decision_followups(room_id, decision),
{
    let winner = match decision {
        WinnerStatus::MatchContinues => {
            return no_followups();
        },
        WinnerStatus::Winner(id) => Some(id),
        WinnerStatus::Draw => None,
    };
    one_followup(
        Followup::Broadcast(
            room_id,
            JsonMessage::JSONWinnerNotification(JSONWinnerNotification { room_id, winner }),
        ),
    )
}

/// What is left to do for a player who was removed.
pub struct Removal<C> {
    /// The reliable channel, to be closed.
    pub reliable: Option<C>,
    /// The unreliable channel, to be closed.
    pub unreliable: Option<C>,
    /// What the others are told.
    pub followups: Vec<Followup>,
}

impl<C> GameView<C> {
    /// Whether the player's connection is lost.
    pub open spec fn is_lost(self, id: Uuid) -> bool {
        self.connection_state(id) == Some(ConnectionState::Disconnected)
    }

    /// Whether the player is in a running match.
    pub open spec fn is_in_match(self, id: Uuid) -> bool {
        self.player_rooms.contains_key(id) && self.is_playing(self.player_rooms[id])
    }

    /// The state after a lost player is removed. In a running match the loss counts as a death.
    pub open spec fn after_loss(self, id: Uuid) -> GameView<C> {
        self.after_death(id).after_remove(id)
    }

    /// What the others are told when a lost player is removed.
    pub open spec fn loss_followups(self, id: Uuid) -> Seq<FollowupView> {
        let room_id = self.player_rooms[id];
        if !self.player_rooms.contains_key(id) {
            Seq::empty()
        } else if !self.is_in_match(id) {
            seq![FollowupView::NotifyRoom(room_id)]
        } else {
            seq![
                FollowupView::NotifyRoom(room_id),
                FollowupView::Broadcast(
                    room_id,
                    MessageView::PlayerDisconnectedNotification { room_id, player_id: id },
                ),
            ] + decision_followups(room_id, self.decision(id))
        }
    }
}

impl<C> Game<C> {
    /// What everybody in the room is told of its state, and the channels that it goes to. `None` if
    /// there is no such room.
    pub fn room_notification(&self, room_id: &Uuid) -> (told: Option<(JsonMessage, Vec<&C>)>)
        ensures
            match told {
                Some((message, channels)) => {
                    &&& self@.rooms.contains_key(*room_id)
                    &&& message@ matches MessageView::RoomInfoNotification(info)
                    &&& is_room_info(*room_id, self@.rooms[*room_id], info)
                    &&& channels@.unref() == self@.room_channels(*room_id)
                },
                None => !self@.rooms.contains_key(*room_id),
            },
    {
        match self.room_info(room_id) {
            None => None,
            Some(info) => Some(
                (
                    JsonMessage::JSONRoomInfoNotification(info),
                    self.get_room_reliable_channels(room_id),
                ),
            ),
        }
    }

    /// Removes a player who leaves of their own accord. Returns the reliable and the unreliable
    /// channel, which are to be closed.
    pub fn close_connection(&mut self, id: Uuid) -> (channels: (Option<C>, Option<C>))
        ensures
            final(self)@ == old(self)@.after_remove(id),
            channels.0 == old(self)@.channel(id, true),
            channels.1 == old(self)@.channel(id, false),
            old(self)@.wf() ==> final(self)@.wf(),
    {
        self.set_connection_state(&id, ConnectionState::Disconnected);
        let channels = self.remove_connection(&id);
        assert(self@.connections =~= old(self)@.connections.remove(id));
        assert(self@ =~= old(self)@.after_remove(id));
        channels
    }

    /// Marks the player's connection as lost. Returns `false`, with nothing changed, if there is no
    /// connection or it is marked already; otherwise `finish_disconnect` is to be called after
    /// `RECONNECT_GRACE_SECS`.
    pub fn begin_disconnect(&mut self, id: Uuid) -> (begun: bool)
        ensures
            begun == (old(self)@.connections.contains_key(id) && !old(self)@.is_lost(id)),
            final(self)@ == (if begun {
                old(self)@.with_connection_state(id, ConnectionState::Disconnected)
            } else {
                old(self)@
            }),
            old(self)@.wf() ==> final(self)@.wf(),
    {
        match self.get_connection_state(&id) {
            None => false,
            Some(state) => {
                if state == ConnectionState::Disconnected {
                    return false;
                }
                self.set_connection_state(&id, ConnectionState::Disconnected);
                true
            },
        }
    }

    /// Removes the player if their connection is still lost. In a running match the loss counts as
    /// a death.
    pub fn finish_disconnect(&mut self, id: Uuid) -> (removal: Option<Removal<C>>)
        ensures
            match removal {
                None => {
                    &&& !old(self)@.is_lost(id)
                    &&& final(self)@ == old(self)@
                },
                Some(removal) => {
                    &&& old(self)@.is_lost(id)
                    &&& final(self)@ == old(self)@.after_loss(id)
                    &&& removal.reliable == old(self)@.channel(id, true)
                    &&& removal.unreliable == old(self)@.channel(id, false)
                    &&& followups_view(removal.followups@) == old(self)@.loss_followups(id)
                },
            },
            old(self)@.wf() ==> final(self)@.wf(),
    {
        match self.get_connection_state(&id) {
            Some(ConnectionState::Disconnected) => {},
            _ => {
                return None;
            },
        }
        let mut followups = no_followups();
        match self.room_of(&id) {
            None => {},
            Some(room_id) => {
                followups.push(Followup::NotifyRoom(room_id));
                let playing = self.is_playing(&room_id);
                let decision = self.record_game_over(&id);
                if playing {
                    followups.push(
                        Followup::Broadcast(
                            room_id,
                            JsonMessage::JSONPlayerDisconnectedNotification(
                                JSONPlayerDisconnectedNotification { room_id, player_id: id },
                            ),
                        ),
                    );
                    let ghost told = followups@;
                    let mut last = tell_decision(room_id, decision);
                    let ghost last_told = last@;
                    followups.append(&mut last);
                    assert(followups_view(followups@) =~= followups_view(told) + followups_view(
                        last_told,
                    ));
                    assert(followups_view(told) =~= seq![
                        FollowupView::NotifyRoom(room_id),
                        FollowupView::Broadcast(
                            room_id,
                            MessageView::PlayerDisconnectedNotification { room_id, player_id: id },
                        ),
                    ]);
                } else {
                    assert(followups_view(followups@) =~= seq![FollowupView::NotifyRoom(room_id)]);
                    assert(self@ =~= old(self)@);
                }
            },
        }
        let (reliable, unreliable) = self.remove_connection(&id);
        Some(Removal { reliable, unreliable, followups })
    }
}

/// The two labels stand for the two kinds of channels, and no other label for any.
pub proof fn law_labels(label: Seq<char>)
    ensures
        label == "reliable-main"@ ==> ChannelKind::spec_from_label(label) == Some(
            ChannelKind::Reliable,
        ),
        label == "unreliable-main"@ ==> ChannelKind::spec_from_label(label) == Some(
            ChannelKind::Unreliable,
        ),
        label != "reliable-main"@ && label != "unreliable-main"@ ==> ChannelKind::spec_from_label(
            label,
        ) is None,
{
    reveal_strlit("reliable-main");
    reveal_strlit("unreliable-main");
    assert("reliable-main"@.len() != "unreliable-main"@.len());
}

/// A consequence stands for what it holds.
pub proof fn law_followup_view(followups: Seq<Followup>, i: int)
    requires
        0 <= i < followups.len(),
    ensures
        followups_view(followups).len() == followups.len(),
        match followups[i] {
            Followup::NotifyRoom(room_id) => followups_view(followups)[i]
                == FollowupView::NotifyRoom(room_id),
            Followup::Broadcast(room_id, message) => followups_view(followups)[i]
                == FollowupView::Broadcast(room_id, message@),
        },
{
}

} // verus!
