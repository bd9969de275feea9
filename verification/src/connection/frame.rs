//! What a binary frame asks for.

use vstd::prelude::*;
use vstd::utf8::encode_utf8;

use crate::codec::{decoded_id, decoded_text, encoded_text, law_text_round_trip, MAX_FIELD_LEN};
use crate::effects::{
    channel_entry, law_channels, law_lookups, law_peers_and_opponent, law_seats, others_in_room,
    reached, sits,
};
use crate::game::Game;
use crate::ids::{uuid_bytes, Uuid};
use crate::laws::{law_relay_reaches_every_peer, law_relay_stays_in_the_room};
use crate::model::GameView;
use crate::payload::common::UuidBytes;
use crate::payload::schema::{
    frame, law_frame_round_trip, wrap_with_opcode, JSONRequestPayload, Opcode, PingPayload, PongPayload,
};

use super::common::{law_relayed_frame_layout, relay_match_frame, relayed, ChannelKind};

verus! {

/// What a frame asks for.
pub enum FrameAction {
    /// Nothing: the frame is too short.
    Ignore,
    /// The frame given goes to the same channel of everybody else in the sender's room.
    RelayToPeers(Vec<u8>),
    /// The frame given goes to the same channel of the opponent.
    RelayToOpponent(Vec<u8>),
    /// The frame given goes back to the sender.
    Answer(Vec<u8>),
    /// The sender has answered a probe.
    PongReceived(UuidBytes),
    /// The text is a request of the JSON layer.
    Request(String),
    /// The sender leaves.
    Close,
    /// The frame does not begin with an opcode.
    UnknownOpcode(u8),
    /// The payload cannot be read.
    Malformed(Opcode),
    /// The channel has no use for the opcode.
    Unhandled(Opcode),
}

/// What an action stands for.
#[verifier::ext_equal]
pub enum FrameActionView {
    Ignore,
    RelayToPeers(Seq<u8>),
    RelayToOpponent(Seq<u8>),
    Answer(Seq<u8>),
    PongReceived(Seq<u8>),
    Request(Seq<char>),
    Close,
    UnknownOpcode(u8),
    Malformed(Opcode),
    Unhandled(Opcode),
}

impl View for FrameAction {
    type V = FrameActionView;

    open spec fn view(&self) -> FrameActionView {
        match self {
            FrameAction::Ignore => FrameActionView::Ignore,
            FrameAction::RelayToPeers(data) => FrameActionView::RelayToPeers(data@),
            FrameAction::RelayToOpponent(data) => FrameActionView::RelayToOpponent(data@),
            FrameAction::Answer(data) => FrameActionView::Answer(data@),
            FrameAction::PongReceived(id) => FrameActionView::PongReceived(id.0@),
            FrameAction::Request(text) => FrameActionView::Request(text@),
            FrameAction::Close => FrameActionView::Close,
            FrameAction::UnknownOpcode(code) => FrameActionView::UnknownOpcode(*code),
            FrameAction::Malformed(op) => FrameActionView::Malformed(*op),
            FrameAction::Unhandled(op) => FrameActionView::Unhandled(*op),
        }
    }
}

/// Whether the first byte marks a match frame.
pub open spec fn is_match_code(code: u8) -> bool {
    0x20 <= code <= 0x3f
}

/// What a frame asks for. Match frames are passed on with the sender's identifier, whatever they
/// hold. Game events on the reliable channel and piece states on the unreliable one are passed on
/// as they are.
pub open spec fn frame_action(data: Seq<u8>, sender: Uuid, kind: ChannelKind) -> FrameActionView {
    let body = data.skip(1);
    if data.len() < 2 {
        FrameActionView::Ignore
    } else if is_match_code(data[0]) {
        FrameActionView::RelayToPeers(relayed(data, sender))
    } else {
        match (Opcode::spec_from_code(data[0]), kind) {
            (None, _) => FrameActionView::UnknownOpcode(data[0]),
            (Some(Opcode::PingPayload), _) => match decoded_id(body) {
                Some(id) => FrameActionView::Answer(frame(Opcode::PongPayload, id)),
                None => FrameActionView::Malformed(Opcode::PingPayload),
            },
            (Some(Opcode::PongPayload), _) => match decoded_id(body) {
                Some(id) => FrameActionView::PongReceived(id),
                None => FrameActionView::Malformed(Opcode::PongPayload),
            },
            (Some(Opcode::ClosePayload), ChannelKind::Reliable) => FrameActionView::Close,
            (Some(Opcode::JSONRequestPayload), ChannelKind::Reliable) => match decoded_text(body) {
                Some(text) => FrameActionView::Request(text),
                None => FrameActionView::Malformed(Opcode::JSONRequestPayload),
            },
            (Some(Opcode::GameEventPayload), ChannelKind::Reliable) => {
                FrameActionView::RelayToOpponent(data)
            },
            (Some(Opcode::PieceStatePayload), ChannelKind::Unreliable) => {
                FrameActionView::RelayToOpponent(data)
            },
            (Some(op), _) => FrameActionView::Unhandled(op),
        }
    }
}

/// Reads a frame that arrived from the sender on a channel of the given kind.
pub fn read_frame(data: &[u8], sender: &Uuid, kind: ChannelKind) -> (action: FrameAction)
    ensures
        action@ == frame_action(data@, *sender, kind),
{
    if data.len() < 2 {
        return FrameAction::Ignore;
    }
    let code: u8 = data[0];
    if code >= 0x20 && code <= 0x3f {
        return FrameAction::RelayToPeers(relay_match_frame(data, sender));
    }
    let op = match Opcode::try_from(code) {
        Ok(op) => op,
        Err(_) => {
            return FrameAction::UnknownOpcode(code);
        },
    };
    let body = vstd::slice::slice_subrange(data, 1, data.len());
    assert(body@ =~= data@.skip(1));
    match op {
        Opcode::PingPayload => match PingPayload::from_binary(body) {
            Ok(ping) => {
                let pong = PongPayload { id: ping.id };
                match pong.to_binary() {
                    Ok(bytes) => FrameAction::Answer(wrap_with_opcode(Opcode::PongPayload, bytes)),
                    Err(_) => FrameAction::Malformed(Opcode::PingPayload),
                }
            },
            Err(_) => FrameAction::Malformed(Opcode::PingPayload),
        },
        Opcode::PongPayload => match PongPayload::from_binary(body) {
            Ok(pong) => FrameAction::PongReceived(pong.id),
            Err(_) => FrameAction::Malformed(Opcode::PongPayload),
        },
        Opcode::ClosePayload if kind.is_reliable() => FrameAction::Close,
        Opcode::JSONRequestPayload if kind.is_reliable() => match JSONRequestPayload::from_binary(
            body,
        ) {
            Ok(request) => FrameAction::Request(request.data),
            Err(_) => FrameAction::Malformed(Opcode::JSONRequestPayload),
        },
        Opcode::GameEventPayload if kind.is_reliable() => FrameAction::RelayToOpponent(
            vstd::slice::slice_to_vec(data),
        ),
        Opcode::PieceStatePayload if !kind.is_reliable() => FrameAction::RelayToOpponent(
            vstd::slice::slice_to_vec(data),
        ),
        other => FrameAction::Unhandled(other),
    }
}

impl<C> GameView<C> {
    /// The channels that a frame of the sender is passed on to: those of the kind that it came on.
    pub open spec fn relay_targets(
        self,
        action: FrameActionView,
        sender: Uuid,
        kind: ChannelKind,
    ) -> Seq<C> {
        let reliable = kind == ChannelKind::Reliable;
        match action {
            FrameActionView::RelayToPeers(_) => self.channels(self.peers(sender), reliable),
            FrameActionView::RelayToOpponent(_) => match self.opponent_channel(sender, reliable) {
                Some(channel) => seq![channel],
                None => Seq::empty(),
            },
            _ => Seq::empty(),
        }
    }
}

impl<C> Game<C> {
    /// The channels that a frame of player `id` is passed on to: those of the kind that it came on,
    /// of everybody else in the room or of the opponent. Frames that ask for something else are
    /// passed on to none.
    pub fn relay_targets(&self, action: &FrameAction, id: &Uuid, kind: ChannelKind) -> (to: Vec<&C>)
        ensures
            to@.unref() == self@.relay_targets(action@, *id, kind),
    {
        match action {
            FrameAction::RelayToPeers(_) => self.get_room_peer_channels(id, kind.is_reliable()),
            FrameAction::RelayToOpponent(_) => {
                let mut to: Vec<&C> = Vec::new();
                match self.get_opponent_channel(id, kind.is_reliable()) {
                    Some(channel) => {
                        to.push(channel);
                        assert(to@.unref() =~= seq![*channel]);
                    },
                    None => {
                        assert(to@.unref() =~= Seq::<C>::empty());
                    },
                }
                to
            },
            _ => {
                let none: Vec<&C> = Vec::new();
                assert(none@.unref() =~= Seq::<C>::empty());
                none
            },
        }
    }
}

/// A probe is answered with its own identifier, on either channel.
pub proof fn law_ping_is_echoed(id: Uuid, sender: Uuid, kind: ChannelKind)
    ensures
        frame_action(frame(Opcode::PingPayload, uuid_bytes(id)), sender, kind)
            == FrameActionView::Answer(frame(Opcode::PongPayload, uuid_bytes(id))),
{
    law_frame_round_trip(Opcode::PingPayload, uuid_bytes(id));
    assert(uuid_bytes(id).take(16) =~= uuid_bytes(id));
}

/// The text of a request arrives on the reliable channel as it was sent.
pub proof fn law_request_arrives(text: Seq<char>, sender: Uuid)
    requires
        encode_utf8(text).len() <= MAX_FIELD_LEN,
    ensures
        frame_action(
            frame(Opcode::JSONRequestPayload, encoded_text(text)),
            sender,
            ChannelKind::Reliable,
        ) == FrameActionView::Request(text),
{
    let body = encoded_text(text);
    law_frame_round_trip(Opcode::JSONRequestPayload, body);
    law_text_round_trip(text, Seq::empty());
    assert(body + Seq::<u8>::empty() =~= body);
    assert(body.len() >= 1);
}

/// The text of a response can be read from its frame as it was written.
pub proof fn law_response_can_be_read(text: Seq<char>)
    requires
        encode_utf8(text).len() <= MAX_FIELD_LEN,
    ensures
        decoded_text(frame(Opcode::JSONResponsePayload, encoded_text(text)).skip(1)) == Some(text),
{
    let body = encoded_text(text);
    law_frame_round_trip(Opcode::JSONResponsePayload, body);
    law_text_round_trip(text, Seq::empty());
    assert(body + Seq::<u8>::empty() =~= body);
}

/// Game events on the reliable channel and piece states on the unreliable one go to the opponent
/// unchanged, whatever they hold. On the other channel each goes nowhere.
pub proof fn law_match_data_is_passed_on_unread(body: Seq<u8>, sender: Uuid)
    requires
        body.len() > 0,
    ensures
        ({
            let event = frame(Opcode::GameEventPayload, body);
            let state = frame(Opcode::PieceStatePayload, body);
            &&& frame_action(event, sender, ChannelKind::Reliable)
                == FrameActionView::RelayToOpponent(event)
            &&& frame_action(state, sender, ChannelKind::Unreliable)
                == FrameActionView::RelayToOpponent(state)
            &&& frame_action(event, sender, ChannelKind::Unreliable) == FrameActionView::Unhandled(
                Opcode::GameEventPayload,
            )
            &&& frame_action(state, sender, ChannelKind::Reliable) == FrameActionView::Unhandled(
                Opcode::PieceStatePayload,
            )
        }),
{
    law_frame_round_trip(Opcode::GameEventPayload, body);
    law_frame_round_trip(Opcode::PieceStatePayload, body);
}

/// Match frames are passed on to the room on either channel, whatever they hold.
pub proof fn law_match_frames_are_relayed(data: Seq<u8>, sender: Uuid, kind: ChannelKind)
    requires
        data.len() >= 2,
        is_match_code(data[0]),
    ensures
        frame_action(data, sender, kind) == FrameActionView::RelayToPeers(relayed(data, sender)),
{
}

/// No opcode stands for a match frame, so neither is ever taken for the other.
pub proof fn law_opcodes_are_no_match_codes(op: Opcode)
    ensures
        !is_match_code(op.spec_code()),
{
}

/// On the unreliable channel there are no requests and nobody leaves.
pub proof fn law_unreliable_channel_has_no_requests(data: Seq<u8>, sender: Uuid)
    ensures
        !(frame_action(data, sender, ChannelKind::Unreliable) is Request),
        !(frame_action(data, sender, ChannelKind::Unreliable) is Close),
{
}

/// A match frame goes to the channels, of the kind that it came on, of all others in the sender's room
/// who have one, in the order of their arrival.
pub proof fn law_match_frame_targets<C>(
    game: GameView<C>,
    data: Seq<u8>,
    sender: Uuid,
    kind: ChannelKind,
)
    requires
        data.len() >= 2,
        0x20 <= data[0] <= 0x3f,
    ensures
        game.relay_targets(frame_action(data, sender, kind), sender, kind) == reached(
            game,
            others_in_room(game, sender),
            kind == ChannelKind::Reliable,
        ),
{
    law_peers_and_opponent(game, sender);
    law_channels(game, game.peers(sender), kind == ChannelKind::Reliable);
}

/// A match frame reaches everybody who sits in the sender's room, is not the sender and has a channel of
/// the kind that it came on, also where they are the only other one.
pub proof fn law_match_frame_reaches_the_others<C>(
    game: GameView<C>,
    data: Seq<u8>,
    sender: Uuid,
    kind: ChannelKind,
    other: Uuid,
    channel: C,
)
    requires
        data.len() >= 2,
        0x20 <= data[0] <= 0x3f,
        game.player_rooms.contains_key(sender),
        game.rooms.contains_key(game.player_rooms[sender]),
        sits(game.rooms[game.player_rooms[sender]], other),
        other != sender,
        channel_entry(game, other, kind == ChannelKind::Reliable) == Some(channel),
    ensures
        game.relay_targets(frame_action(data, sender, kind), sender, kind).contains(channel),
{
    law_seats(game.own_room(sender), other);
    law_lookups(game, other, 0, Seq::empty());
    law_relay_reaches_every_peer(game, sender, kind == ChannelKind::Reliable, other, channel);
}

/// A match frame reaches no other channel than those.
pub proof fn law_match_frame_reaches_nobody_else<C>(
    game: GameView<C>,
    data: Seq<u8>,
    sender: Uuid,
    kind: ChannelKind,
    channel: C,
)
    requires
        data.len() >= 2,
        0x20 <= data[0] <= 0x3f,
        game.relay_targets(frame_action(data, sender, kind), sender, kind).contains(channel),
    ensures
        game.player_rooms.contains_key(sender),
        game.rooms.contains_key(game.player_rooms[sender]),
        exists|other: Uuid|
            {
                &&& #[trigger] sits(game.rooms[game.player_rooms[sender]], other)
                &&& other != sender
                &&& channel_entry(game, other, kind == ChannelKind::Reliable) == Some(channel)
            },
{
    let reliable = kind == ChannelKind::Reliable;
    law_relay_stays_in_the_room(game, sender, reliable, channel);
    let other = choose|id: Uuid| #[trigger]
        game.own_room(sender).has_player(id) && id != sender && game.channel(id, reliable) == Some(
            channel,
        );
    law_seats(game.own_room(sender), other);
    law_lookups(game, other, 0, Seq::empty());
    assert(sits(game.rooms[game.player_rooms[sender]], other));
}

/// A game event on the reliable channel or a piece state on the unreliable one goes to that channel of
/// the first other one in the sender's room, if there is one, and nowhere else.
pub proof fn law_opponent_frame_targets<C>(
    game: GameView<C>,
    data: Seq<u8>,
    sender: Uuid,
    kind: ChannelKind,
)
    requires
        data.len() >= 2,
        data[0] == (if kind == ChannelKind::Reliable {
            0x06u8
        } else {
            0x07u8
        }),
    ensures
        ({
            let targets = game.relay_targets(frame_action(data, sender, kind), sender, kind);
            let others = others_in_room(game, sender);
            if others.len() == 0 {
                targets.len() == 0
            } else {
                match channel_entry(game, others[0], kind == ChannelKind::Reliable) {
                    Some(channel) => targets.len() == 1 && targets[0] == channel,
                    None => targets.len() == 0,
                }
            }
        }),
{
    law_peers_and_opponent(game, sender);
}

/// No other frame is passed on.
pub proof fn law_other_frames_have_no_targets<C>(
    game: GameView<C>,
    data: Seq<u8>,
    sender: Uuid,
    kind: ChannelKind,
)
    requires
        data.len() < 2 || !(0x20 <= data[0] <= 0x3f || data[0] == (if kind
            == ChannelKind::Reliable {
            0x06u8
        } else {
            0x07u8
        })),
    ensures
        game.relay_targets(frame_action(data, sender, kind), sender, kind).len() == 0,
{
}

/// What each first byte means on each channel.
pub proof fn law_frame_meaning(data: Seq<u8>, sender: Uuid, kind: ChannelKind)
    ensures
        ({
            let action = frame_action(data, sender, kind);
            let reliable = kind == ChannelKind::Reliable;
            if data.len() < 2 {
                action is Ignore
            } else if 0x20 <= data[0] <= 0x3f {
                &&& action matches FrameActionView::RelayToPeers(out)
                &&& out.len() == data.len() + 16
                &&& out[0] == data[0]
                &&& out.subrange(1, 17) == uuid_bytes(sender)
                &&& out.subrange(17, out.len() as int) == data.subrange(1, data.len() as int)
            } else if data[0] == 0x01 {
                if data.len() >= 17 {
                    &&& action matches FrameActionView::Answer(out)
                    &&& out.len() == 17
                    &&& out[0] == 0x02
                    &&& out.subrange(1, 17) == data.subrange(1, 17)
                } else {
                    action == FrameActionView::Malformed(Opcode::PingPayload)
                }
            } else if data[0] == 0x02 {
                if data.len() >= 17 {
                    action == FrameActionView::PongReceived(data.subrange(1, 17))
                } else {
                    action == FrameActionView::Malformed(Opcode::PongPayload)
                }
            } else if data[0] == 0x03 && reliable {
                match decoded_text(data.subrange(1, data.len() as int)) {
                    Some(text) => action == FrameActionView::Request(text),
                    None => action == FrameActionView::Malformed(Opcode::JSONRequestPayload),
                }
            } else if data[0] == 0x03 {
                action == FrameActionView::Unhandled(Opcode::JSONRequestPayload)
            } else if data[0] == 0x04 {
                action == FrameActionView::Unhandled(Opcode::JSONResponsePayload)
            } else if data[0] == 0x05 && reliable {
                action is Close
            } else if data[0] == 0x05 {
                action == FrameActionView::Unhandled(Opcode::ClosePayload)
            } else if data[0] == 0x06 && !reliable {
                action == FrameActionView::Unhandled(Opcode::GameEventPayload)
            } else if data[0] == 0x07 && reliable {
                action == FrameActionView::Unhandled(Opcode::PieceStatePayload)
            } else if data[0] == 0x06 || data[0] == 0x07 {
                action == FrameActionView::RelayToOpponent(data)
            } else {
                action == FrameActionView::UnknownOpcode(data[0])
            }
        }),
{
    if data.len() >= 2 {
        let body = data.skip(1);
        assert(body =~= data.subrange(1, data.len() as int));
        if data.len() >= 17 {
            assert(body.take(16) =~= data.subrange(1, 17));
            let answer = frame(Opcode::PongPayload, body.take(16));
            assert(answer.subrange(1, 17) =~= data.subrange(1, 17));
        }
        law_relayed_frame_layout(data, sender);
        let out = relayed(data, sender);
        assert(out.skip(17) =~= out.subrange(17, out.len() as int));
    }
}

/// An action stands for what it holds.
pub proof fn law_action_view(action: FrameAction)
    ensures
        match action {
            FrameAction::Ignore => action@ is Ignore,
            FrameAction::RelayToPeers(data) => action@ == FrameActionView::RelayToPeers(data@),
            FrameAction::RelayToOpponent(data) => action@ == FrameActionView::RelayToOpponent(
                data@,
            ),
            FrameAction::Answer(data) => action@ == FrameActionView::Answer(data@),
            FrameAction::PongReceived(id) => action@ == FrameActionView::PongReceived(id.0@),
            FrameAction::Request(text) => action@ == FrameActionView::Request(text@),
            FrameAction::Close => action@ is Close,
            FrameAction::UnknownOpcode(code) => action@ == FrameActionView::UnknownOpcode(code),
            FrameAction::Malformed(op) => action@ == FrameActionView::Malformed(op),
            FrameAction::Unhandled(op) => action@ == FrameActionView::Unhandled(op),
        },
{
}

} // verus!
