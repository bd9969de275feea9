//! What the state of the server stands for, and what each operation makes of it.

use vstd::prelude::*;

use crate::game::{ChannelPair, ConnectionState};
use crate::ids::Uuid;
use crate::lists::{player_ids, players_without, without, PlayerView};
use crate::payload::json::{ListRoomView, RoomInfoView};
use crate::room::{codes_of_tags, RoomStatus, RoomTag, RoomView, WinnerStatus};

verus! {

/// What the state of the server stands for. `C` is the handle of a data channel.
#[verifier::ext_equal]
pub struct GameView<C> {
    /// The rooms, by identifier.
    pub rooms: Map<Uuid, RoomView>,
    /// The channels of each player.
    pub connections: Map<Uuid, ChannelPair<C>>,
    /// The room that each player is routed to.
    pub player_rooms: Map<Uuid, Uuid>,
    /// The room that each code stands for.
    pub room_codes: Map<Seq<char>, Uuid>,
    /// The players who wait for a random opponent, the longest waiting first.
    pub queue: Seq<PlayerView>,
}

/// A decimal digit.
pub open spec fn digit(d: nat) -> char {
    (48 + d % 10) as char
}

/// The last six decimal digits of a number.
pub open spec fn six_digits(n: nat) -> Seq<char> {
    seq![
        digit(n / 100000),
        digit(n / 10000),
        digit(n / 1000),
        digit(n / 100),
        digit(n / 10),
        digit(n),
    ]
}

/// Whether a text is a room code: the six digits, zero-padded, of a number below a million.
pub open spec fn is_room_code(code: Seq<char>) -> bool {
    exists|n: nat| n < 1_000_000 && code == #[trigger] six_digits(n)
}

/// Where in the list the first player other than `id` stands; the length of the list if nowhere.
pub open spec fn first_other(players: Seq<PlayerView>, id: Uuid) -> nat
    decreases players.len(),
{
    if players.len() == 0 || players[0].id != id {
        0
    } else {
        1 + first_other(players.drop_first(), id)
    }
}

impl<C> ChannelPair<C> {
    /// Whether both channels are there.
    pub open spec fn is_complete(self) -> bool {
        self.reliable is Some && self.unreliable is Some
    }

    /// The pair as it counts once its channels are looked at: connected if both are there.
    pub open spec fn settled(self) -> ChannelPair<C> {
        if self.is_complete() {
            ChannelPair { state: ConnectionState::Connected, ..self }
        } else {
            self
        }
    }
}

impl<C> GameView<C> {
    /// A server without rooms and players.
    pub open spec fn empty() -> GameView<C> {
        GameView {
            rooms: Map::empty(),
            connections: Map::empty(),
            player_rooms: Map::empty(),
            room_codes: Map::empty(),
            queue: Seq::empty(),
        }
    }

    // ---- Looking things up ----

    /// The room that the player is routed to.
    pub open spec fn room_of(self, id: Uuid) -> Option<Uuid> {
        if self.player_rooms.contains_key(id) {
            Some(self.player_rooms[id])
        } else {
            None
        }
    }

    /// Whether the player is routed to a room that exists.
    pub open spec fn in_room(self, id: Uuid) -> bool {
        self.player_rooms.contains_key(id) && self.rooms.contains_key(self.player_rooms[id])
    }

    /// The room that the player is in.
    pub open spec fn own_room(self, id: Uuid) -> RoomView {
        self.rooms[self.player_rooms[id]]
    }

    /// The other players of the player's room, in the order of arrival.
    pub open spec fn peers(self, id: Uuid) -> Seq<Uuid> {
        if self.in_room(id) {
            without(player_ids(self.own_room(id).players), id)
        } else {
            Seq::empty()
        }
    }

    /// The first other player of the player's room.
    pub open spec fn opponent(self, id: Uuid) -> Option<Uuid> {
        if self.peers(id).len() > 0 {
            Some(self.peers(id)[0])
        } else {
            None
        }
    }

    /// The player who owns the room.
    pub open spec fn room_owner(self, room_id: Uuid) -> Option<Uuid> {
        if self.rooms.contains_key(room_id) {
            Some(self.rooms[room_id].owner)
        } else {
            None
        }
    }

    /// Whether the room can be joined without its code.
    pub open spec fn is_public_room(self, room_id: Uuid) -> Option<bool> {
        if self.rooms.contains_key(room_id) {
            Some(self.rooms[room_id].is_public)
        } else {
            None
        }
    }

    /// Whether a match is running in the room.
    pub open spec fn is_playing(self, room_id: Uuid) -> bool {
        self.rooms.contains_key(room_id) && self.rooms[room_id].status == RoomStatus::Playing
    }

    /// The room that a code stands for.
    pub open spec fn room_by_code(self, code: Seq<char>) -> Option<Uuid> {
        if self.room_codes.contains_key(code) {
            Some(self.room_codes[code])
        } else {
            None
        }
    }

    /// The state of the player's connection, if there is one.
    pub open spec fn connection_state(self, id: Uuid) -> Option<ConnectionState> {
        if self.connections.contains_key(id) {
            Some(self.connections[id].state)
        } else {
            None
        }
    }

    /// The player's channels, where there is no connection yet: none.
    pub open spec fn pair_of(self, id: Uuid) -> ChannelPair<C> {
        if self.connections.contains_key(id) {
            self.connections[id]
        } else {
            ChannelPair { reliable: None, unreliable: None, state: ConnectionState::Establishing }
        }
    }

    /// The player's reliable or unreliable channel.
    pub open spec fn channel(self, id: Uuid, reliable: bool) -> Option<C> {
        if reliable {
            self.pair_of(id).reliable
        } else {
            self.pair_of(id).unreliable
        }
    }

    /// The opponent's reliable or unreliable channel.
    pub open spec fn opponent_channel(self, id: Uuid, reliable: bool) -> Option<C> {
        match self.opponent(id) {
            Some(opponent) => self.channel(opponent, reliable),
            None => None,
        }
    }

    /// Those channels of the players that exist, in the order of the players.
    pub open spec fn channels(self, ids: Seq<Uuid>, reliable: bool) -> Seq<C> {
        ids.filter_map(|id: Uuid| self.channel(id, reliable))
    }

    /// The reliable channels of everybody in the room.
    pub open spec fn room_channels(self, room_id: Uuid) -> Seq<C> {
        if self.rooms.contains_key(room_id) {
            self.channels(player_ids(self.rooms[room_id].players), true)
        } else {
            Seq::empty()
        }
    }

    /// Whether some room code is not in use.
    pub open spec fn has_free_code(self) -> bool {
        exists|n: nat| n < 1_000_000 && !self.room_codes.contains_key(#[trigger] six_digits(n))
    }

    // ---- Rooms ----

    /// The state with one room replaced.
    pub open spec fn with_room(self, room_id: Uuid, room: RoomView) -> GameView<C> {
        GameView { rooms: self.rooms.insert(room_id, room), ..self }
    }

    /// Why the player cannot join the room, if they cannot.
    pub open spec fn join_refusal(self, room_id: Uuid, id: Uuid) -> Option<Seq<char>> {
        if !self.rooms.contains_key(room_id) {
            Some("Room not found"@)
        } else {
            self.rooms[room_id].join_refusal(id)
        }
    }

    /// The state after the player asked to join. One who already sits in the room changes nothing.
    pub open spec fn after_join(self, room_id: Uuid, player: PlayerView) -> GameView<C> {
        if self.join_refusal(room_id, player.id) is Some || self.rooms[room_id].has_player(
            player.id,
        ) {
            self
        } else {
            GameView {
                rooms: self.rooms.insert(room_id, self.rooms[room_id].joined(player)),
                player_rooms: self.player_rooms.insert(player.id, room_id),
                ..self
            }
        }
    }

    /// The state after the player left their room. A room without players is gone, and its code.
    pub open spec fn after_leave(self, id: Uuid) -> GameView<C> {
        let room_id = self.player_rooms[id];
        let routes = self.player_rooms.remove(id);
        if !self.player_rooms.contains_key(id) {
            self
        } else if !self.rooms.contains_key(room_id) {
            GameView { player_rooms: routes, ..self }
        } else if self.rooms[room_id].left(id).players.len() == 0 {
            GameView {
                rooms: self.rooms.remove(room_id),
                player_rooms: routes,
                room_codes: self.room_codes.remove(self.rooms[room_id].code),
                ..self
            }
        } else {
            GameView {
                rooms: self.rooms.insert(room_id, self.rooms[room_id].left(id)),
                player_rooms: routes,
                ..self
            }
        }
    }

    /// The state with a new room that its owner sits in.
    pub open spec fn with_new_room(self, room_id: Uuid, room: RoomView) -> GameView<C> {
        GameView {
            rooms: self.rooms.insert(room_id, room),
            player_rooms: self.player_rooms.insert(room.owner, room_id),
            room_codes: self.room_codes.insert(room.code, room_id),
            ..self
        }
    }

    /// Why the player cannot change their rule, if they cannot.
    pub open spec fn rule_refusal(self, id: Uuid, rule: Seq<char>) -> Option<Seq<char>> {
        if !self.player_rooms.contains_key(id) {
            Some("Not in a room"@)
        } else if !self.rooms.contains_key(self.player_rooms[id]) {
            Some("Room not found"@)
        } else if self.own_room(id).status != RoomStatus::Waiting {
            Some("Cannot change rule after match has started"@)
        } else if rule != "tet"@ && rule != "puyo"@ {
            Some("Invalid rule"@)
        } else {
            None
        }
    }

    /// The state after the player asked to change their rule.
    pub open spec fn after_rule(self, id: Uuid, rule: Seq<char>) -> GameView<C> {
        if self.rule_refusal(id, rule) is Some {
            self
        } else {
            self.with_room(self.player_rooms[id], self.own_room(id).with_rule(id, rule))
        }
    }

    /// Why the player cannot say whether they are ready, if they cannot.
    pub open spec fn ready_refusal(self, id: Uuid) -> Option<Seq<char>> {
        if !self.player_rooms.contains_key(id) {
            Some("Not in a room"@)
        } else if !self.rooms.contains_key(self.player_rooms[id]) {
            Some("Room not found"@)
        } else if self.own_room(id).status != RoomStatus::Waiting {
            Some("Cannot change ready state during a match"@)
        } else {
            None
        }
    }

    /// The state after the player said whether they are ready.
    pub open spec fn after_ready(self, id: Uuid, ready: bool) -> GameView<C> {
        if self.ready_refusal(id) is Some {
            self
        } else {
            self.with_room(self.player_rooms[id], self.own_room(id).with_ready(id, ready))
        }
    }

    /// The state after the player reported their round-trip time.
    pub open spec fn after_ping(self, id: Uuid, ping_ms: u32) -> GameView<C> {
        if !self.in_room(id) {
            self
        } else {
            let room = self.own_room(id);
            self.with_room(
                self.player_rooms[id],
                RoomView { pings: room.pings.insert(id, ping_ms), ..room },
            )
        }
    }

    /// Why the player cannot change the room, if they cannot.
    pub open spec fn update_refusal(self, room_id: Uuid, id: Uuid, max_players: u8) -> Option<
        Seq<char>,
    > {
        if !self.rooms.contains_key(room_id) {
            Some("Room not found"@)
        } else if self.rooms[room_id].owner != id {
            Some("Only the room owner can update the room"@)
        } else if max_players < self.rooms[room_id].player_count() {
            Some("Max players cannot be less than current player count"@)
        } else {
            None
        }
    }

    /// The state after the player asked to change the room. Where the owner asks for fewer places
    /// than there are players, the name is changed all the same.
    pub open spec fn after_update(
        self,
        room_id: Uuid,
        id: Uuid,
        room_name: Seq<char>,
        max_players: u8,
        is_public: bool,
        tags: Seq<RoomTag>,
    ) -> GameView<C> {
        let room = self.rooms[room_id];
        if !self.rooms.contains_key(room_id) || room.owner != id {
            self
        } else if max_players < room.player_count() {
            self.with_room(room_id, RoomView { room_name, ..room })
        } else {
            self.with_room(room_id, RoomView { room_name, max_players, is_public, tags, ..room })
        }
    }

    /// Why the player cannot change the match settings, if they cannot.
    pub open spec fn setting_refusal(self, room_id: Uuid, id: Uuid) -> Option<Seq<char>> {
        if !self.rooms.contains_key(room_id) {
            Some("Room not found"@)
        } else if self.rooms[room_id].owner != id {
            Some("Only the room owner can change match settings"@)
        } else {
            None
        }
    }

    /// The state after the player asked to change the match settings.
    pub open spec fn after_setting(
        self,
        room_id: Uuid,
        id: Uuid,
        match_setting: Seq<char>,
    ) -> GameView<C> {
        if self.setting_refusal(room_id, id) is Some {
            self
        } else {
            self.with_room(room_id, RoomView { match_setting, ..self.rooms[room_id] })
        }
    }

    // ---- Matches ----

    /// Why the match of the room cannot start, if it cannot.
    pub open spec fn start_refusal(self, room_id: Uuid) -> Option<Seq<char>> {
        if !self.rooms.contains_key(room_id) {
            Some("Room not found"@)
        } else {
            self.rooms[room_id].start_refusal()
        }
    }

    /// The state after the match of the room was asked to start.
    pub open spec fn after_start(self, room_id: Uuid) -> GameView<C> {
        if self.start_refusal(room_id) is Some {
            self
        } else {
            self.with_room(room_id, self.rooms[room_id].started())
        }
    }

    /// What the death of the player decides.
    pub open spec fn decision(self, id: Uuid) -> WinnerStatus {
        if self.in_room(id) {
            self.own_room(id).decision(id)
        } else {
            WinnerStatus::MatchContinues
        }
    }

    /// The state after the death of the player.
    pub open spec fn after_death(self, id: Uuid) -> GameView<C> {
        if self.in_room(id) {
            self.with_room(self.player_rooms[id], self.own_room(id).after_death(id))
        } else {
            self
        }
    }

    // ---- Random matches ----

    /// Whether somebody other than the player waits for an opponent.
    pub open spec fn has_waiting_opponent(self, id: Uuid) -> bool {
        first_other(self.queue, id) < self.queue.len()
    }

    /// The player who has waited longest, apart from the one given.
    pub open spec fn waiting_opponent(self, id: Uuid) -> PlayerView {
        self.queue[first_other(self.queue, id) as int]
    }

    /// The state with the player waiting, once.
    pub open spec fn after_enqueue(self, player: PlayerView) -> GameView<C> {
        if player_ids(self.queue).contains(player.id) {
            self
        } else {
            GameView { queue: self.queue.push(player), ..self }
        }
    }

    /// The state after the player met the one who has waited longest: both sit in a new room,
    /// which the other owns.
    pub open spec fn after_pairing(
        self,
        player: PlayerView,
        room_id: Uuid,
        code: Seq<char>,
    ) -> GameView<C> {
        let opponent = self.waiting_opponent(player.id);
        GameView { queue: self.queue.remove(first_other(self.queue, player.id) as int), ..self }
            .with_new_room(
            room_id,
            new_room_view(opponent, "Random Match"@, 2, false, Seq::empty(), code),
        ).after_join(room_id, player)
    }

    /// The state with the player no longer waiting.
    pub open spec fn after_cancel(self, id: Uuid) -> GameView<C> {
        GameView { queue: players_without(self.queue, id), ..self }
    }

    // ---- Connections ----

    /// The state with the player's channels replaced.
    pub open spec fn with_pair(self, id: Uuid, pair: ChannelPair<C>) -> GameView<C> {
        GameView { connections: self.connections.insert(id, pair), ..self }
    }

    /// The state with the player's reliable channel there.
    pub open spec fn with_reliable(self, id: Uuid, channel: C) -> GameView<C> {
        self.with_pair(
            id,
            (ChannelPair { reliable: Some(channel), ..self.pair_of(id) }).settled(),
        )
    }

    /// The state with the player's unreliable channel there.
    pub open spec fn with_unreliable(self, id: Uuid, channel: C) -> GameView<C> {
        self.with_pair(
            id,
            (ChannelPair { unreliable: Some(channel), ..self.pair_of(id) }).settled(),
        )
    }

    /// The state with the player's connection marked, if there is one.
    pub open spec fn with_connection_state(self, id: Uuid, state: ConnectionState) -> GameView<C> {
        if self.connections.contains_key(id) {
            self.with_pair(id, ChannelPair { state, ..self.connections[id] })
        } else {
            self
        }
    }

    /// The state without any trace of the player but in rooms that they are not routed to.
    pub open spec fn after_remove(self, id: Uuid) -> GameView<C> {
        (GameView {
            connections: self.connections.remove(id),
            queue: players_without(self.queue, id),
            ..self
        }).after_leave(id)
    }
}

/// A new room, with its owner as the only player.
pub open spec fn new_room_view(
    owner: PlayerView,
    room_name: Seq<char>,
    max_players: u8,
    is_public: bool,
    tags: Seq<RoomTag>,
    code: Seq<char>,
) -> RoomView {
    RoomView {
        status: RoomStatus::Waiting,
        owner: owner.id,
        players: seq![owner],
        room_name,
        max_players,
        is_public,
        tags,
        code,
        match_setting: "{}"@,
        alive_players: Seq::empty(),
        ready_players: Seq::empty(),
        pings: Map::empty(),
    }
}

/// How the room list shows a room.
pub open spec fn list_entry(id: Uuid, room: RoomView) -> ListRoomView {
    ListRoomView {
        id,
        room_name: room.room_name,
        players: room.player_count(),
        max_players: room.max_players,
        locked: false,
        tags: codes_of_tags(room.tags),
    }
}

/// Whether a list shows each listed room once, and nothing else. The order is left open.
pub open spec fn is_room_list(rooms: Map<Uuid, RoomView>, list: Seq<ListRoomView>) -> bool {
    &&& forall|i: int|
        #![trigger list[i]]
        0 <= i < list.len() ==> {
            &&& rooms.contains_key(list[i].id)
            &&& rooms[list[i].id].is_listed()
            &&& list[i] == list_entry(list[i].id, rooms[list[i].id])
        }
    &&& forall|i: int, j: int|
        0 <= i < j < list.len() ==> (#[trigger] list[i]).id != (#[trigger] list[j]).id
    &&& forall|id: Uuid| #[trigger]
        rooms.contains_key(id) && rooms[id].is_listed() ==> exists|i: int|
            0 <= i < list.len() && (#[trigger] list[i]).id == id
}

/// Whether a list holds each entry of a table once, and nothing else. The order is left open.
pub open spec fn is_listing(table: Map<Uuid, u32>, list: Seq<(Uuid, u32)>) -> bool {
    &&& forall|i: int|
        0 <= i < list.len() ==> table.contains_key((#[trigger] list[i]).0) && table[list[i].0]
            == list[i].1
    &&& forall|i: int, j: int|
        0 <= i < j < list.len() ==> (#[trigger] list[i]).0 != (#[trigger] list[j]).0
    &&& forall|id: Uuid| #[trigger]
        table.contains_key(id) ==> exists|i: int| 0 <= i < list.len() && (#[trigger] list[i]).0 == id
}

/// Whether a message tells the state of the room. The order of the round-trip times is left open.
pub open spec fn is_room_info(room_id: Uuid, room: RoomView, info: RoomInfoView) -> bool {
    &&& is_listing(room.pings, info.pings)
    &&& info == RoomInfoView {
        room_id,
        owner_id: room.owner,
        room_name: room.room_name,
        players: room.players,
        max_players: room.max_players,
        tags: codes_of_tags(room.tags),
        match_setting: room.match_setting,
        ready_players: room.ready_players,
        pings: info.pings,
        code: room.code,
        is_public: room.is_public,
    }
}

} // verus!
