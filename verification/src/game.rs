//! The state of the server: rooms, routes, connections and the queue for random matches.

use vstd::hash_map::StringHashMap;
use vstd::prelude::*;
use vstd::std_specs::hash::spec_keys_iter;
use vstd::std_specs::iter::IteratorSpec;
use vstd::string::*;

use std::collections::{HashMap, VecDeque};

use crate::ids::{into_bytes, is_random_uuid, new_v4, uuid_bytes, Uuid};
use crate::lists::{
    lemma_filter_all, lemma_filter_remove, other_than, player_ids, player_other_than, player_view,
    players_view, players_without, without, PlayerView,
};
use crate::model::{
    digit, first_other, is_listing, is_room_code, is_room_info, is_room_list, list_entry,
    new_room_view, six_digits, GameView,
};
pub use crate::room::WinnerStatus;
use crate::payload::json::{list_view, JSONRoomInfoNotification, ListRoomInfo};
use crate::room::{tags_to_codes, Room, RoomStatus, RoomTag, RoomView};
use crate::wellformed::{
    lemma_after_cancel_wf, lemma_after_death_wf, lemma_after_enqueue_wf, lemma_after_join_wf,
    lemma_after_leave_wf, lemma_after_pairing_wf, lemma_after_ping_wf, lemma_after_ready_wf,
    lemma_after_remove_wf, lemma_after_rule_wf, lemma_after_setting_wf, lemma_after_start_wf,
    lemma_after_update_wf, lemma_with_new_room_wf, lemma_with_pair_wf,
};

verus! {

broadcast use {vstd::std_specs::hash::group_hash_axioms, vstd::hash_map::group_hash_map_axioms};

/// What came of asking for a random opponent.
#[derive(Clone, Copy, Debug, PartialEq, Eq, Structural)]
pub enum MatchResult {
    /// The player waits for one.
    Waiting,
    /// The player met one, in a new room.
    Matched { room_id: Uuid, opponent: Uuid },
}

/// How far the connection of a player is.
#[derive(Clone, Copy, Debug, PartialEq, Eq, Structural)]
pub enum ConnectionState {
    Establishing,
    Connected,
    Disconnected,
}

/// The two data channels of a player. `C` is the handle of a data channel.
#[derive(Clone)]
pub struct ChannelPair<C> {
    pub reliable: Option<C>,
    pub unreliable: Option<C>,
    pub state: ConnectionState,
}

/// The tables beside the rooms, which only the operations of `Game` change. `C` is the handle of a
/// data channel.
pub struct Tables<C> {
    /// The channels of each player.
    connections: HashMap<Uuid, ChannelPair<C>>,
    /// The room that each player is routed to, for the relay of match frames.
    player_rooms: HashMap<Uuid, Uuid>,
    /// The room that each code stands for.
    room_codes: StringHashMap<Uuid>,
    /// The players who wait for a random opponent, the longest waiting first.
    matchmaking_queue: VecDeque<(Uuid, String, String)>,
}

/// The state of the server. `C` is the handle of a data channel.
pub struct Game<C> {
    /// The rooms, by identifier.
    pub rooms: HashMap<Uuid, Room>,
    /// Connections, routes, codes and the queue for random matches.
    pub tables: Tables<C>,
}

/// What a table of rooms stands for.
pub open spec fn rooms_view(rooms: Map<Uuid, Room>) -> Map<Uuid, RoomView> {
    rooms.map_values(|room: Room| room@)
}

impl<C> Tables<C> {
    /// What the tables stand for, beside the given rooms.
    pub closed spec fn beside(&self, rooms: Map<Uuid, RoomView>) -> GameView<C> {
        GameView {
            rooms,
            connections: self.connections@,
            player_rooms: self.player_rooms@,
            room_codes: self.room_codes@,
            queue: players_view(self.matchmaking_queue@),
        }
    }
}

impl<C> View for Game<C> {
    type V = GameView<C>;

    open spec fn view(&self) -> GameView<C> {
        self.tables.beside(rooms_view(self.rooms@))
    }
}

/// The rooms of the view are those of the field.
pub proof fn lemma_rooms_field<C>(game: Game<C>)
    ensures
        game@.rooms == rooms_view(game.rooms@),
{
}

/// An edit of the field changes the rooms of the view, and nothing else.
pub proof fn lemma_rooms_edited<C>(before: Game<C>, after: Game<C>)
    requires
        after.tables == before.tables,
    ensures
        after@ == (GameView { rooms: rooms_view(after.rooms@), ..before@ }),
{
}

/// A room that is put into the table or taken out of it is put into the view or taken out of it.
pub proof fn lemma_rooms_view(rooms: Map<Uuid, Room>, room_id: Uuid, room: Room)
    ensures
        rooms_view(rooms.insert(room_id, room)) == rooms_view(rooms).insert(room_id, room@),
        rooms_view(rooms.remove(room_id)) == rooms_view(rooms).remove(room_id),
{
    assert(rooms_view(rooms.insert(room_id, room)) =~= rooms_view(rooms).insert(room_id, room@));
    assert(rooms_view(rooms.remove(room_id)) =~= rooms_view(rooms).remove(room_id));
}

/// What a result with an error message stands for.
pub open spec fn refusal_of<T>(result: Result<T, String>) -> Option<Seq<char>> {
    match result {
        Ok(_) => None,
        Err(message) => Some(message@),
    }
}

/// What an optional reference stands for.
pub open spec fn deref_view<T>(value: Option<&T>) -> Option<T> {
    match value {
        Some(value) => Some(*value),
        None => None,
    }
}

impl<C> Default for Game<C> {
    fn default() -> (game: Self)
        ensures
            game@ == GameView::<C>::empty(),
            game@.wf(),
            game@.has_free_code(),
    {
        let game = Game {
            rooms: HashMap::new(),
            tables: Tables {
                connections: HashMap::new(),
                player_rooms: HashMap::new(),
                room_codes: StringHashMap::new(),
                matchmaking_queue: VecDeque::new(),
            },
        };
        assert(game@ =~= GameView::<C>::empty());
        assert(!game@.room_codes.contains_key(six_digits(0)));
        game
    }
}

impl<C> Game<C> {
    // ---- Connections ----

    /// Takes the player's channels out of the table; new ones if there are none.
    fn take_pair(&mut self, id: Uuid) -> (pair: ChannelPair<C>)
        ensures
            pair == old(self)@.pair_of(id),
            final(self)@ == (GameView {
                connections: old(self)@.connections.remove(id),
                ..old(self)@
            }),
    {
        match self.tables.connections.remove(&id) {
            Some(pair) => pair,
            None => {
                assert(self.tables.connections@.remove(id) =~= self.tables.connections@);
                ChannelPair { reliable: None, unreliable: None, state: ConnectionState::Establishing }
            },
        }
    }

    /// Notes the player's reliable channel.
    pub fn add_reliable_connection(&mut self, player_id: Uuid, dc: C)
        ensures
            final(self)@ == old(self)@.with_reliable(player_id, dc),
            old(self)@.wf() ==> final(self)@.wf(),
    {
        proof {
            if self@.wf() {
                lemma_with_pair_wf(
                    self@,
                    player_id,
                    (ChannelPair { reliable: Some(dc), ..self@.pair_of(player_id) }).settled(),
                );
            }
        }
        let mut pair = self.take_pair(player_id);
        pair.reliable = Some(dc);
        let _ = self.tables.connections.insert(player_id, pair);
        self.check_if_ready(player_id);
        assert(self@ =~= old(self)@.with_reliable(player_id, dc));
    }

    /// Notes the player's unreliable channel.
    pub fn add_unreliable_connection(&mut self, player_id: Uuid, dc: C)
        ensures
            final(self)@ == old(self)@.with_unreliable(player_id, dc),
            old(self)@.wf() ==> final(self)@.wf(),
    {
        proof {
            if self@.wf() {
                lemma_with_pair_wf(
                    self@,
                    player_id,
                    (ChannelPair { unreliable: Some(dc), ..self@.pair_of(player_id) }).settled(),
                );
            }
        }
        let mut pair = self.take_pair(player_id);
        pair.unreliable = Some(dc);
        let _ = self.tables.connections.insert(player_id, pair);
        self.check_if_ready(player_id);
        assert(self@ =~= old(self)@.with_unreliable(player_id, dc));
    }

    /// Counts the player as connected if both channels are there.
    pub fn check_if_ready(&mut self, id: Uuid)
        ensures
            final(self)@ == (if old(self)@.connections.contains_key(id) {
                old(self)@.with_pair(id, old(self)@.connections[id].settled())
            } else {
                old(self)@
            }),
            old(self)@.wf() ==> final(self)@.wf(),
    {
        proof {
            if self@.wf() && self@.connections.contains_key(id) {
                lemma_with_pair_wf(self@, id, self@.connections[id].settled());
            }
        }
        match self.tables.connections.remove(&id) {
            Some(pair) => {
                let mut pair = pair;
                if pair.reliable.is_some() && pair.unreliable.is_some() {
                    pair.state = ConnectionState::Connected;
                }
                let _ = self.tables.connections.insert(id, pair);
                assert(self@ =~= old(self)@.with_pair(id, old(self)@.connections[id].settled()));
            },
            None => {
                assert(self@ =~= old(self)@);
            },
        }
    }

    /// Takes the player out of the connections, the queue and their room. Returns the reliable and
    /// the unreliable channel, which are to be closed.
    pub fn remove_connection(&mut self, player_id: &Uuid) -> (channels: (Option<C>, Option<C>))
        ensures
            final(self)@ == old(self)@.after_remove(*player_id),
            channels.0 == old(self)@.channel(*player_id, true),
            channels.1 == old(self)@.channel(*player_id, false),
            old(self)@.wf() ==> final(self)@.wf(),
    {
        proof {
            if self@.wf() {
                lemma_after_remove_wf(self@, *player_id);
            }
        }
        let id: Uuid = *player_id;
        let pair = self.take_pair(id);
        let _ = self.cancel_random_match(player_id);
        self.leave_room(player_id);
        (pair.reliable, pair.unreliable)
    }

    /// The player's reliable channel.
    pub fn get_reliable_connection(&self, player_id: &Uuid) -> (channel: Option<&C>)
        ensures
            deref_view(channel) == self@.channel(*player_id, true),
    {
        match self.tables.connections.get(player_id) {
            Some(pair) => pair.reliable.as_ref(),
            None => None,
        }
    }

    /// The player's unreliable channel.
    pub fn get_unreliable_connection(&self, player_id: &Uuid) -> (channel: Option<&C>)
        ensures
            deref_view(channel) == self@.channel(*player_id, false),
    {
        match self.tables.connections.get(player_id) {
            Some(pair) => pair.unreliable.as_ref(),
            None => None,
        }
    }

    /// The state of the player's connection, if there is one.
    pub fn get_connection_state(&self, player_id: &Uuid) -> (state: Option<ConnectionState>)
        ensures
            state == self@.connection_state(*player_id),
    {
        match self.tables.connections.get(player_id) {
            Some(pair) => Some(pair.state),
            None => None,
        }
    }

    /// Marks the player's connection, if there is one.
    pub fn set_connection_state(&mut self, player_id: &Uuid, state: ConnectionState)
        ensures
            final(self)@ == old(self)@.with_connection_state(*player_id, state),
            old(self)@.wf() && state != ConnectionState::Connected ==> final(self)@.wf(),
            old(self)@.routes_wf() ==> final(self)@.routes_wf(),
            old(self)@.codes_wf() ==> final(self)@.codes_wf(),
            old(self)@.rooms_wf() ==> final(self)@.rooms_wf(),
            old(self)@.queue.len() <= 1 ==> final(self)@.queue.len() <= 1,
    {
        match self.tables.connections.remove(player_id) {
            Some(pair) => {
                let mut pair = pair;
                pair.state = state;
                let _ = self.tables.connections.insert(*player_id, pair);
                assert(self@ =~= old(self)@.with_connection_state(*player_id, state));
            },
            None => {
                assert(self@ =~= old(self)@);
            },
        }
    }

    /// The identifiers of the other players in the player's room, in the order of arrival.
    pub fn get_room_peers(&self, player_id: &Uuid) -> (peers: Vec<Uuid>)
        ensures
            peers@ == self@.peers(*player_id),
    {
        let mut peers: Vec<Uuid> = Vec::new();
        let id: Uuid = *player_id;
        let room_id: Uuid = match self.tables.player_rooms.get(player_id) {
            Some(room_id) => *room_id,
            None => {
                return peers;
            },
        };
        let room = match self.rooms.get(&room_id) {
            Some(room) => room,
            None => {
                return peers;
            },
        };
        let ghost ids = player_ids(room@.players);
        let mut i: usize = 0;
        proof {
            reveal(Seq::filter);
            assert(ids.take(0) =~= Seq::<Uuid>::empty());
        }
        while i < room.players.len()
            invariant
                i <= room.players@.len(),
                ids == player_ids(room@.players),
                peers@ == without(ids.take(i as int), id),
            decreases room.players@.len() - i,
        {
            proof {
                ids.lemma_take_succ_push(i as int);
                ids.take(i as int).lemma_filter_push(ids[i as int], other_than(id));
            }
            if room.players[i].0 != id {
                peers.push(room.players[i].0);
            }
            i += 1;
        }
        assert(ids.take(i as int) =~= ids);
        peers
    }

    /// The first other player in the player's room: the opponent in a match of two.
    pub fn get_opponent(&self, player_id: &Uuid) -> (opponent: Option<Uuid>)
        ensures
            opponent == self@.opponent(*player_id),
    {
        let peers = self.get_room_peers(player_id);
        if peers.len() > 0 {
            Some(peers[0])
        } else {
            None
        }
    }

    /// The opponent's reliable or unreliable channel.
    pub fn get_opponent_channel(&self, player_id: &Uuid, reliable: bool) -> (channel: Option<&C>)
        ensures
            deref_view(channel) == self@.opponent_channel(*player_id, reliable),
    {
        match self.get_opponent(player_id) {
            None => None,
            Some(opponent) => if reliable {
                self.get_reliable_connection(&opponent)
            } else {
                self.get_unreliable_connection(&opponent)
            },
        }
    }

    /// The reliable or unreliable channels of the players that have one, in the order given.
    fn collect_channels(&self, ids: &Vec<Uuid>, reliable: bool) -> (channels: Vec<&C>)
        ensures
            channels@.unref() == self@.channels(ids@, reliable),
    {
        let mut channels: Vec<&C> = Vec::new();
        let mut i: usize = 0;
        let ghost f = |id: Uuid| self@.channel(id, reliable);
        assert(ids@.take(0) =~= Seq::<Uuid>::empty());
        assert(channels@.unref() =~= ids@.take(0).filter_map(f));
        while i < ids.len()
            invariant
                i <= ids@.len(),
                f == (|id: Uuid| self@.channel(id, reliable)),
                channels@.unref() == ids@.take(i as int).filter_map(f),
            decreases ids@.len() - i,
        {
            let found = if reliable {
                self.get_reliable_connection(&ids[i])
            } else {
                self.get_unreliable_connection(&ids[i])
            };
            proof {
                ids@.lemma_filter_map_take_succ(f, i as int);
            }
            match found {
                Some(channel) => {
                    let ghost before = channels@;
                    channels.push(channel);
                    assert(channels@.unref() =~= before.unref() + seq![*channel]);
                },
                None => {},
            }
            i += 1;
        }
        assert(ids@.take(i as int) =~= ids@);
        channels
    }

    /// The reliable or unreliable channels of the other players in the player's room.
    pub fn get_room_peer_channels(&self, player_id: &Uuid, reliable: bool) -> (channels: Vec<&C>)
        ensures
            channels@.unref() == self@.channels(self@.peers(*player_id), reliable),
    {
        let peers = self.get_room_peers(player_id);
        self.collect_channels(&peers, reliable)
    }

    /// The reliable channels of everybody in the room.
    pub fn get_room_reliable_channels(&self, room_id: &Uuid) -> (channels: Vec<&C>)
        ensures
            channels@.unref() == self@.room_channels(*room_id),
    {
        let room = match self.rooms.get(room_id) {
            Some(room) => room,
            None => {
                let none: Vec<&C> = Vec::new();
                assert(none@.unref() =~= Seq::<C>::empty());
                return none;
            },
        };
        let mut ids: Vec<Uuid> = Vec::new();
        let mut i: usize = 0;
        while i < room.players.len()
            invariant
                i <= room.players@.len(),
                ids@ == player_ids(room@.players).take(i as int),
            decreases room.players@.len() - i,
        {
            ids.push(room.players[i].0);
            i += 1;
            assert(ids@ =~= player_ids(room@.players).take(i as int));
        }
        assert(ids@ =~= player_ids(room@.players));
        self.collect_channels(&ids, true)
    }

    // ---- Rooms ----

    /// The room that the player is routed to.
    pub fn room_of(&self, player_id: &Uuid) -> (room_id: Option<Uuid>)
        ensures
            room_id == self@.room_of(*player_id),
    {
        match self.tables.player_rooms.get(player_id) {
            Some(room_id) => Some(*room_id),
            None => None,
        }
    }

    /// The player who owns the room.
    pub fn room_owner(&self, room_id: &Uuid) -> (owner: Option<Uuid>)
        ensures
            owner == self@.room_owner(*room_id),
    {
        match self.rooms.get(room_id) {
            Some(room) => Some(room.owner),
            None => None,
        }
    }

    /// Whether the room can be joined without its code.
    pub fn is_public_room(&self, room_id: &Uuid) -> (is_public: Option<bool>)
        ensures
            is_public == self@.is_public_room(*room_id),
    {
        match self.rooms.get(room_id) {
            Some(room) => Some(room.is_public),
            None => None,
        }
    }

    /// Whether a match is running in the room.
    pub fn is_playing(&self, room_id: &Uuid) -> (playing: bool)
        ensures
            playing == self@.is_playing(*room_id),
    {
        match self.rooms.get(room_id) {
            Some(room) => room.status == RoomStatus::Playing,
            None => false,
        }
    }

    /// The room that a code stands for.
    pub fn find_room_by_code(&self, code: &str) -> (room_id: Option<Uuid>)
        ensures
            room_id == self@.room_by_code(code@),
    {
        match self.tables.room_codes.get(code) {
            Some(room_id) => Some(*room_id),
            None => None,
        }
    }

    /// Lets the player into the room, if it exists, waits and has a place. One who already sits
    /// there is let in again without any change.
    pub fn add_player_to_room(
        &mut self,
        room_id: Uuid,
        player_id: Uuid,
        username: String,
        rule: String,
    ) -> (joined: Result<(), String>)
        ensures
            refusal_of(joined) == old(self)@.join_refusal(room_id, player_id),
            final(self)@ == old(self)@.after_join(
                room_id,
                PlayerView { id: player_id, name: username@, rule: rule@ },
            ),
            old(self)@.wf() ==> final(self)@.wf(),
    {
        proof {
            if self@.wf() {
                lemma_after_join_wf(
                    self@,
                    room_id,
                    PlayerView { id: player_id, name: username@, rule: rule@ },
                );
            }
        }
        match self.rooms.get(&room_id) {
            None => {
                return Err("Room not found".to_string());
            },
            Some(room) => {
                if room.status != RoomStatus::Waiting {
                    return Err("Game has already started".to_string());
                }
                if room.has_player(player_id) {
                    return Ok(());
                }
                if room.players.len() as u8 >= room.max_players {
                    return Err("Room is full".to_string());
                }
            },
        }
        let ghost player = PlayerView { id: player_id, name: username@, rule: rule@ };
        match self.rooms.remove(&room_id) {
            None => {},
            Some(room) => {
                let mut room = room;
                room.join(player_id, username, rule);
                let _ = self.rooms.insert(room_id, room);
                let _ = self.tables.player_rooms.insert(player_id, room_id);
                assert(self@ =~= old(self)@.after_join(room_id, player));
            },
        }
        Ok(())
    }

    /// Changes the player's own rule, to `"tet"` or `"puyo"`, while their room waits.
    pub fn update_player_rule(&mut self, player_id: &Uuid, rule: String) -> (updated: Result<
        (),
        String,
    >)
        ensures
            refusal_of(updated) == old(self)@.rule_refusal(*player_id, rule@),
            final(self)@ == old(self)@.after_rule(*player_id, rule@),
            old(self)@.wf() ==> final(self)@.wf(),
    {
        proof {
            if self@.wf() {
                lemma_after_rule_wf(self@, *player_id, rule@);
            }
        }
        let id: Uuid = *player_id;
        let room_id: Uuid = match self.tables.player_rooms.get(player_id) {
            Some(room_id) => *room_id,
            None => {
                return Err("Not in a room".to_string());
            },
        };
        match self.rooms.get(&room_id) {
            None => {
                return Err("Room not found".to_string());
            },
            Some(room) => {
                if room.status != RoomStatus::Waiting {
                    return Err("Cannot change rule after match has started".to_string());
                }
            },
        }
        if rule != "tet".to_string() && rule != "puyo".to_string() {
            return Err("Invalid rule".to_string());
        }
        match self.rooms.remove(&room_id) {
            None => {},
            Some(room) => {
                let mut room = room;
                room.set_rule(id, rule);
                let _ = self.rooms.insert(room_id, room);
                assert(self@ =~= old(self)@.after_rule(id, rule@));
            },
        }
        Ok(())
    }

    /// Takes the player out of their room. A room without players is dropped, and its code with it.
    pub fn leave_room(&mut self, player_id: &Uuid)
        ensures
            final(self)@ == old(self)@.after_leave(*player_id),
            old(self)@.wf() ==> final(self)@.wf(),
    {
        proof {
            if self@.wf() {
                lemma_after_leave_wf(self@, *player_id);
            }
        }
        let id: Uuid = *player_id;
        let room_id: Uuid = match self.tables.player_rooms.remove(player_id) {
            Some(room_id) => room_id,
            None => {
                assert(self@ =~= old(self)@);
                return;
            },
        };
        match self.rooms.remove(&room_id) {
            None => {
                assert(self@ =~= old(self)@.after_leave(id));
            },
            Some(room) => {
                let mut room = room;
                room.leave(id);
                if room.players.len() == 0 {
                    self.tables.room_codes.remove(room.code.as_str());
                } else {
                    let _ = self.rooms.insert(room_id, room);
                }
                assert(self@ =~= old(self)@.after_leave(id));
            },
        }
    }

    // ---- Random matches ----

    /// Takes the player out of the queue for random matches. Tells whether they were in it.
    pub fn cancel_random_match(&mut self, player_id: &Uuid) -> (was_waiting: bool)
        ensures
            was_waiting == player_ids(old(self)@.queue).contains(*player_id),
            final(self)@ == old(self)@.after_cancel(*player_id),
            old(self)@.wf() ==> final(self)@.wf(),
    {
        proof {
            if self@.wf() {
                lemma_after_cancel_wf(self@, *player_id);
            }
        }
        let id: Uuid = *player_id;
        let mut was_waiting = false;
        let mut i: usize = 0;
        while i < self.tables.matchmaking_queue.len()
            invariant
                i <= self.tables.matchmaking_queue@.len(),
                self@ == (GameView { queue: self@.queue, ..old(self)@ }),
                forall|j: int| 0 <= j < i ==> (#[trigger] self.tables.matchmaking_queue@[j]).0 != id,
                players_without(self@.queue, id) == players_without(old(self)@.queue, id),
                was_waiting ==> player_ids(old(self)@.queue).contains(id),
                !was_waiting ==> self@.queue == old(self)@.queue,
            decreases self.tables.matchmaking_queue@.len() - i,
        {
            if self.tables.matchmaking_queue[i].0 == id {
                let ghost before = self@.queue;
                proof {
                    if !was_waiting {
                        assert(player_ids(before)[i as int] == id);
                    }
                }
                let _ = self.tables.matchmaking_queue.remove(i);
                was_waiting = true;
                proof {
                    lemma_filter_remove(before, i as int, player_other_than(id));
                    assert(self@.queue =~= before.remove(i as int));
                }
            } else {
                i += 1;
            }
        }
        proof {
            lemma_filter_all(self@.queue, player_other_than(id));
            if !was_waiting {
                assert forall|j: int| 0 <= j < player_ids(old(self)@.queue).len() implies
                    player_ids(old(self)@.queue)[j] != id by {
                    assert(old(self)@.queue[j] == player_view(self.tables.matchmaking_queue@[j]));
                }
            }
        }
        assert(self@ =~= old(self)@.after_cancel(id));
        was_waiting
    }

    /// Where in the queue the first player other than the given one stands; its length if nowhere.
    fn first_other_waiting(&self, player_id: Uuid) -> (i: usize)
        ensures
            i == first_other(self@.queue, player_id),
    {
        let mut i: usize = 0;
        while i < self.tables.matchmaking_queue.len() && self.tables.matchmaking_queue[i].0 == player_id
            invariant
                i <= self.tables.matchmaking_queue@.len(),
                forall|j: int| 0 <= j < i ==> (#[trigger] self.tables.matchmaking_queue@[j]).0 == player_id,
            decreases self.tables.matchmaking_queue@.len() - i,
        {
            i += 1;
        }
        proof {
            assert forall|j: int| 0 <= j < i implies (#[trigger] self@.queue[j]).id == player_id by {
                assert(self@.queue[j] == player_view(self.tables.matchmaking_queue@[j]));
            }
            lemma_first_other(self@.queue, player_id, i as nat);
        }
        i
    }

    /// Whether somebody other than the player waits for an opponent.
    pub fn has_waiting_opponent(&self, player_id: Uuid) -> (waiting: bool)
        ensures
            waiting == self@.has_waiting_opponent(player_id),
    {
        self.first_other_waiting(player_id) < self.tables.matchmaking_queue.len()
    }

    /// Lets the player meet the one who has waited longest, in a new room that the other owns. If
    /// nobody waits, the player does.
    pub fn random_match(&mut self, player_id: Uuid, username: String, rule: String) -> (result:
        MatchResult)
        requires
            old(self)@.has_waiting_opponent(player_id) ==> old(self)@.has_free_code(),
        ensures
            ({
                let player = PlayerView { id: player_id, name: username@, rule: rule@ };
                match result {
                    MatchResult::Waiting => {
                        &&& !old(self)@.has_waiting_opponent(player_id)
                        &&& final(self)@ == old(self)@.after_enqueue(player)
                        &&& old(self)@.wf() ==> final(self)@.wf()
                    },
                    MatchResult::Matched { room_id, opponent } => {
                        let code = final(self)@.rooms[room_id].code;
                        &&& old(self)@.has_waiting_opponent(player_id)
                        &&& opponent == old(self)@.waiting_opponent(player_id).id
                        &&& is_random_uuid(room_id)
                        &&& is_room_code(code)
                        &&& !old(self)@.room_codes.contains_key(code)
                        &&& final(self)@ == old(self)@.after_pairing(player, room_id, code)
                        &&& old(self)@.wf() && !old(self)@.rooms.contains_key(room_id)
                            ==> final(self)@.wf()
                    },
                }
            }),
    {
        let ghost player = PlayerView { id: player_id, name: username@, rule: rule@ };
        let i = self.first_other_waiting(player_id);
        proof {
            lemma_first_other_stands(self@.queue, player_id);
        }
        match self.tables.matchmaking_queue.remove(i) {
            Some(entry) => {
                let (opp_id, opp_name, opp_rule) = entry;
                let ghost opponent = old(self)@.waiting_opponent(player_id);
                assert(opponent == PlayerView { id: opp_id, name: opp_name@, rule: opp_rule@ });
                assert(self@ =~= (GameView { queue: old(self)@.queue.remove(i as int), ..old(self)@ }));
                let (room_id, code) = self.new_room(
                    opp_id,
                    "Random Match".to_string(),
                    2,
                    false,
                    Vec::new(),
                    opp_name,
                    opp_rule,
                );
                let _ = self.add_player_to_room(room_id, player_id, username, rule);
                assert(self@.rooms[room_id].code == code@);
                proof {
                    if old(self)@.wf() && !old(self)@.rooms.contains_key(room_id) {
                        lemma_after_pairing_wf(old(self)@, player, room_id, code@);
                    }
                }
                MatchResult::Matched { room_id, opponent: opp_id }
            },
            None => {
                proof {
                    if old(self)@.wf() {
                        lemma_after_enqueue_wf(old(self)@, player);
                    }
                }
                // Everybody in the queue is the player, so the queue is empty or they wait already.
                if i == 0 {
                    self.tables.matchmaking_queue.push_back((player_id, username, rule));
                    assert(self@ =~= old(self)@.after_enqueue(player));
                } else {
                    assert(player_ids(old(self)@.queue)[0] == player_id);
                    assert(self@ =~= old(self)@);
                }
                MatchResult::Waiting
            },
        }
    }

    /// Whether some room code is not in use.
    pub fn has_free_code(&self) -> (free: bool)
        ensures
            free == self@.has_free_code(),
    {
        let mut n: u32 = 0;
        while n < 1_000_000
            invariant
                n <= 1_000_000,
                forall|m: nat| m < n ==> self.tables.room_codes@.contains_key(#[trigger] six_digits(m)),
            decreases 1_000_000 - n,
        {
            let code = room_code(n);
            if !self.tables.room_codes.contains_key(code.as_str()) {
                return true;
            }
            n += 1;
        }
        false
    }

    /// Draws a room code that is not in use: six digits, zero-padded. After a run of draws that hit
    /// codes in use, the lowest free one is taken.
    fn generate_room_code(&self) -> (code: String)
        requires
            self@.has_free_code(),
        ensures
            is_room_code(code@),
            !self@.room_codes.contains_key(code@),
    {
        let mut draws: u32 = 0;
        while draws < 100_000
            decreases 100_000 - draws,
        {
            let code = code_of_draw(new_v4());
            if !self.tables.room_codes.contains_key(code.as_str()) {
                return code;
            }
            draws += 1;
        }
        let mut n: u32 = 0;
        loop
            invariant
                n < 1_000_000,
                forall|m: nat| m < n ==> self.tables.room_codes@.contains_key(#[trigger] six_digits(m)),
                self@.has_free_code(),
            decreases 1_000_000 - n,
        {
            let code = room_code(n);
            if !self.tables.room_codes.contains_key(code.as_str()) {
                return code;
            }
            proof {
                let free = choose|m: nat|
                    m < 1_000_000 && !self@.room_codes.contains_key(#[trigger] six_digits(m));
                assert(free > n);
            }
            n += 1;
        }
    }

    /// Makes a room with the given identifier and code, which its owner sits in.
    pub fn open_room(
        &mut self,
        room_id: Uuid,
        code: String,
        owner: Uuid,
        room_name: String,
        max_players: u8,
        is_public: bool,
        tags: Vec<RoomTag>,
        owner_username: String,
        owner_rule: String,
    )
        ensures
            final(self)@ == old(self)@.with_new_room(
                room_id,
                new_room_view(
                    PlayerView { id: owner, name: owner_username@, rule: owner_rule@ },
                    room_name@,
                    max_players,
                    is_public,
                    tags@,
                    code@,
                ),
            ),
            ({
                &&& old(self)@.wf()
                &&& is_room_code(code@)
                &&& !old(self)@.rooms.contains_key(room_id)
                &&& !old(self)@.room_codes.contains_key(code@)
            }) ==> final(self)@.wf(),
    {
        let ghost player = PlayerView { id: owner, name: owner_username@, rule: owner_rule@ };
        proof {
            if self@.wf() && is_room_code(code@) && !self@.rooms.contains_key(room_id)
                && !self@.room_codes.contains_key(code@) {
                lemma_with_new_room_wf(
                    self@,
                    room_id,
                    player,
                    room_name@,
                    max_players,
                    is_public,
                    tags@,
                    code@,
                );
            }
        }
        let mut players: Vec<(Uuid, String, String)> = Vec::new();
        players.push((owner, owner_username, owner_rule));
        let room = Room {
            status: RoomStatus::Waiting,
            owner,
            players,
            room_name,
            max_players,
            is_public,
            tags,
            code: code.clone(),
            match_setting: "{}".to_string(),
            alive_players: Vec::new(),
            ready_players: Vec::new(),
            pings: HashMap::new(),
        };
        assert(room@ =~= new_room_view(
            player,
            room_name@,
            max_players,
            is_public,
            tags@,
            code@,
        ));
        let _ = self.rooms.insert(room_id, room);
        self.tables.room_codes.insert(code, room_id);
        let _ = self.tables.player_rooms.insert(owner, room_id);
        assert(self@ =~= old(self)@.with_new_room(room_id, room@));
    }

    /// Makes a new room, which its owner sits in. Returns its identifier and its code.
    pub fn new_room(
        &mut self,
        owner: Uuid,
        room_name: String,
        max_players: u8,
        is_public: bool,
        tags: Vec<RoomTag>,
        owner_username: String,
        owner_rule: String,
    ) -> (made: (Uuid, String))
        requires
            old(self)@.has_free_code(),
        ensures
            is_random_uuid(made.0),
            is_room_code(made.1@),
            !old(self)@.room_codes.contains_key(made.1@),
            final(self)@ == old(self)@.with_new_room(
                made.0,
                new_room_view(
                    PlayerView { id: owner, name: owner_username@, rule: owner_rule@ },
                    room_name@,
                    max_players,
                    is_public,
                    tags@,
                    made.1@,
                ),
            ),
            old(self)@.wf() && !old(self)@.rooms.contains_key(made.0) ==> final(self)@.wf(),
    {
        let room_id: Uuid = new_v4();
        let code = self.generate_room_code();
        self.open_room(
            room_id,
            code.clone(),
            owner,
            room_name,
            max_players,
            is_public,
            tags,
            owner_username,
            owner_rule,
        );
        (room_id, code)
    }

    // ---- Matches ----

    /// Begins the match of the room: everybody alive, nobody ready. Returns the match settings.
    pub fn begin_match(&mut self, room_id: Uuid) -> (begun: Result<String, String>)
        ensures
            refusal_of(begun) == old(self)@.start_refusal(room_id),
            begun matches Ok(match_setting) ==> match_setting@ == old(
                self,
            )@.rooms[room_id].match_setting,
            final(self)@ == old(self)@.after_start(room_id),
            old(self)@.wf() ==> final(self)@.wf(),
    {
        proof {
            if self@.wf() {
                lemma_after_start_wf(self@, room_id);
            }
        }
        match self.rooms.get(&room_id) {
            None => {
                return Err("Room not found".to_string());
            },
            Some(room) => match room.start_refusal() {
                Some(refusal) => {
                    return Err(refusal);
                },
                None => {},
            },
        }
        match self.rooms.remove(&room_id) {
            // The room was there above.
            None => Err("Room not found".to_string()),
            Some(room) => {
                let mut room = room;
                room.start();
                let match_setting = room.match_setting.clone();
                let _ = self.rooms.insert(room_id, room);
                assert(self@ =~= old(self)@.after_start(room_id));
                Ok(match_setting)
            },
        }
    }

    /// Begins the match of the room. Returns a random seed of sixteen bytes, which all players
    /// share, and the match settings.
    pub fn start_match(&mut self, room_id: Uuid) -> (started: Result<([u8; 16], String), String>)
        ensures
            refusal_of(started) == old(self)@.start_refusal(room_id),
            started matches Ok((seed, match_setting)) ==> {
                &&& exists|drawn: Uuid| is_random_uuid(drawn) && seed@ == #[trigger] uuid_bytes(drawn)
                &&& match_setting@ == old(self)@.rooms[room_id].match_setting
            },
            final(self)@ == old(self)@.after_start(room_id),
            old(self)@.wf() ==> final(self)@.wf(),
    {
        proof {
            if self@.wf() {
                lemma_after_start_wf(self@, room_id);
            }
        }
        match self.begin_match(room_id) {
            Err(message) => Err(message),
            Ok(match_setting) => {
                let seed = into_bytes(new_v4());
                Ok((seed, match_setting))
            },
        }
    }

    /// Declares the player ready, or not, while their room waits.
    pub fn set_ready(&mut self, player_id: &Uuid, ready: bool) -> (set: Result<(), String>)
        ensures
            refusal_of(set) == old(self)@.ready_refusal(*player_id),
            final(self)@ == old(self)@.after_ready(*player_id, ready),
            old(self)@.wf() ==> final(self)@.wf(),
    {
        proof {
            if self@.wf() {
                lemma_after_ready_wf(self@, *player_id, ready);
            }
        }
        let id: Uuid = *player_id;
        let room_id: Uuid = match self.tables.player_rooms.get(player_id) {
            Some(room_id) => *room_id,
            None => {
                return Err("Not in a room".to_string());
            },
        };
        match self.rooms.get(&room_id) {
            None => {
                return Err("Room not found".to_string());
            },
            Some(room) => {
                if room.status != RoomStatus::Waiting {
                    return Err("Cannot change ready state during a match".to_string());
                }
            },
        }
        match self.rooms.remove(&room_id) {
            None => {},
            Some(room) => {
                let mut room = room;
                room.set_ready(id, ready);
                let _ = self.rooms.insert(room_id, room);
                assert(self@ =~= old(self)@.after_ready(id, ready));
            },
        }
        Ok(())
    }

    /// Notes the round-trip time that the player reports. Nothing happens outside a room.
    pub fn set_ping(&mut self, player_id: &Uuid, ping_ms: u32)
        ensures
            final(self)@ == old(self)@.after_ping(*player_id, ping_ms),
            old(self)@.wf() ==> final(self)@.wf(),
    {
        proof {
            if self@.wf() {
                lemma_after_ping_wf(self@, *player_id, ping_ms);
            }
        }
        let id: Uuid = *player_id;
        let room_id: Uuid = match self.tables.player_rooms.get(player_id) {
            Some(room_id) => *room_id,
            None => {
                return;
            },
        };
        match self.rooms.remove(&room_id) {
            None => {
                assert(self@ =~= old(self)@);
            },
            Some(room) => {
                let mut room = room;
                let _ = room.pings.insert(id, ping_ms);
                let _ = self.rooms.insert(room_id, room);
                assert(self@ =~= old(self)@.after_ping(id, ping_ms));
            },
        }
    }

    /// Records the player's death in the running match of their room, and says what it decides.
    pub fn record_game_over(&mut self, player_id: &Uuid) -> (decision: WinnerStatus)
        ensures
            decision == old(self)@.decision(*player_id),
            final(self)@ == old(self)@.after_death(*player_id),
            old(self)@.wf() ==> final(self)@.wf(),
    {
        proof {
            if self@.wf() {
                lemma_after_death_wf(self@, *player_id);
            }
        }
        let id: Uuid = *player_id;
        let room_id: Uuid = match self.tables.player_rooms.get(player_id) {
            Some(room_id) => *room_id,
            None => {
                return WinnerStatus::MatchContinues;
            },
        };
        match self.rooms.remove(&room_id) {
            None => {
                assert(self@ =~= old(self)@);
                WinnerStatus::MatchContinues
            },
            Some(room) => {
                let mut room = room;
                let decision = room.record_death(id);
                let _ = self.rooms.insert(room_id, room);
                assert(self@ =~= old(self)@.after_death(id));
                decision
            },
        }
    }

    // ---- What players are told ----

    /// The rooms that the room list shows, in no particular order.
    pub fn list_rooms(&self) -> (list: Vec<ListRoomInfo>)
        ensures
            is_room_list(self@.rooms, list_view(list@)),
    {
        let mut list: Vec<ListRoomInfo> = Vec::new();
        let ghost mut ids: Seq<Uuid> = Seq::empty();
        let keys = table_keys(&self.rooms);
        let mut i: usize = 0;
        assert(keys@.take(0) =~= Seq::<Uuid>::empty());
        while i < keys.len()
            invariant
                i <= keys@.len(),
                keys@.no_duplicates(),
                forall|id: Uuid| #[trigger] keys@.contains(id) <==> self.rooms@.contains_key(id),
                list@.len() == ids.len(),
                forall|j: int|
                    0 <= j < ids.len() ==> (#[trigger] list@[j])@ == list_entry(
                        ids[j],
                        self@.rooms[ids[j]],
                    ),
                ids.no_duplicates(),
                forall|id: Uuid| #[trigger]
                    ids.contains(id) <==> keys@.take(i as int).contains(id)
                        && self@.rooms[id].is_listed(),
            decreases keys@.len() - i,
        {
            let id: Uuid = keys[i];
            let ghost before = ids;
            proof {
                assert(keys@.contains(id));
                assert(!keys@.take(i as int).contains(id));
                keys@.lemma_take_succ_push(i as int);
                assert forall|x: Uuid| #[trigger]
                    keys@.take(i + 1).contains(x) <==> keys@.take(i as int).contains(x) || x
                        == id by {
                    vstd::seq_lib::lemma_seq_contains_after_push(keys@.take(i as int), id, x);
                }
            }
            match self.rooms.get(&id) {
                None => {},
                Some(room) => {
                    if room.status == RoomStatus::Waiting && room.is_public {
                        list.push(
                            ListRoomInfo {
                                id,
                                room_name: room.room_name.clone(),
                                players: room.players.len() as u8,
                                max_players: room.max_players,
                                locked: false,
                                tags: tags_to_codes(&room.tags),
                            },
                        );
                        proof {
                            ids = ids.push(id);
                            assert forall|x: Uuid| #[trigger]
                                ids.contains(x) <==> before.contains(x) || x == id by {
                                vstd::seq_lib::lemma_seq_contains_after_push(before, id, x);
                            }
                            assert(!before.contains(id));
                            assert forall|j: int, k: int| 0 <= j < k < ids.len() implies ids[j]
                                != ids[k] by {
                                assert(before.contains(before[j]));
                            }
                        }
                    }
                },
            }
            i += 1;
        }
        proof {
            assert(keys@.take(i as int) =~= keys@);
            let shown = list_view(list@);
            assert forall|j: int| 0 <= j < shown.len() implies ({
                &&& self@.rooms.contains_key(shown[j].id)
                &&& self@.rooms[shown[j].id].is_listed()
                &&& #[trigger] shown[j] == list_entry(shown[j].id, self@.rooms[shown[j].id])
            }) by {
                assert(ids.contains(ids[j]));
                assert(keys@.contains(ids[j]));
            }
            assert forall|id: Uuid| #[trigger]
                self@.rooms.contains_key(id) && self@.rooms[id].is_listed() implies exists|j: int|
                0 <= j < shown.len() && (#[trigger] shown[j]).id == id by {
                assert(keys@.contains(id));
                assert(ids.contains(id));
                let j = ids.index_of(id);
                assert(shown[j].id == id);
            }
        }
        list
    }

    /// The state of the room, as its players are told it.
    pub fn room_info(&self, room_id: &Uuid) -> (info: Option<JSONRoomInfoNotification>)
        ensures
            match info {
                Some(info) => {
                    &&& self@.rooms.contains_key(*room_id)
                    &&& is_room_info(*room_id, self@.rooms[*room_id], info@)
                },
                None => !self@.rooms.contains_key(*room_id),
            },
    {
        let room = match self.rooms.get(room_id) {
            None => {
                return None;
            },
            Some(room) => room,
        };
        let mut players: Vec<(Uuid, String, String)> = Vec::new();
        let mut i: usize = 0;
        while i < room.players.len()
            invariant
                i <= room.players@.len(),
                players_view(players@) == room@.players.take(i as int),
            decreases room.players@.len() - i,
        {
            let entry = &room.players[i];
            let ghost before = players@;
            players.push((entry.0, entry.1.clone(), entry.2.clone()));
            i += 1;
            assert(players_view(players@) =~= players_view(before).push(room@.players[i - 1]));
            assert(room@.players.take(i as int) =~= room@.players.take(i - 1).push(
                room@.players[i - 1],
            ));
        }
        assert(room@.players.take(i as int) =~= room@.players);
        let mut ready_players: Vec<Uuid> = Vec::new();
        ready_players.extend_from_slice(room.ready_players.as_slice());
        assert(ready_players@ =~= room.ready_players@);
        Some(
            JSONRoomInfoNotification {
                room_id: *room_id,
                owner_id: room.owner,
                room_name: room.room_name.clone(),
                players,
                max_players: room.max_players,
                tags: tags_to_codes(&room.tags),
                match_setting: room.match_setting.clone(),
                ready_players,
                pings: ping_list(&room.pings),
                code: room.code.clone(),
                is_public: room.is_public,
            },
        )
    }

    // ---- What owners change ----

    /// Changes the room for its owner. Where the owner asks for fewer places than there are
    /// players, the request is refused but the name is changed.
    pub fn update_room(
        &mut self,
        room_id: Uuid,
        player_id: Uuid,
        room_name: String,
        max_players: u8,
        is_public: bool,
        tags: Vec<RoomTag>,
    ) -> (updated: Result<(), String>)
        ensures
            refusal_of(updated) == old(self)@.update_refusal(room_id, player_id, max_players),
            final(self)@ == old(self)@.after_update(
                room_id,
                player_id,
                room_name@,
                max_players,
                is_public,
                tags@,
            ),
            old(self)@.wf() ==> final(self)@.wf(),
    {
        proof {
            if self@.wf() {
                lemma_after_update_wf(
                    self@,
                    room_id,
                    player_id,
                    room_name@,
                    max_players,
                    is_public,
                    tags@,
                );
            }
        }
        let mut room = match self.rooms.remove(&room_id) {
            None => {
                assert(self@ =~= old(self)@);
                return Err("Room not found".to_string());
            },
            Some(room) => room,
        };
        let updated: Result<(), String>;
        if room.owner != player_id {
            updated = Err("Only the room owner can update the room".to_string());
        } else {
            room.room_name = room_name;
            if max_players < room.players.len() as u8 {
                updated = Err("Max players cannot be less than current player count".to_string());
            } else {
                room.max_players = max_players;
                room.is_public = is_public;
                room.tags = tags;
                updated = Ok(());
            }
        }
        let _ = self.rooms.insert(room_id, room);
        assert(self@ =~= old(self)@.after_update(
            room_id,
            player_id,
            room_name@,
            max_players,
            is_public,
            tags@,
        ));
        updated
    }

    /// Changes the match settings of the room for its owner.
    pub fn update_match_setting(
        &mut self,
        room_id: Uuid,
        player_id: Uuid,
        match_setting: String,
    ) -> (updated: Result<(), String>)
        ensures
            refusal_of(updated) == old(self)@.setting_refusal(room_id, player_id),
            final(self)@ == old(self)@.after_setting(room_id, player_id, match_setting@),
            old(self)@.wf() ==> final(self)@.wf(),
    {
        proof {
            if self@.wf() {
                lemma_after_setting_wf(self@, room_id, player_id, match_setting@);
            }
        }
        let mut room = match self.rooms.remove(&room_id) {
            None => {
                assert(self@ =~= old(self)@);
                return Err("Room not found".to_string());
            },
            Some(room) => room,
        };
        let updated: Result<(), String>;
        if room.owner != player_id {
            updated = Err("Only the room owner can change match settings".to_string());
        } else {
            room.match_setting = match_setting;
            updated = Ok(());
        }
        let _ = self.rooms.insert(room_id, room);
        assert(self@ =~= old(self)@.after_setting(room_id, player_id, match_setting@));
        updated
    }
}

/// The keys of a table, each once, in no particular order.
fn table_keys<V>(table: &HashMap<Uuid, V>) -> (keys: Vec<Uuid>)
    ensures
        keys@.no_duplicates(),
        forall|id: Uuid| #[trigger] keys@.contains(id) <==> table@.contains_key(id),
{
    let mut keys: Vec<Uuid> = Vec::new();
    let ghost all = spec_keys_iter(table).remaining().unref();
    for key in iter: table.keys()
        invariant
            iter.seq().unref() == all,
            keys@ == all.take(iter.index()),
    {
        keys.push(*key);
        assert(keys@ =~= all.take(iter.index() + 1));
    }
    assert(keys@ =~= all);
    keys
}

/// The round-trip times of a room, each once, in no particular order.
fn ping_list(pings: &HashMap<Uuid, u32>) -> (list: Vec<(Uuid, u32)>)
    ensures
        is_listing(pings@, list@),
{
    let keys = table_keys(pings);
    let mut list: Vec<(Uuid, u32)> = Vec::new();
    let mut i: usize = 0;
    while i < keys.len()
        invariant
            i <= keys@.len(),
            list@.len() == i,
            forall|id: Uuid| #[trigger] keys@.contains(id) <==> pings@.contains_key(id),
            forall|j: int| 0 <= j < i ==> (#[trigger] list@[j]) == (keys@[j], pings@[keys@[j]]),
        decreases keys@.len() - i,
    {
        assert(keys@.contains(keys@[i as int]));
        match pings.get(&keys[i]) {
            Some(ms) => {
                list.push((keys[i], *ms));
            },
            None => {},
        }
        i += 1;
    }
    proof {
        assert forall|id: Uuid| #[trigger] pings@.contains_key(id) implies exists|j: int|
            0 <= j < list@.len() && (#[trigger] list@[j]).0 == id by {
            assert(keys@.contains(id));
            assert(list@[keys@.index_of(id)].0 == id);
        }
        assert forall|j: int| 0 <= j < list@.len() implies pings@.contains_key(
            (#[trigger] list@[j]).0,
        ) && pings@[list@[j].0] == list@[j].1 by {
            assert(keys@.contains(keys@[j]));
        }
    }
    list
}

/// The first player other than `id` stands at `i` if only `id` stands before it.
pub proof fn lemma_first_other(players: Seq<PlayerView>, id: Uuid, i: nat)
    requires
        i <= players.len(),
        forall|j: int| 0 <= j < i ==> (#[trigger] players[j]).id == id,
        i < players.len() ==> players[i as int].id != id,
    ensures
        first_other(players, id) == i,
    decreases i,
{
    if i > 0 {
        assert(players[0].id == id);
        let rest = players.drop_first();
        assert forall|j: int| 0 <= j < i - 1 implies (#[trigger] rest[j]).id == id by {
            assert(rest[j] == players[j + 1]);
        }
        lemma_first_other(rest, id, (i - 1) as nat);
    }
}

/// Before the first player other than `id` there is only `id`.
pub proof fn lemma_first_other_stands(players: Seq<PlayerView>, id: Uuid)
    ensures
        first_other(players, id) <= players.len(),
        first_other(players, id) < players.len() ==> players[first_other(players, id) as int].id
            != id,
        forall|j: int| 0 <= j < first_other(players, id) ==> (#[trigger] players[j]).id == id,
    decreases players.len(),
{
    if players.len() > 0 && players[0].id == id {
        let rest = players.drop_first();
        lemma_first_other_stands(rest, id);
        assert forall|j: int| 0 <= j < first_other(players, id) implies (#[trigger] players[j]).id
            == id by {
            if j > 0 {
                assert(rest[j - 1] == players[j]);
            }
        }
    }
}

/// Puts a decimal digit behind the text.
fn push_digit(text: &mut String, d: u32)
    ensures
        final(text)@ == old(text)@.push(digit(d as nat)),
{
    let last: u32 = d % 10;
    proof {
        reveal_strlit("0");
        reveal_strlit("1");
        reveal_strlit("2");
        reveal_strlit("3");
        reveal_strlit("4");
        reveal_strlit("5");
        reveal_strlit("6");
        reveal_strlit("7");
        reveal_strlit("8");
        reveal_strlit("9");
    }
    let one: &str = match last {
        0 => "0",
        1 => "1",
        2 => "2",
        3 => "3",
        4 => "4",
        5 => "5",
        6 => "6",
        7 => "7",
        8 => "8",
        _ => "9",
    };
    assert(one@ =~= seq![digit(d as nat)]);
    text.append(one);
    assert(text@ =~= old(text)@.push(digit(d as nat)));
}

/// The room code of a number: its last six digits, zero-padded.
pub fn room_code(n: u32) -> (code: String)
    ensures
        code@ == six_digits(n as nat),
{
    let mut code = String::new();
    push_digit(&mut code, n / 100000);
    push_digit(&mut code, n / 10000);
    push_digit(&mut code, n / 1000);
    push_digit(&mut code, n / 100);
    push_digit(&mut code, n / 10);
    push_digit(&mut code, n);
    assert(code@ =~= six_digits(n as nat));
    code
}

/// The room code that a drawn identifier gives: the last six digits of its value, zero-padded.
pub fn code_of_draw(drawn: Uuid) -> (code: String)
    ensures
        code@ == six_digits((drawn % 1_000_000) as nat),
{
    let n: u32 = (drawn % 1_000_000) as u32;
    room_code(n)
}

/// A result stands for its error message, and an optional reference for what it refers to.
pub proof fn law_result_views<T>(result: Result<T, String>, value: Option<&T>)
    ensures
        refusal_of(result) is None <==> result is Ok,
        result matches Err(message) ==> refusal_of(result) == Some(message@),
        deref_view(value) is None <==> value is None,
        value matches Some(value_ref) ==> deref_view(value) == Some(*value_ref),
{
}

} // verus!
