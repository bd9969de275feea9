//! What each operation on the state makes of the tables and lists that it reads, entry by entry.
//!
//! The relations below speak of the entries of the tables alone. Each law says that an operation
//! keeps to its relation on every state and every argument.

use vstd::prelude::*;

use crate::game::{ChannelPair, ConnectionState};
use crate::ids::Uuid;
use crate::lists::{player_ids, players_without, without, PlayerView};
use crate::model::{first_other, is_room_info, is_room_list, new_room_view, GameView};
use crate::payload::json::{ListRoomView, RoomInfoView};
use crate::room::{comma_separated, player_names, RoomStatus, RoomTag, RoomView, WinnerStatus};

verus! {

// ---- Lists ----

/// Whether the player has an entry in the room.
pub open spec fn sits(room: RoomView, id: Uuid) -> bool {
    exists|i: int| 0 <= i < room.players.len() && (#[trigger] room.players[i]).id == id
}

/// The identifiers of the entries, one for one.
pub open spec fn seats(players: Seq<PlayerView>) -> Seq<Uuid> {
    Seq::new(players.len(), |i: int| players[i].id)
}

/// The identifiers with each occurrence of `id` taken out.
pub open spec fn dropped(ids: Seq<Uuid>, id: Uuid) -> Seq<Uuid>
    decreases ids.len(),
{
    if ids.len() == 0 {
        Seq::empty()
    } else if ids.last() == id {
        dropped(ids.drop_last(), id)
    } else {
        dropped(ids.drop_last(), id).push(ids.last())
    }
}

/// The entries with each one of `id` taken out.
pub open spec fn players_dropped(players: Seq<PlayerView>, id: Uuid) -> Seq<PlayerView>
    decreases players.len(),
{
    if players.len() == 0 {
        Seq::empty()
    } else if players.last().id == id {
        players_dropped(players.drop_last(), id)
    } else {
        players_dropped(players.drop_last(), id).push(players.last())
    }
}

/// Taking an identifier out of a list takes out its occurrences, and nothing else moves.
pub proof fn law_dropping_ids(ids: Seq<Uuid>, id: Uuid)
    ensures
        without(ids, id) == dropped(ids, id),
    decreases ids.len(),
{
    reveal(Seq::filter);
    if ids.len() > 0 {
        law_dropping_ids(ids.drop_last(), id);
    }
    assert(without(ids, id) =~= dropped(ids, id));
}

/// Taking a player out of a list takes out their entries, and nothing else moves.
pub proof fn law_dropping_players(players: Seq<PlayerView>, id: Uuid)
    ensures
        players_without(players, id) == players_dropped(players, id),
    decreases players.len(),
{
    reveal(Seq::filter);
    if players.len() > 0 {
        law_dropping_players(players.drop_last(), id);
    }
    assert(players_without(players, id) =~= players_dropped(players, id));
}

/// The identifiers of a list of players are those of its entries, one for one, and who has an entry
/// in a room is one of its players.
pub proof fn law_seats(room: RoomView, id: Uuid)
    ensures
        player_ids(room.players) == seats(room.players),
        room.has_player(id) == sits(room, id),
{
    assert(player_ids(room.players) =~= seats(room.players));
    if sits(room, id) {
        let i = choose|i: int| 0 <= i < room.players.len() && (#[trigger] room.players[i]).id == id;
        assert(player_ids(room.players)[i] == id);
    }
    if room.has_player(id) {
        let i = player_ids(room.players).index_of(id);
        assert(room.players[i].id == id);
    }
}

// ---- Looking things up ----

/// The reliable or unreliable channel in the player's entry.
pub open spec fn channel_entry<C>(game: GameView<C>, id: Uuid, reliable: bool) -> Option<C> {
    if !game.connections.contains_key(id) {
        None
    } else if reliable {
        game.connections[id].reliable
    } else {
        game.connections[id].unreliable
    }
}

/// The channels of the players who have one, in the order of the players.
pub open spec fn reached<C>(game: GameView<C>, ids: Seq<Uuid>, reliable: bool) -> Seq<C>
    decreases ids.len(),
{
    if ids.len() == 0 {
        Seq::empty()
    } else {
        match channel_entry(game, ids.last(), reliable) {
            Some(channel) => reached(game, ids.drop_last(), reliable).push(channel),
            None => reached(game, ids.drop_last(), reliable),
        }
    }
}

/// The others in the room that the player is routed to, in the order of arrival.
pub open spec fn others_in_room<C>(game: GameView<C>, id: Uuid) -> Seq<Uuid> {
    if game.player_rooms.contains_key(id) && game.rooms.contains_key(game.player_rooms[id]) {
        dropped(seats(game.rooms[game.player_rooms[id]].players), id)
    } else {
        Seq::empty()
    }
}

/// What is looked up is what stands in the tables.
pub proof fn law_lookups<C>(game: GameView<C>, id: Uuid, room_id: Uuid, code: Seq<char>)
    ensures
        game.room_of(id) == (if game.player_rooms.contains_key(id) {
            Some(game.player_rooms[id])
        } else {
            None
        }),
        game.room_by_code(code) == (if game.room_codes.contains_key(code) {
            Some(game.room_codes[code])
        } else {
            None
        }),
        game.connection_state(id) == (if game.connections.contains_key(id) {
            Some(game.connections[id].state)
        } else {
            None
        }),
        game.room_owner(room_id) == (if game.rooms.contains_key(room_id) {
            Some(game.rooms[room_id].owner)
        } else {
            None
        }),
        game.is_public_room(room_id) == (if game.rooms.contains_key(room_id) {
            Some(game.rooms[room_id].is_public)
        } else {
            None
        }),
        game.is_playing(room_id) == (game.rooms.contains_key(room_id) && game.rooms[room_id].status
            == RoomStatus::Playing),
        game.channel(id, true) == channel_entry(game, id, true),
        game.channel(id, false) == channel_entry(game, id, false),
        game.is_lost(id) == (game.connections.contains_key(id) && game.connections[id].state
            == ConnectionState::Disconnected),
{
}

/// The peers of a player are the others in the room, and the opponent is the first of them.
pub proof fn law_peers_and_opponent<C>(game: GameView<C>, id: Uuid)
    ensures
        game.peers(id) == others_in_room(game, id),
        game.opponent(id) == (if others_in_room(game, id).len() > 0 {
            Some(others_in_room(game, id)[0])
        } else {
            None
        }),
{
    if game.in_room(id) {
        law_seats(game.own_room(id), id);
        law_dropping_ids(player_ids(game.own_room(id).players), id);
    }
}

/// The channels of a list of players are those that they have, in their order.
pub proof fn law_channels<C>(game: GameView<C>, ids: Seq<Uuid>, reliable: bool)
    ensures
        game.channels(ids, reliable) == reached(game, ids, reliable),
    decreases ids.len(),
{
    if ids.len() > 0 {
        law_channels(game, ids.drop_last(), reliable);
    }
    assert(game.channels(ids, reliable) =~= reached(game, ids, reliable));
}

/// What is sent to a room goes to the reliable channels of everybody in it.
pub proof fn law_room_channels<C>(game: GameView<C>, room_id: Uuid)
    ensures
        game.room_channels(room_id) == (if game.rooms.contains_key(room_id) {
            reached(game, seats(game.rooms[room_id].players), true)
        } else {
            Seq::empty()
        }),
{
    if game.rooms.contains_key(room_id) {
        law_seats(game.rooms[room_id], 0);
        law_channels(game, player_ids(game.rooms[room_id].players), true);
    }
}

// ---- Rooms ----

/// Whether nothing but the one room differs, and that one is there before and after.
pub open spec fn only_room_differs<C>(pre: GameView<C>, post: GameView<C>, room_id: Uuid) -> bool {
    &&& pre.rooms.contains_key(room_id)
    &&& post.rooms.dom() == pre.rooms.dom()
    &&& forall|other: Uuid| #[trigger]
        pre.rooms.contains_key(other) && other != room_id ==> post.rooms[other] == pre.rooms[other]
    &&& post.connections == pre.connections
    &&& post.player_rooms == pre.player_rooms
    &&& post.room_codes == pre.room_codes
    &&& post.queue == pre.queue
}

/// What joining does, and why it is refused.
pub open spec fn join_relation<C>(
    pre: GameView<C>,
    room_id: Uuid,
    player: PlayerView,
    refusal: Option<Seq<char>>,
    post: GameView<C>,
) -> bool {
    let room = pre.rooms[room_id];
    if !pre.rooms.contains_key(room_id) {
        refusal == Some("Room not found"@) && post == pre
    } else if room.status == RoomStatus::Playing {
        refusal == Some("Game has already started"@) && post == pre
    } else if sits(room, player.id) {
        refusal is None && post == pre
    } else if room.players.len() as u8 >= room.max_players {
        refusal == Some("Room is full"@) && post == pre
    } else {
        &&& refusal is None
        &&& only_room_differs(pre, GameView { player_rooms: pre.player_rooms, ..post }, room_id)
        &&& post.player_rooms == pre.player_rooms.insert(player.id, room_id)
        &&& post.rooms[room_id] == RoomView {
            players: room.players.push(player),
            ready_players: dropped(room.ready_players, player.id),
            ..room
        }
    }
}

/// Joining keeps to its relation.
pub proof fn law_join_effect<C>(game: GameView<C>, room_id: Uuid, player: PlayerView)
    ensures
        join_relation(
            game,
            room_id,
            player,
            game.join_refusal(room_id, player.id),
            game.after_join(room_id, player),
        ),
{
    if game.rooms.contains_key(room_id) {
        law_seats(game.rooms[room_id], player.id);
        law_dropping_ids(game.rooms[room_id].ready_players, player.id);
        assert(game.rooms.insert(room_id, game.rooms[room_id].joined(player)).dom()
            =~= game.rooms.dom());
    }
}

/// A newcomer is let into a waiting room exactly if there are fewer players in it than places,
/// whoever is ready in it.
pub proof fn law_newcomer_is_let_in_below_the_limit<C>(game: GameView<C>, room_id: Uuid, id: Uuid)
    requires
        game.rooms.contains_key(room_id),
        game.rooms[room_id].status == RoomStatus::Waiting,
        game.rooms[room_id].players.len() <= 255,
        !sits(game.rooms[room_id], id),
    ensures
        game.join_refusal(room_id, id) is None <==> game.rooms[room_id].players.len()
            < game.rooms[room_id].max_players,
{
    law_seats(game.rooms[room_id], id);
}

/// What leaving does.
pub open spec fn leave_relation<C>(pre: GameView<C>, id: Uuid, post: GameView<C>) -> bool {
    let room_id = pre.player_rooms[id];
    let room = pre.rooms[room_id];
    let rest = players_dropped(room.players, id);
    if !pre.player_rooms.contains_key(id) {
        post == pre
    } else {
        &&& post.player_rooms == pre.player_rooms.remove(id)
        &&& post.connections == pre.connections
        &&& post.queue == pre.queue
        &&& if !pre.rooms.contains_key(room_id) {
            post.rooms == pre.rooms && post.room_codes == pre.room_codes
        } else if rest.len() == 0 {
            &&& post.rooms == pre.rooms.remove(room_id)
            &&& post.room_codes == pre.room_codes.remove(room.code)
        } else {
            &&& post.room_codes == pre.room_codes
            &&& post.rooms == pre.rooms.insert(
                room_id,
                RoomView {
                    players: rest,
                    owner: if room.owner == id {
                        rest[0].id
                    } else {
                        room.owner
                    },
                    alive_players: dropped(room.alive_players, id),
                    ready_players: dropped(room.ready_players, id),
                    pings: room.pings.remove(id),
                    ..room
                },
            )
        }
    }
}

/// Leaving keeps to its relation.
pub proof fn law_leave_effect<C>(game: GameView<C>, id: Uuid)
    ensures
        leave_relation(game, id, game.after_leave(id)),
{
    let room = game.own_room(id);
    law_dropping_players(room.players, id);
    law_dropping_ids(room.alive_players, id);
    law_dropping_ids(room.ready_players, id);
}

/// What opening a room does.
pub open spec fn opening_relation<C>(
    pre: GameView<C>,
    room_id: Uuid,
    owner: PlayerView,
    room_name: Seq<char>,
    max_players: u8,
    is_public: bool,
    tags: Seq<RoomTag>,
    code: Seq<char>,
    post: GameView<C>,
) -> bool {
    &&& post.connections == pre.connections
    &&& post.queue == pre.queue
    &&& post.player_rooms == pre.player_rooms.insert(owner.id, room_id)
    &&& post.room_codes == pre.room_codes.insert(code, room_id)
    &&& post.rooms == pre.rooms.insert(
        room_id,
        RoomView {
            status: RoomStatus::Waiting,
            owner: owner.id,
            players: Seq::empty().push(owner),
            room_name,
            max_players,
            is_public,
            tags,
            code,
            match_setting: "{}"@,
            alive_players: Seq::empty(),
            ready_players: Seq::empty(),
            pings: Map::empty(),
        },
    )
}

/// Opening a room keeps to its relation.
pub proof fn law_opening_effect<C>(
    game: GameView<C>,
    room_id: Uuid,
    owner: PlayerView,
    room_name: Seq<char>,
    max_players: u8,
    is_public: bool,
    tags: Seq<RoomTag>,
    code: Seq<char>,
)
    ensures
        opening_relation(
            game,
            room_id,
            owner,
            room_name,
            max_players,
            is_public,
            tags,
            code,
            game.with_new_room(
                room_id,
                new_room_view(owner, room_name, max_players, is_public, tags, code),
            ),
        ),
{
    assert(seq![owner] =~= Seq::empty().push(owner));
}

/// What changing a rule does, and why it is refused.
pub open spec fn rule_relation<C>(
    pre: GameView<C>,
    id: Uuid,
    rule: Seq<char>,
    refusal: Option<Seq<char>>,
    post: GameView<C>,
) -> bool {
    let room_id = pre.player_rooms[id];
    let room = pre.rooms[room_id];
    let after = post.rooms[room_id];
    if !pre.player_rooms.contains_key(id) {
        refusal == Some("Not in a room"@) && post == pre
    } else if !pre.rooms.contains_key(room_id) {
        refusal == Some("Room not found"@) && post == pre
    } else if room.status == RoomStatus::Playing {
        refusal == Some("Cannot change rule after match has started"@) && post == pre
    } else if !(rule == "tet"@ || rule == "puyo"@) {
        refusal == Some("Invalid rule"@) && post == pre
    } else {
        &&& refusal is None
        &&& only_room_differs(pre, post, room_id)
        &&& after == RoomView { players: after.players, ..room }
        &&& after.players.len() == room.players.len()
        &&& forall|i: int|
            #![trigger after.players[i]]
            0 <= i < room.players.len() ==> {
                let first = room.players[i].id == id && forall|j: int|
                    0 <= j < i ==> (#[trigger] room.players[j]).id != id;
                &&& after.players[i].id == room.players[i].id
                &&& after.players[i].name == room.players[i].name
                &&& after.players[i].rule == (if first {
                    rule
                } else {
                    room.players[i].rule
                })
            }
    }
}

/// Changing a rule keeps to its relation.
pub proof fn law_rule_effect<C>(game: GameView<C>, id: Uuid, rule: Seq<char>)
    ensures
        rule_relation(game, id, rule, game.rule_refusal(id, rule), game.after_rule(id, rule)),
{
    if game.rule_refusal(id, rule) is None {
        let room_id = game.player_rooms[id];
        assert(game.after_rule(id, rule).rooms.dom() =~= game.rooms.dom());
    }
}

/// What declaring readiness does, and why it is refused.
pub open spec fn ready_relation<C>(
    pre: GameView<C>,
    id: Uuid,
    ready: bool,
    refusal: Option<Seq<char>>,
    post: GameView<C>,
) -> bool {
    let room_id = pre.player_rooms[id];
    let room = pre.rooms[room_id];
    if !pre.player_rooms.contains_key(id) {
        refusal == Some("Not in a room"@) && post == pre
    } else if !pre.rooms.contains_key(room_id) {
        refusal == Some("Room not found"@) && post == pre
    } else if room.status == RoomStatus::Playing {
        refusal == Some("Cannot change ready state during a match"@) && post == pre
    } else {
        &&& refusal is None
        &&& only_room_differs(pre, post, room_id)
        &&& post.rooms[room_id] == RoomView {
            ready_players: if ready {
                dropped(room.ready_players, id).push(id)
            } else {
                dropped(room.ready_players, id)
            },
            ..room
        }
    }
}

/// Declaring readiness keeps to its relation.
pub proof fn law_ready_effect<C>(game: GameView<C>, id: Uuid, ready: bool)
    ensures
        ready_relation(game, id, ready, game.ready_refusal(id), game.after_ready(id, ready)),
{
    if game.ready_refusal(id) is None {
        law_dropping_ids(game.own_room(id).ready_players, id);
        assert(game.after_ready(id, ready).rooms.dom() =~= game.rooms.dom());
    }
}

/// What reporting a round-trip time does.
pub open spec fn ping_relation<C>(
    pre: GameView<C>,
    id: Uuid,
    ping_ms: u32,
    post: GameView<C>,
) -> bool {
    let room_id = pre.player_rooms[id];
    let room = pre.rooms[room_id];
    if pre.player_rooms.contains_key(id) && pre.rooms.contains_key(room_id) {
        &&& only_room_differs(pre, post, room_id)
        &&& post.rooms[room_id] == RoomView { pings: room.pings.insert(id, ping_ms), ..room }
    } else {
        post == pre
    }
}

/// Reporting a round-trip time keeps to its relation.
pub proof fn law_ping_effect<C>(game: GameView<C>, id: Uuid, ping_ms: u32)
    ensures
        ping_relation(game, id, ping_ms, game.after_ping(id, ping_ms)),
{
    if game.in_room(id) {
        assert(game.after_ping(id, ping_ms).rooms.dom() =~= game.rooms.dom());
    }
}

/// What an update of a room does, and why it is refused. A granted one leaves the room with the name,
/// places, visibility and tags asked for.
pub open spec fn update_relation<C>(
    pre: GameView<C>,
    room_id: Uuid,
    id: Uuid,
    room_name: Seq<char>,
    max_players: u8,
    is_public: bool,
    tags: Seq<RoomTag>,
    refusal: Option<Seq<char>>,
    post: GameView<C>,
) -> bool {
    let room = pre.rooms[room_id];
    let after = post.rooms[room_id];
    if !pre.rooms.contains_key(room_id) {
        refusal == Some("Room not found"@) && post == pre
    } else if room.owner != id {
        refusal == Some("Only the room owner can update the room"@) && post == pre
    } else {
        &&& only_room_differs(pre, post, room_id)
        &&& after.room_name == room_name
        &&& after.status == room.status
        &&& after.owner == room.owner
        &&& after.players == room.players
        &&& after.code == room.code
        &&& after.match_setting == room.match_setting
        &&& after.alive_players == room.alive_players
        &&& after.ready_players == room.ready_players
        &&& after.pings == room.pings
        &&& if max_players < room.players.len() as u8 {
            &&& refusal == Some("Max players cannot be less than current player count"@)
            &&& after.max_players == room.max_players
            &&& after.is_public == room.is_public
            &&& after.tags == room.tags
        } else {
            &&& refusal is None
            &&& after.max_players == max_players
            &&& after.is_public == is_public
            &&& after.tags == tags
        }
    }
}

/// An update of a room keeps to its relation.
pub proof fn law_update_effect<C>(
    game: GameView<C>,
    room_id: Uuid,
    id: Uuid,
    room_name: Seq<char>,
    max_players: u8,
    is_public: bool,
    tags: Seq<RoomTag>,
)
    ensures
        update_relation(
            game,
            room_id,
            id,
            room_name,
            max_players,
            is_public,
            tags,
            game.update_refusal(room_id, id, max_players),
            game.after_update(room_id, id, room_name, max_players, is_public, tags),
        ),
{
    if game.rooms.contains_key(room_id) {
        assert(game.after_update(room_id, id, room_name, max_players, is_public, tags).rooms.dom()
            =~= game.rooms.dom());
    }
}

/// What a change of the match settings does, and why it is refused.
pub open spec fn setting_relation<C>(
    pre: GameView<C>,
    room_id: Uuid,
    id: Uuid,
    match_setting: Seq<char>,
    refusal: Option<Seq<char>>,
    post: GameView<C>,
) -> bool {
    if !pre.rooms.contains_key(room_id) {
        refusal == Some("Room not found"@) && post == pre
    } else if pre.rooms[room_id].owner != id {
        refusal == Some("Only the room owner can change match settings"@) && post == pre
    } else {
        &&& refusal is None
        &&& only_room_differs(pre, post, room_id)
        &&& post.rooms[room_id] == RoomView { match_setting, ..pre.rooms[room_id] }
    }
}

/// A change of the match settings keeps to its relation.
pub proof fn law_setting_effect<C>(
    game: GameView<C>,
    room_id: Uuid,
    id: Uuid,
    match_setting: Seq<char>,
)
    ensures
        setting_relation(
            game,
            room_id,
            id,
            match_setting,
            game.setting_refusal(room_id, id),
            game.after_setting(room_id, id, match_setting),
        ),
{
    if game.rooms.contains_key(room_id) {
        assert(game.after_setting(room_id, id, match_setting).rooms.dom() =~= game.rooms.dom());
    }
}

// ---- Matches ----

/// The names of those among the first `n` players who are neither owner nor ready, separated by a
/// comma and a space; `None` if there is nobody.
pub open spec fn late_names(room: RoomView, n: nat) -> Option<Seq<char>>
    decreases n,
{
    if n == 0 {
        None
    } else {
        let player = room.players[n - 1];
        let before = late_names(room, (n - 1) as nat);
        if player.id == room.owner || room.ready_players.contains(player.id) {
            before
        } else {
            match before {
                None => Some(player.name),
                Some(names) => Some(names + ", "@ + player.name),
            }
        }
    }
}

proof fn lemma_late_names(room: RoomView, n: nat)
    requires
        n <= room.players.len(),
    ensures
        ({
            let late = room.players.take(n as int).filter(room.holds_up());
            late_names(room, n) == (if late.len() == 0 {
                None
            } else {
                Some(comma_separated(player_names(late)))
            })
        }),
    decreases n,
{
    reveal(Seq::filter);
    if n > 0 {
        let keep = room.holds_up();
        let before = room.players.take(n - 1);
        let player = room.players[n - 1];
        lemma_late_names(room, (n - 1) as nat);
        assert(room.players.take(n as int).drop_last() =~= before);
        let late = before.filter(keep);
        if keep(player) {
            assert(player_names(late.push(player)).drop_last() =~= player_names(late));
        }
    }
}

/// What starting a match does, and why it is refused.
pub open spec fn start_relation<C>(
    pre: GameView<C>,
    room_id: Uuid,
    refusal: Option<Seq<char>>,
    post: GameView<C>,
) -> bool {
    let room = pre.rooms[room_id];
    if !pre.rooms.contains_key(room_id) {
        refusal == Some("Room not found"@) && post == pre
    } else if room.status == RoomStatus::Playing {
        refusal == Some("Game already started"@) && post == pre
    } else if room.players.len() < 2 {
        refusal == Some("Need at least 2 players"@) && post == pre
    } else {
        match late_names(room, room.players.len()) {
            Some(names) => refusal == Some("Not all players are ready: "@ + names) && post == pre,
            None => {
                &&& refusal is None
                &&& only_room_differs(pre, post, room_id)
                &&& post.rooms[room_id] == RoomView {
                    status: RoomStatus::Playing,
                    alive_players: seats(room.players),
                    ready_players: Seq::empty(),
                    ..room
                }
            },
        }
    }
}

/// Starting a match keeps to its relation.
pub proof fn law_start_effect<C>(game: GameView<C>, room_id: Uuid)
    ensures
        start_relation(game, room_id, game.start_refusal(room_id), game.after_start(room_id)),
{
    if game.rooms.contains_key(room_id) {
        let room = game.rooms[room_id];
        lemma_late_names(room, room.players.len());
        assert(room.players.take(room.players.len() as int) =~= room.players);
        law_seats(room, 0);
        assert(game.with_room(room_id, room.started()).rooms.dom() =~= game.rooms.dom());
    }
}

/// What a death decides and does. The last one alive wins; once at most one other is alive the room
/// waits again.
pub open spec fn death_relation<C>(
    pre: GameView<C>,
    id: Uuid,
    decision: WinnerStatus,
    post: GameView<C>,
) -> bool {
    let room_id = pre.player_rooms[id];
    let room = pre.rooms[room_id];
    let others = dropped(room.alive_players, id);
    if !pre.player_rooms.contains_key(id) || !pre.rooms.contains_key(room_id) || room.status
        == RoomStatus::Waiting {
        decision == WinnerStatus::MatchContinues && post == pre
    } else if others.len() >= 2 {
        &&& decision == WinnerStatus::MatchContinues
        &&& only_room_differs(pre, post, room_id)
        &&& post.rooms[room_id] == RoomView { alive_players: others, ..room }
    } else {
        &&& decision == (if others.len() == 1 {
            WinnerStatus::Winner(others[0])
        } else if exists|i: int|
            0 <= i < room.alive_players.len() && #[trigger] room.alive_players[i] == id {
            WinnerStatus::Winner(id)
        } else {
            WinnerStatus::MatchContinues
        })
        &&& only_room_differs(pre, post, room_id)
        &&& post.rooms[room_id] == RoomView {
            status: RoomStatus::Waiting,
            alive_players: Seq::empty(),
            ready_players: Seq::empty(),
            ..room
        }
    }
}

/// A death keeps to its relation.
pub proof fn law_death_effect<C>(game: GameView<C>, id: Uuid)
    ensures
        death_relation(game, id, game.decision(id), game.after_death(id)),
{
    if game.in_room(id) {
        law_dropping_ids(game.own_room(id).alive_players, id);
        assert(game.after_death(id).rooms.dom() =~= game.rooms.dom());
        assert(game.after_death(id).rooms =~= game.rooms.insert(
            game.player_rooms[id],
            game.own_room(id).after_death(id),
        ));
        if game.own_room(id).status == RoomStatus::Waiting {
            assert(game.after_death(id).rooms =~= game.rooms);
        }
    }
}

// ---- Random matches ----

/// Whether the entry at `k` is the first of the queue that is not the player's.
pub open spec fn first_in_line<C>(game: GameView<C>, id: Uuid, k: int) -> bool {
    &&& 0 <= k < game.queue.len()
    &&& game.queue[k].id != id
    &&& forall|j: int| 0 <= j < k ==> (#[trigger] game.queue[j]).id == id
}

/// Somebody waits for the player exactly if there is an entry of somebody else, and who waits for them
/// is the first such.
pub proof fn law_waiting_opponent<C>(game: GameView<C>, id: Uuid)
    ensures
        game.has_waiting_opponent(id) <==> exists|k: int| #[trigger] first_in_line(game, id, k),
        forall|k: int| #[trigger]
            first_in_line(game, id, k) ==> game.waiting_opponent(id) == game.queue[k],
{
    crate::game::lemma_first_other_stands(game.queue, id);
    let n = first_other(game.queue, id) as int;
    if n < game.queue.len() {
        assert(first_in_line(game, id, n));
    }
    assert forall|k: int| #[trigger] first_in_line(game, id, k) implies k == n by {
        if k < n {
            assert(game.queue[k].id == id);
        }
        if n < k {
            assert(game.queue[n].id == id);
        }
    }
}

/// Waiting puts the player at the end of the queue, once, and changes nothing else.
pub proof fn law_enqueue_effect<C>(game: GameView<C>, player: PlayerView)
    ensures
        ({
            let post = game.after_enqueue(player);
            &&& post.rooms == game.rooms
            &&& post.connections == game.connections
            &&& post.player_rooms == game.player_rooms
            &&& post.room_codes == game.room_codes
            &&& post.queue == (if exists|i: int|
                0 <= i < game.queue.len() && (#[trigger] game.queue[i]).id == player.id {
                game.queue
            } else {
                game.queue.push(player)
            })
        }),
{
    if player_ids(game.queue).contains(player.id) {
        let i = player_ids(game.queue).index_of(player.id);
        assert(game.queue[i].id == player.id);
    }
    if exists|i: int| 0 <= i < game.queue.len() && (#[trigger] game.queue[i]).id == player.id {
        let i = choose|i: int|
            0 <= i < game.queue.len() && (#[trigger] game.queue[i]).id == player.id;
        assert(player_ids(game.queue)[i] == player.id);
    }
}

/// What meeting the one at `k` in the queue does: they leave the queue, and both sit in a new private
/// room for two, which the one who waited owns.
pub open spec fn pairing_relation<C>(
    pre: GameView<C>,
    player: PlayerView,
    k: int,
    room_id: Uuid,
    code: Seq<char>,
    post: GameView<C>,
) -> bool {
    let waited = pre.queue[k];
    &&& post.connections == pre.connections
    &&& post.queue == pre.queue.take(k) + pre.queue.skip(k + 1)
    &&& post.player_rooms == pre.player_rooms.insert(waited.id, room_id).insert(player.id, room_id)
    &&& post.room_codes == pre.room_codes.insert(code, room_id)
    &&& post.rooms == pre.rooms.insert(
        room_id,
        RoomView {
            status: RoomStatus::Waiting,
            owner: waited.id,
            players: Seq::empty().push(waited).push(player),
            room_name: "Random Match"@,
            max_players: 2,
            is_public: false,
            tags: Seq::empty(),
            code,
            match_setting: "{}"@,
            alive_players: Seq::empty(),
            ready_players: Seq::empty(),
            pings: Map::empty(),
        },
    )
}

/// Meeting an opponent keeps to its relation.
pub proof fn law_pairing_effect<C>(
    game: GameView<C>,
    player: PlayerView,
    k: int,
    room_id: Uuid,
    code: Seq<char>,
)
    requires
        first_in_line(game, player.id, k),
    ensures
        pairing_relation(
            game,
            player,
            k,
            room_id,
            code,
            game.after_pairing(player, room_id, code),
        ),
{
    law_waiting_opponent(game, player.id);
    crate::game::lemma_first_other_stands(game.queue, player.id);
    let n = first_other(game.queue, player.id) as int;
    if n < k {
        assert(game.queue[n].id == player.id);
    }
    if k < n {
        assert(game.queue[k].id == player.id);
    }
    let waited = game.queue[k];
    assert(game.queue.remove(k) =~= game.queue.take(k) + game.queue.skip(k + 1));
    let room = new_room_view(waited, "Random Match"@, 2, false, Seq::empty(), code);
    assert(player_ids(room.players) =~= seq![waited.id]);
    assert(room.joined(player).players =~= Seq::empty().push(waited).push(player));
    law_dropping_ids(room.ready_players, player.id);
    assert(room.joined(player).ready_players =~= Seq::<Uuid>::empty());
    let post = game.after_pairing(player, room_id, code);
    assert(post.rooms =~= game.rooms.insert(room_id, room.joined(player)));
}

/// No longer waiting takes the player out of the queue, and changes nothing else.
pub proof fn law_cancel_effect<C>(game: GameView<C>, id: Uuid)
    ensures
        ({
            let post = game.after_cancel(id);
            &&& post.rooms == game.rooms
            &&& post.connections == game.connections
            &&& post.player_rooms == game.player_rooms
            &&& post.room_codes == game.room_codes
            &&& post.queue == players_dropped(game.queue, id)
        }),
{
    law_dropping_players(game.queue, id);
}

// ---- Connections ----

/// Whether nothing but the player's connection differs.
pub open spec fn only_connection_differs<C>(pre: GameView<C>, post: GameView<C>, id: Uuid) -> bool {
    &&& post.rooms == pre.rooms
    &&& post.player_rooms == pre.player_rooms
    &&& post.room_codes == pre.room_codes
    &&& post.queue == pre.queue
    &&& forall|other: Uuid|
        other != id ==> (#[trigger] post.connections.contains_key(other)
            <==> pre.connections.contains_key(other))
    &&& forall|other: Uuid|
        other != id && #[trigger] pre.connections.contains_key(other) ==> post.connections[other]
            == pre.connections[other]
}

/// A new channel takes the place of the old one of its kind and leaves the other one. With both there
/// the player is connected; else the state stays, and a new player is establishing.
pub proof fn law_channel_effect<C>(game: GameView<C>, id: Uuid, channel: C, reliable: bool)
    ensures
        ({
            let post = if reliable {
                game.with_reliable(id, channel)
            } else {
                game.with_unreliable(id, channel)
            };
            let other = channel_entry(game, id, !reliable);
            &&& only_connection_differs(game, post, id)
            &&& post.connections.contains_key(id)
            &&& channel_entry(post, id, reliable) == Some(channel)
            &&& channel_entry(post, id, !reliable) == other
            &&& post.connections[id].state == (if other is Some {
                ConnectionState::Connected
            } else if game.connections.contains_key(id) {
                game.connections[id].state
            } else {
                ConnectionState::Establishing
            })
        }),
{
}

/// Looking at a pair changes nothing of it but that it counts as connected if both channels are there.
pub proof fn law_settling<C>(pair: ChannelPair<C>)
    ensures
        pair.settled().reliable == pair.reliable,
        pair.settled().unreliable == pair.unreliable,
        pair.settled().state == (if pair.reliable is Some && pair.unreliable is Some {
            ConnectionState::Connected
        } else {
            pair.state
        }),
{
}

/// Marking a connection changes its state alone, and nothing if there is none.
pub proof fn law_marking_effect<C>(game: GameView<C>, id: Uuid, state: ConnectionState)
    ensures
        ({
            let post = game.with_connection_state(id, state);
            if game.connections.contains_key(id) {
                &&& only_connection_differs(game, post, id)
                &&& post.connections.contains_key(id)
                &&& post.connections[id].state == state
                &&& post.connections[id].reliable == game.connections[id].reliable
                &&& post.connections[id].unreliable == game.connections[id].unreliable
            } else {
                post == game
            }
        }),
{
}

/// Removing a player is leaving, without a connection and out of the queue.
pub proof fn law_remove_effect<C>(game: GameView<C>, id: Uuid)
    ensures
        ({
            let post = game.after_remove(id);
            &&& post.connections == game.connections.remove(id)
            &&& post.queue == players_dropped(game.queue, id)
            &&& leave_relation(
                game,
                id,
                GameView { connections: game.connections, queue: game.queue, ..post },
            )
        }),
{
    law_dropping_players(game.queue, id);
    law_leave_effect(game, id);
    let post = game.after_remove(id);
    assert(GameView { connections: game.connections, queue: game.queue, ..post }
        =~= game.after_leave(id));
}

/// Removing a lost player is their death, where a match is running, and then their removal.
pub proof fn law_loss_effect<C>(game: GameView<C>, id: Uuid)
    ensures
        exists|mid: GameView<C>|
            {
                &&& #[trigger] death_relation(game, id, game.decision(id), mid)
                &&& game.after_loss(id).connections == mid.connections.remove(id)
                &&& game.after_loss(id).queue == players_dropped(mid.queue, id)
                &&& leave_relation(
                    mid,
                    id,
                    GameView {
                        connections: mid.connections,
                        queue: mid.queue,
                        ..game.after_loss(id)
                    },
                )
            },
{
    let mid = game.after_death(id);
    law_death_effect(game, id);
    law_remove_effect(mid, id);
    assert(death_relation(game, id, game.decision(id), mid));
}

// ---- What players are told ----

/// A room list shows exactly the public rooms that wait, each once, with its name, number of players,
/// places and tags.
pub proof fn law_room_list<C>(game: GameView<C>, list: Seq<ListRoomView>)
    requires
        is_room_list(game.rooms, list),
    ensures
        forall|i: int|
            #![trigger list[i]]
            0 <= i < list.len() ==> {
                let room = game.rooms[list[i].id];
                &&& game.rooms.contains_key(list[i].id)
                &&& room.status == RoomStatus::Waiting
                &&& room.is_public
                &&& list[i].room_name == room.room_name
                &&& list[i].players == room.players.len() as u8
                &&& list[i].max_players == room.max_players
                &&& !list[i].locked
                &&& list[i].tags.len() == room.tags.len()
                &&& forall|j: int|
                    0 <= j < room.tags.len() ==> #[trigger] list[i].tags[j] == tag_number(
                        room.tags[j],
                    )
            },
        forall|i: int, j: int|
            0 <= i < j < list.len() ==> (#[trigger] list[i]).id != (#[trigger] list[j]).id,
        forall|room_id: Uuid| #[trigger]
            game.rooms.contains_key(room_id) && game.rooms[room_id].status == RoomStatus::Waiting
                && game.rooms[room_id].is_public ==> exists|i: int|
                0 <= i < list.len() && (#[trigger] list[i]).id == room_id,
{
}

/// The number of a tag in messages.
pub open spec fn tag_number(tag: RoomTag) -> u32 {
    match tag {
        RoomTag::PuyoTet => 0,
        RoomTag::PuyoOnly => 1,
        RoomTag::TetOnly => 2,
        RoomTag::Casual => 3,
        RoomTag::Competitive => 4,
    }
}

/// Tags and numbers stand for each other one for one, and a number without a tag stands for a casual
/// room.
pub proof fn law_tag_numbers(codes: Seq<u32>, i: int)
    requires
        0 <= i < codes.len(),
    ensures
        crate::room::tags_of_codes(codes).len() == codes.len(),
        tag_number(crate::room::tags_of_codes(codes)[i]) == (if codes[i] <= 4 {
            codes[i]
        } else {
            3
        }),
{
}

/// What is told of a room is what the room holds, field by field.
pub proof fn law_room_info_is_the_room(room_id: Uuid, room: RoomView, info: RoomInfoView)
    requires
        is_room_info(room_id, room, info),
    ensures
        info.room_id == room_id,
        info.owner_id == room.owner,
        info.room_name == room.room_name,
        info.players == room.players,
        info.max_players == room.max_players,
        info.is_public == room.is_public,
        info.code == room.code,
        info.match_setting == room.match_setting,
        info.ready_players == room.ready_players,
        info.tags.len() == room.tags.len(),
        forall|i: int|
            0 <= i < room.tags.len() ==> #[trigger] info.tags[i] == tag_number(room.tags[i]),
        forall|i: int|
            0 <= i < info.pings.len() ==> room.pings.contains_key((#[trigger] info.pings[i]).0)
                && room.pings[info.pings[i].0] == info.pings[i].1,
        forall|i: int, j: int|
            0 <= i < j < info.pings.len() ==> (#[trigger] info.pings[i]).0 != (
            #[trigger] info.pings[j]).0,
        forall|id: Uuid| #[trigger]
            room.pings.contains_key(id) ==> exists|i: int|
                0 <= i < info.pings.len() && (#[trigger] info.pings[i]).0 == id,
{
}

/// After the owner changed the match settings, whatever is told of the room carries those settings.
pub proof fn law_changed_settings_are_told<C>(
    game: GameView<C>,
    room_id: Uuid,
    match_setting: Seq<char>,
    info: RoomInfoView,
)
    requires
        game.rooms.contains_key(room_id),
        ({
            let after = game.after_setting(room_id, game.rooms[room_id].owner, match_setting);
            is_room_info(room_id, after.rooms[room_id], info)
        }),
    ensures
        info.match_setting == match_setting,
{
}

/// After the owner updated the room, whatever is told of it carries what the owner asked for.
pub proof fn law_updated_room_is_told<C>(
    game: GameView<C>,
    room_id: Uuid,
    room_name: Seq<char>,
    max_players: u8,
    is_public: bool,
    tags: Seq<RoomTag>,
    info: RoomInfoView,
)
    requires
        game.rooms.contains_key(room_id),
        game.rooms[room_id].players.len() <= max_players,
        ({
            let owner = game.rooms[room_id].owner;
            let after = game.after_update(room_id, owner, room_name, max_players, is_public, tags);
            is_room_info(room_id, after.rooms[room_id], info)
        }),
    ensures
        info.room_name == room_name,
        info.max_players == max_players,
        info.is_public == is_public,
        info.tags.len() == tags.len(),
        forall|i: int| 0 <= i < tags.len() ==> #[trigger] info.tags[i] == tag_number(tags[i]),
        info.players == game.rooms[room_id].players,
{
}

/// After a player joined, whatever is told of the room ends its players with them, and does not count
/// them as ready.
pub proof fn law_joined_player_is_told<C>(
    game: GameView<C>,
    room_id: Uuid,
    player: PlayerView,
    info: RoomInfoView,
)
    requires
        game.join_refusal(room_id, player.id) is None,
        !sits(game.rooms[room_id], player.id),
        is_room_info(room_id, game.after_join(room_id, player).rooms[room_id], info),
    ensures
        info.players == game.rooms[room_id].players.push(player),
        !info.ready_players.contains(player.id),
{
    law_seats(game.rooms[room_id], player.id);
    crate::lists::lemma_without(game.rooms[room_id].ready_players, player.id);
}

} // verus!
