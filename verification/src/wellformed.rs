//! What holds of the state of the server at all times.

use vstd::prelude::*;

use crate::game::{ChannelPair, ConnectionState};
use crate::ids::Uuid;
use crate::lists::{
    lemma_players_without, lemma_without, player_ids, players_without, without, PlayerView,
};
use crate::model::{first_other, is_room_code, new_room_view, GameView};
use crate::room::{RoomStatus, RoomTag, RoomView};

verus! {

impl RoomView {
    /// A room has an owner who sits in it, no player twice and no more players than places. Those
    /// ready, alive or with a round-trip time sit in it. Only a running match has players alive,
    /// and only a waiting room has players ready.
    pub open spec fn wf(self) -> bool {
        &&& self.has_player(self.owner)
        &&& player_ids(self.players).no_duplicates()
        &&& self.players.len() <= 1 || self.players.len() <= self.max_players
        &&& self.ready_players.no_duplicates()
        &&& forall|id: Uuid| #[trigger] self.ready_players.contains(id) ==> self.has_player(id)
        &&& self.alive_players.no_duplicates()
        &&& forall|id: Uuid| #[trigger] self.alive_players.contains(id) ==> self.has_player(id)
        &&& forall|id: Uuid| #[trigger] self.pings.contains_key(id) ==> self.has_player(id)
        &&& self.status == RoomStatus::Waiting ==> self.alive_players.len() == 0
        &&& self.status == RoomStatus::Playing ==> self.ready_players.len() == 0
    }
}

impl<C> GameView<C> {
    /// Each route leads to a room that the player sits in.
    pub open spec fn routes_wf(self) -> bool {
        forall|id: Uuid| #[trigger]
            self.player_rooms.contains_key(id) ==> self.rooms.contains_key(self.player_rooms[id])
                && self.rooms[self.player_rooms[id]].has_player(id)
    }

    /// Each code stands for the room that carries it.
    pub open spec fn codes_wf(self) -> bool {
        forall|code: Seq<char>| #[trigger]
            self.room_codes.contains_key(code) ==> self.rooms.contains_key(self.room_codes[code])
                && self.rooms[self.room_codes[code]].code == code
    }

    /// Each room is well formed and is found by its code, which has six digits.
    pub open spec fn rooms_wf(self) -> bool {
        forall|room_id: Uuid| #[trigger]
            self.rooms.contains_key(room_id) ==> {
                &&& self.rooms[room_id].wf()
                &&& is_room_code(self.rooms[room_id].code)
                &&& self.room_codes.contains_key(self.rooms[room_id].code)
                &&& self.room_codes[self.rooms[room_id].code] == room_id
            }
    }

    /// A connected player has both channels.
    pub open spec fn connections_wf(self) -> bool {
        forall|id: Uuid| #[trigger]
            self.connections.contains_key(id) && self.connections[id].state
                == ConnectionState::Connected ==> self.connections[id].is_complete()
    }

    /// What holds of the state at all times. No two players ever wait for an opponent: the second
    /// one meets the first.
    pub open spec fn wf(self) -> bool {
        &&& self.routes_wf()
        &&& self.codes_wf()
        &&& self.rooms_wf()
        &&& self.connections_wf()
        &&& self.queue.len() <= 1
    }
}

/// Replacing a room by a well-formed one with the same code and the same players keeps the state
/// well formed.
pub proof fn lemma_with_room_wf<C>(game: GameView<C>, room_id: Uuid, room: RoomView)
    requires
        game.wf(),
        game.rooms.contains_key(room_id),
        room.wf(),
        room.code == game.rooms[room_id].code,
        player_ids(room.players) == player_ids(game.rooms[room_id].players),
    ensures
        game.with_room(room_id, room).wf(),
{
}

/// Joining keeps a room well formed.
pub proof fn lemma_joined_wf(room: RoomView, player: PlayerView)
    requires
        room.wf(),
        room.join_refusal(player.id) is None,
        !room.has_player(player.id),
    ensures
        room.joined(player).wf(),
        forall|id: Uuid| #[trigger]
            room.joined(player).has_player(id) <==> room.has_player(id) || id == player.id,
{
    let after = room.joined(player);
    let ids = player_ids(room.players);
    assert(player_ids(after.players) =~= ids.push(player.id));
    assert forall|id: Uuid| #[trigger] after.has_player(id) <==> room.has_player(id) || id
        == player.id by {
        vstd::seq_lib::lemma_seq_contains_after_push(ids, player.id, id);
    }
    assert forall|i: int, j: int| 0 <= i < j < after.players.len() implies player_ids(
        after.players,
    )[i] != player_ids(after.players)[j] by {
        assert(ids.contains(ids[i]));
    }
    lemma_without(room.ready_players, player.id);
    assert(room.alive_players == after.alive_players);
    assert(room.players.len() <= 255);
}

/// Joining keeps the state well formed.
pub proof fn lemma_after_join_wf<C>(game: GameView<C>, room_id: Uuid, player: PlayerView)
    requires
        game.wf(),
    ensures
        game.after_join(room_id, player).wf(),
{
    if game.join_refusal(room_id, player.id) is None && !game.rooms[room_id].has_player(player.id) {
        lemma_joined_wf(game.rooms[room_id], player);
    }
}

/// Leaving keeps a room well formed, as long as somebody stays.
pub proof fn lemma_left_wf(room: RoomView, id: Uuid)
    requires
        room.wf(),
        room.left(id).players.len() > 0,
    ensures
        room.left(id).wf(),
{
    let after = room.left(id);
    let ids = player_ids(room.players);
    lemma_players_without(room.players, id);
    lemma_without(ids, id);
    lemma_without(room.ready_players, id);
    lemma_without(room.alive_players, id);
    assert forall|x: Uuid| #[trigger] after.has_player(x) <==> room.has_player(x) && x != id by {
        assert(without(ids, id).contains(x) <==> ids.contains(x) && x != id);
    }
    if room.owner == id {
        assert(player_ids(after.players)[0] == after.owner);
    }
    assert(room.ready_players.len() == 0 ==> after.ready_players.len() == 0);
    assert(room.alive_players.len() == 0 ==> after.alive_players.len() == 0);
}

/// Leaving keeps the state well formed.
pub proof fn lemma_after_leave_wf<C>(game: GameView<C>, id: Uuid)
    requires
        game.wf(),
    ensures
        game.after_leave(id).wf(),
{
    if game.player_rooms.contains_key(id) {
        let room_id = game.player_rooms[id];
        let room = game.rooms[room_id];
        let after = game.after_leave(id);
        lemma_players_without(room.players, id);
        lemma_without(player_ids(room.players), id);
        let left = room.left(id);
        assert forall|x: Uuid| #[trigger] left.has_player(x) <==> room.has_player(x) && x != id by {
            assert(without(player_ids(room.players), id).contains(x) <==> player_ids(
                room.players,
            ).contains(x) && x != id);
        }
        if left.players.len() > 0 {
            lemma_left_wf(room, id);
            assert(after.routes_wf());
        } else {
            assert forall|x: Uuid| #[trigger] after.player_rooms.contains_key(x) implies ({
                &&& after.rooms.contains_key(after.player_rooms[x])
                &&& after.rooms[after.player_rooms[x]].has_player(x)
            }) by {
                if game.player_rooms[x] == room_id {
                    assert(left.has_player(x));
                    assert(false);
                }
            }
            assert(after.codes_wf());
            assert(after.rooms_wf());
        }
    }
}

/// Opening a room with a fresh identifier and a fresh code keeps the state well formed.
pub proof fn lemma_with_new_room_wf<C>(
    game: GameView<C>,
    room_id: Uuid,
    owner: PlayerView,
    room_name: Seq<char>,
    max_players: u8,
    is_public: bool,
    tags: Seq<RoomTag>,
    code: Seq<char>,
)
    requires
        game.wf(),
        !game.rooms.contains_key(room_id),
        !game.room_codes.contains_key(code),
        is_room_code(code),
    ensures
        game.with_new_room(
            room_id,
            new_room_view(owner, room_name, max_players, is_public, tags, code),
        ).wf(),
{
    let room = new_room_view(owner, room_name, max_players, is_public, tags, code);
    assert(player_ids(room.players) =~= seq![owner.id]);
    assert(player_ids(room.players)[0] == owner.id);
    assert(room.wf());
    let after = game.with_new_room(room_id, room);
    assert(after.routes_wf());
    assert(after.codes_wf());
    assert(after.rooms_wf());
}

/// Changing a rule keeps the state well formed.
pub proof fn lemma_after_rule_wf<C>(game: GameView<C>, id: Uuid, rule: Seq<char>)
    requires
        game.wf(),
    ensures
        game.after_rule(id, rule).wf(),
{
    if game.rule_refusal(id, rule) is None {
        let room = game.own_room(id);
        let after = room.with_rule(id, rule);
        assert(player_ids(after.players) =~= player_ids(room.players));
        assert(after.wf());
        lemma_with_room_wf(game, game.player_rooms[id], after);
    }
}

/// Declaring readiness keeps the state well formed.
pub proof fn lemma_after_ready_wf<C>(game: GameView<C>, id: Uuid, ready: bool)
    requires
        game.wf(),
    ensures
        game.after_ready(id, ready).wf(),
{
    if game.ready_refusal(id) is None {
        let room = game.own_room(id);
        let after = room.with_ready(id, ready);
        let others = without(room.ready_players, id);
        lemma_without(room.ready_players, id);
        assert forall|x: Uuid| #[trigger] after.ready_players.contains(x) implies room.has_player(
            x,
        ) by {
            if ready {
                vstd::seq_lib::lemma_seq_contains_after_push(others, id, x);
            }
        }
        if ready {
            assert(!others.contains(id));
            assert forall|i: int, j: int| 0 <= i < j < others.push(id).len() implies others.push(
                id,
            )[i] != others.push(id)[j] by {
                assert(others.contains(others[i]));
            }
        }
        assert(after.wf());
        lemma_with_room_wf(game, game.player_rooms[id], after);
    }
}

/// Reporting a round-trip time keeps the state well formed.
pub proof fn lemma_after_ping_wf<C>(game: GameView<C>, id: Uuid, ping_ms: u32)
    requires
        game.wf(),
    ensures
        game.after_ping(id, ping_ms).wf(),
{
    if game.in_room(id) {
        let room = game.own_room(id);
        let after = RoomView { pings: room.pings.insert(id, ping_ms), ..room };
        assert(after.wf());
        lemma_with_room_wf(game, game.player_rooms[id], after);
    }
}

/// Starting a match keeps the state well formed.
pub proof fn lemma_after_start_wf<C>(game: GameView<C>, room_id: Uuid)
    requires
        game.wf(),
    ensures
        game.after_start(room_id).wf(),
{
    if game.start_refusal(room_id) is None {
        let room = game.rooms[room_id];
        assert(room.started().wf());
        lemma_with_room_wf(game, room_id, room.started());
    }
}

/// A death keeps the state well formed.
pub proof fn lemma_after_death_wf<C>(game: GameView<C>, id: Uuid)
    requires
        game.wf(),
    ensures
        game.after_death(id).wf(),
{
    if game.in_room(id) {
        let room = game.own_room(id);
        lemma_without(room.alive_players, id);
        let after = room.after_death(id);
        assert(after.wf());
        lemma_with_room_wf(game, game.player_rooms[id], after);
    }
}

/// What owners change keeps the state well formed.
pub proof fn lemma_after_update_wf<C>(
    game: GameView<C>,
    room_id: Uuid,
    id: Uuid,
    room_name: Seq<char>,
    max_players: u8,
    is_public: bool,
    tags: Seq<RoomTag>,
)
    requires
        game.wf(),
    ensures
        game.after_update(room_id, id, room_name, max_players, is_public, tags).wf(),
{
    if game.rooms.contains_key(room_id) && game.rooms[room_id].owner == id {
        let room = game.rooms[room_id];
        assert(room.players.len() <= 255);
        let renamed = RoomView { room_name, ..room };
        assert(renamed.wf());
        lemma_with_room_wf(game, room_id, renamed);
        if max_players >= room.player_count() {
            let updated = RoomView { room_name, max_players, is_public, tags, ..room };
            assert(updated.wf());
            lemma_with_room_wf(game, room_id, updated);
        }
    }
}

/// New match settings keep the state well formed.
pub proof fn lemma_after_setting_wf<C>(
    game: GameView<C>,
    room_id: Uuid,
    id: Uuid,
    match_setting: Seq<char>,
)
    requires
        game.wf(),
    ensures
        game.after_setting(room_id, id, match_setting).wf(),
{
    if game.setting_refusal(room_id, id) is None {
        let after = RoomView { match_setting, ..game.rooms[room_id] };
        assert(after.wf());
        lemma_with_room_wf(game, room_id, after);
    }
}

/// Waiting for an opponent keeps the state well formed, where nobody else waits.
pub proof fn lemma_after_enqueue_wf<C>(game: GameView<C>, player: PlayerView)
    requires
        game.wf(),
        !game.has_waiting_opponent(player.id),
    ensures
        game.after_enqueue(player).wf(),
{
    if game.queue.len() > 0 {
        assert(first_other(game.queue, player.id) != 0);
        assert(player_ids(game.queue)[0] == player.id);
    }
}

/// Meeting an opponent keeps the state well formed.
pub proof fn lemma_after_pairing_wf<C>(
    game: GameView<C>,
    player: PlayerView,
    room_id: Uuid,
    code: Seq<char>,
)
    requires
        game.wf(),
        game.has_waiting_opponent(player.id),
        !game.rooms.contains_key(room_id),
        !game.room_codes.contains_key(code),
        is_room_code(code),
    ensures
        game.after_pairing(player, room_id, code).wf(),
{
    let dequeued = GameView {
        queue: game.queue.remove(first_other(game.queue, player.id) as int),
        ..game
    };
    let opponent = game.waiting_opponent(player.id);
    lemma_with_new_room_wf(
        dequeued,
        room_id,
        opponent,
        "Random Match"@,
        2,
        false,
        Seq::empty(),
        code,
    );
    let opened = dequeued.with_new_room(
        room_id,
        new_room_view(opponent, "Random Match"@, 2, false, Seq::empty(), code),
    );
    lemma_after_join_wf(opened, room_id, player);
}

/// No longer waiting keeps the state well formed.
pub proof fn lemma_after_cancel_wf<C>(game: GameView<C>, id: Uuid)
    requires
        game.wf(),
    ensures
        game.after_cancel(id).wf(),
{
    game.queue.lemma_filter_len(crate::lists::player_other_than(id));
}

/// Changing a player's channels keeps the state well formed, if a connected player has both.
pub proof fn lemma_with_pair_wf<C>(game: GameView<C>, id: Uuid, pair: ChannelPair<C>)
    requires
        game.wf(),
        pair.state == ConnectionState::Connected ==> pair.is_complete(),
    ensures
        game.with_pair(id, pair).wf(),
{
}

/// Removing a player keeps the state well formed.
pub proof fn lemma_after_remove_wf<C>(game: GameView<C>, id: Uuid)
    requires
        game.wf(),
    ensures
        game.after_remove(id).wf(),
{
    let without_channels = GameView {
        connections: game.connections.remove(id),
        queue: players_without(game.queue, id),
        ..game
    };
    game.queue.lemma_filter_len(crate::lists::player_other_than(id));
    assert(without_channels.wf());
    lemma_after_leave_wf(without_channels, id);
}

} // verus!
