//! What holds of the server as a whole.

use vstd::prelude::*;

use crate::connection::common::FollowupView;
use crate::game::{lemma_first_other_stands, ConnectionState};
use crate::ids::Uuid;
use crate::lists::{
    lemma_filter_all, lemma_players_without, lemma_without, lemma_without_member, player_ids,
    player_other_than, players_without, without, PlayerView,
};
use crate::model::{
    digit, first_other, is_room_code, is_room_list, list_entry, new_room_view, six_digits, GameView,
};
use crate::payload::json::{ListRoomView, MessageView};
use crate::room::{
    comma_separated, player_names, RoomStatus, RoomTag, RoomView, WinnerStatus,
};

verus! {

// ---- Routes ----

/// A player's peers are the others in their room, all of them and nobody else.
pub proof fn law_peers_are_the_others<C>(game: GameView<C>, id: Uuid, other: Uuid)
    ensures
        game.peers(id).contains(other) <==> game.in_room(id) && game.own_room(id).has_player(other)
            && other != id,
{
    if game.in_room(id) {
        lemma_without(player_ids(game.own_room(id).players), id);
    }
}

/// In a room of two, each is the other's opponent.
pub proof fn law_opponents_are_mutual<C>(game: GameView<C>, room_id: Uuid, a: PlayerView, b: PlayerView)
    requires
        a.id != b.id,
        game.rooms.contains_key(room_id),
        game.rooms[room_id].players == seq![a, b],
        game.room_of(a.id) == Some(room_id),
        game.room_of(b.id) == Some(room_id),
    ensures
        game.opponent(a.id) == Some(b.id),
        game.opponent(b.id) == Some(a.id),
{
    let ids = player_ids(game.rooms[room_id].players);
    assert(ids =~= seq![a.id, b.id]);
    reveal(Seq::filter);
    reveal_with_fuel(Seq::filter, 3);
    assert(ids.drop_last() =~= seq![a.id]);
    assert(ids.drop_last().drop_last() =~= Seq::<Uuid>::empty());
    assert(without(ids, a.id) =~= seq![b.id]);
    assert(without(ids, b.id) =~= seq![a.id]);
}

/// Messages to a room go to channels of players who sit in it, and to no other channel.
pub proof fn law_room_channels_are_of_members<C>(game: GameView<C>, room_id: Uuid, channel: C)
    requires
        game.room_channels(room_id).contains(channel),
    ensures
        exists|id: Uuid| #[trigger]
            game.rooms[room_id].has_player(id) && game.channel(id, true) == Some(channel),
{
    let ids = player_ids(game.rooms[room_id].players);
    let f = |id: Uuid| game.channel(id, true);
    ids.lemma_filter_map_contains(f, channel);
    let id = choose|id: Uuid| #[trigger] ids.contains(id) && f(id) == Some(channel);
    assert(game.rooms[room_id].has_player(id));
}

/// Relayed frames go to channels of the others in the sender's room, and to no other channel.
pub proof fn law_relay_stays_in_the_room<C>(
    game: GameView<C>,
    sender: Uuid,
    reliable: bool,
    channel: C,
)
    requires
        game.channels(game.peers(sender), reliable).contains(channel),
    ensures
        game.in_room(sender),
        exists|id: Uuid| #[trigger]
            game.own_room(sender).has_player(id) && id != sender && game.channel(id, reliable)
                == Some(channel),
{
    let ids = game.peers(sender);
    let f = |id: Uuid| game.channel(id, reliable);
    ids.lemma_filter_map_contains(f, channel);
    let id = choose|id: Uuid| #[trigger] ids.contains(id) && f(id) == Some(channel);
    law_peers_are_the_others(game, sender, id);
}

/// Whatever is relayed reaches everybody else in the sender's room who has such a channel.
pub proof fn law_relay_reaches_every_peer<C>(
    game: GameView<C>,
    sender: Uuid,
    reliable: bool,
    other: Uuid,
    channel: C,
)
    requires
        game.in_room(sender),
        game.own_room(sender).has_player(other),
        other != sender,
        game.channel(other, reliable) == Some(channel),
    ensures
        game.channels(game.peers(sender), reliable).contains(channel),
{
    law_peers_are_the_others(game, sender, other);
    lemma_filter_map_keeps(
        game.peers(sender),
        |id: Uuid| game.channel(id, reliable),
        other,
        channel,
    );
}

/// Whatever is sent to a room reaches everybody in it who has a reliable channel.
pub proof fn law_broadcast_reaches_every_member<C>(
    game: GameView<C>,
    room_id: Uuid,
    member: Uuid,
    channel: C,
)
    requires
        game.rooms.contains_key(room_id),
        game.rooms[room_id].has_player(member),
        game.channel(member, true) == Some(channel),
    ensures
        game.room_channels(room_id).contains(channel),
{
    lemma_filter_map_keeps(
        player_ids(game.rooms[room_id].players),
        |id: Uuid| game.channel(id, true),
        member,
        channel,
    );
}

proof fn lemma_filter_map_keeps<A, B>(s: Seq<A>, f: spec_fn(A) -> Option<B>, a: A, b: B)
    requires
        s.contains(a),
        f(a) == Some(b),
    ensures
        s.filter_map(f).contains(b),
    decreases s.len(),
{
    let rest = s.drop_last();
    let kept = rest.filter_map(f);
    let all = s.filter_map(f);
    if s.last() == a {
        assert(all[all.len() - 1] == b);
    } else {
        let i = s.index_of(a);
        assert(rest[i] == a);
        lemma_filter_map_keeps(rest, f, a, b);
        let k = kept.index_of(b);
        assert(all[k] == b);
    }
}

/// In a room of two, when one leaves the other has no opponent.
pub proof fn law_opponent_leaves<C>(
    game: GameView<C>,
    room_id: Uuid,
    stays: PlayerView,
    leaves: PlayerView,
)
    requires
        stays.id != leaves.id,
        game.rooms.contains_key(room_id),
        game.rooms[room_id].players == seq![stays, leaves] || game.rooms[room_id].players == seq![
            leaves,
            stays,
        ],
        game.room_of(stays.id) == Some(room_id),
        game.room_of(leaves.id) == Some(room_id),
    ensures
        game.after_leave(leaves.id).room_of(stays.id) == Some(room_id),
        game.after_leave(leaves.id).opponent(stays.id) is None,
        game.after_leave(leaves.id).opponent(leaves.id) is None,
{
    let room = game.rooms[room_id];
    let rest = room.left(leaves.id).players;
    let after = game.after_leave(leaves.id);
    reveal(Seq::filter);
    reveal_with_fuel(Seq::filter, 3);
    assert(room.players.drop_last() =~= seq![room.players[0]]);
    assert(room.players.drop_last().drop_last() =~= Seq::<PlayerView>::empty());
    assert(rest =~= seq![stays]);
    lemma_without(player_ids(rest), stays.id);
    assert(player_ids(rest) =~= seq![stays.id]);
    if after.peers(stays.id).len() > 0 {
        let first = after.peers(stays.id)[0];
        assert(after.peers(stays.id).contains(first));
    }
}

// ---- Rooms ----

/// A new room is found by its code, its owner is routed to it, and no other code means anything
/// else than before.
pub proof fn law_new_room_is_found_by_its_code<C>(game: GameView<C>, room_id: Uuid, room: RoomView)
    ensures
        game.with_new_room(room_id, room).room_by_code(room.code) == Some(room_id),
        game.with_new_room(room_id, room).room_of(room.owner) == Some(room_id),
        forall|code: Seq<char>|
            code != room.code ==> #[trigger] game.with_new_room(room_id, room).room_by_code(code)
                == game.room_by_code(code),
{
}

/// A guest who joins a new room for two is routed to it, and owner and guest are opponents.
pub proof fn law_guest_meets_owner<C>(
    game: GameView<C>,
    room_id: Uuid,
    owner: PlayerView,
    room_name: Seq<char>,
    is_public: bool,
    tags: Seq<RoomTag>,
    code: Seq<char>,
    guest: PlayerView,
)
    requires
        guest.id != owner.id,
    ensures
        ({
            let room = new_room_view(owner, room_name, 2, is_public, tags, code);
            let opened = game.with_new_room(room_id, room);
            let joined = opened.after_join(room_id, guest);
            &&& opened.join_refusal(room_id, guest.id) is None
            &&& joined.room_of(owner.id) == Some(room_id)
            &&& joined.room_of(guest.id) == Some(room_id)
            &&& joined.opponent(owner.id) == Some(guest.id)
            &&& joined.opponent(guest.id) == Some(owner.id)
        }),
{
    let room = new_room_view(owner, room_name, 2, is_public, tags, code);
    let opened = game.with_new_room(room_id, room);
    assert(player_ids(room.players) =~= seq![owner.id]);
    assert(!room.has_player(guest.id));
    let joined = opened.after_join(room_id, guest);
    assert(joined.rooms[room_id].players =~= seq![owner, guest]);
    law_opponents_are_mutual(joined, room_id, owner, guest);
}

/// Joining a second time is granted and changes nothing.
pub proof fn law_join_is_idempotent<C>(
    game: GameView<C>,
    room_id: Uuid,
    player: PlayerView,
    again: PlayerView,
)
    requires
        game.join_refusal(room_id, player.id) is None,
        again.id == player.id,
    ensures
        game.after_join(room_id, player).rooms[room_id].has_player(player.id),
        game.after_join(room_id, player).join_refusal(room_id, again.id) is None,
        game.after_join(room_id, player).after_join(room_id, again) == game.after_join(
            room_id,
            player,
        ),
{
    let room = game.rooms[room_id];
    if !room.has_player(player.id) {
        let ids = player_ids(room.joined(player).players);
        assert(ids[ids.len() - 1] == player.id);
    }
}

/// Nobody joins a full room, a room with a running match, or a room that is not there.
pub proof fn law_join_is_refused<C>(game: GameView<C>, room_id: Uuid, player: PlayerView)
    requires
        !game.rooms.contains_key(room_id) || game.rooms[room_id].status == RoomStatus::Playing || (
        !game.rooms[room_id].has_player(player.id) && game.rooms[room_id].player_count()
            >= game.rooms[room_id].max_players),
    ensures
        game.join_refusal(room_id, player.id) is Some,
        game.after_join(room_id, player) == game,
{
}

/// One who has just joined is not ready, whoever they were before.
pub proof fn law_newcomer_is_not_ready<C>(game: GameView<C>, room_id: Uuid, player: PlayerView)
    requires
        game.join_refusal(room_id, player.id) is None,
        !game.rooms[room_id].has_player(player.id),
    ensures
        !game.after_join(room_id, player).rooms[room_id].ready_players.contains(player.id),
{
    lemma_without(game.rooms[room_id].ready_players, player.id);
}

/// Leaving clears the player's route, and with it their room, peers and opponent. The routes of
/// everybody else stay.
pub proof fn law_leaving_clears_the_route<C>(game: GameView<C>, id: Uuid)
    ensures
        game.after_leave(id).room_of(id) is None,
        game.after_leave(id).opponent(id) is None,
        game.after_leave(id).peers(id).len() == 0,
        forall|other: Uuid|
            other != id ==> #[trigger] game.after_leave(id).room_of(other) == game.room_of(other),
{
}

/// Who leaves does not sit in the room any more; everybody else does.
pub proof fn law_leaving_takes_one_player_out<C>(game: GameView<C>, id: Uuid, other: Uuid)
    requires
        game.in_room(id),
        game.after_leave(id).rooms.contains_key(game.player_rooms[id]),
    ensures
        game.after_leave(id).rooms[game.player_rooms[id]].has_player(other) <==> game.own_room(
            id,
        ).has_player(other) && other != id,
{
    lemma_players_without(game.own_room(id).players, id);
    lemma_without(player_ids(game.own_room(id).players), id);
}

/// When the owner leaves, the one who has been there longest owns the room; when another leaves,
/// the owner stays.
pub proof fn law_ownership_passes_on<C>(game: GameView<C>, id: Uuid)
    requires
        game.in_room(id),
        game.after_leave(id).rooms.contains_key(game.player_rooms[id]),
    ensures
        ({
            let room = game.own_room(id);
            let after = game.after_leave(id).rooms[game.player_rooms[id]];
            &&& room.owner == id ==> after.owner == after.players[0].id
            &&& room.owner != id ==> after.owner == room.owner
        }),
{
}

/// When the last player leaves, the room is gone and its code means nothing.
pub proof fn law_empty_room_is_gone<C>(game: GameView<C>, id: Uuid)
    requires
        game.in_room(id),
        forall|other: Uuid| #[trigger] game.own_room(id).has_player(other) ==> other == id,
    ensures
        !game.after_leave(id).rooms.contains_key(game.player_rooms[id]),
        game.after_leave(id).room_by_code(game.own_room(id).code) is None,
{
    let room = game.own_room(id);
    let rest = room.left(id).players;
    lemma_players_without(room.players, id);
    lemma_without(player_ids(room.players), id);
    if rest.len() > 0 {
        let other = player_ids(rest)[0];
        assert(player_ids(rest).contains(other));
        assert(room.has_player(other));
    }
}

/// A private room is not listed and cannot be joined without its code.
pub proof fn law_private_room_is_hidden<C>(
    game: GameView<C>,
    room_id: Uuid,
    list: Seq<ListRoomView>,
    player: PlayerView,
)
    requires
        game.rooms.contains_key(room_id),
        !game.rooms[room_id].is_public,
        is_room_list(game.rooms, list),
    ensures
        forall|i: int| 0 <= i < list.len() ==> (#[trigger] list[i]).id != room_id,
        game.listed_join_refusal(room_id, player.id) is Some,
        game.after_listed_join(room_id, player) == game,
{
}

/// A room that waits and is public is listed, with the players and places that it has.
pub proof fn law_public_room_is_listed<C>(
    game: GameView<C>,
    room_id: Uuid,
    list: Seq<ListRoomView>,
)
    requires
        game.rooms.contains_key(room_id),
        game.rooms[room_id].is_public,
        game.rooms[room_id].status == RoomStatus::Waiting,
        is_room_list(game.rooms, list),
    ensures
        list.contains(list_entry(room_id, game.rooms[room_id])),
{
    let i = choose|i: int| 0 <= i < list.len() && (#[trigger] list[i]).id == room_id;
    assert(list[i] == list_entry(room_id, game.rooms[room_id]));
}

/// A removed player has no connection, does not wait, and has no route. Nobody else's connection or
/// route changes.
pub proof fn law_removal_leaves_no_trace<C>(game: GameView<C>, id: Uuid)
    ensures
        ({
            let after = game.after_remove(id);
            &&& after.connection_state(id) is None
            &&& after.room_of(id) is None
            &&& !player_ids(after.queue).contains(id)
            &&& forall|other: Uuid| other != id ==> #[trigger] after.pair_of(other) == game.pair_of(other)
            &&& forall|other: Uuid| other != id ==> #[trigger] after.room_of(other) == game.room_of(other)
        }),
{
    lemma_players_without(game.queue, id);
    lemma_without(player_ids(game.queue), id);
}

// ---- Matches ----

/// A match starts exactly where the room waits, has two players or more, and everybody but the
/// owner is ready.
pub proof fn law_match_starts_when_everybody_is_ready(room: RoomView)
    ensures
        room.start_refusal() is None <==> {
            &&& room.status == RoomStatus::Waiting
            &&& room.players.len() >= 2
            &&& forall|i: int|
                0 <= i < room.players.len() ==> (#[trigger] room.players[i]).id == room.owner
                    || room.ready_players.contains(room.players[i].id)
        },
{
    broadcast use vstd::seq_lib::group_filter_ensures;

    let keep = room.holds_up();
    let late = room.not_ready();
    if late.len() == 0 {
        assert forall|i: int| 0 <= i < room.players.len() implies (#[trigger] room.players[i]).id
            == room.owner || room.ready_players.contains(room.players[i].id) by {
            if keep(room.players[i]) {
                assert(late.contains(room.players[i]));
                assert(false);
            }
        }
    } else {
        assert(keep(late[0]));
        assert(late.contains(late[0]));
        room.players.lemma_filter_contains_rev(keep, late[0]);
        let i = room.players.index_of(late[0]);
        assert(room.players[i] == late[0]);
    }
}

/// With the match begun everybody is alive and nobody ready, and nobody can join, change their
/// rule, declare themselves ready, or start it again.
pub proof fn law_running_match_is_closed<C>(
    game: GameView<C>,
    room_id: Uuid,
    player: PlayerView,
    ready: bool,
)
    requires
        game.start_refusal(room_id) is None,
    ensures
        ({
            let after = game.after_start(room_id);
            &&& after.is_playing(room_id)
            &&& after.rooms[room_id].alive_players == player_ids(game.rooms[room_id].players)
            &&& after.rooms[room_id].ready_players.len() == 0
            &&& after.start_refusal(room_id) == Some("Game already started"@)
            &&& after.after_start(room_id) == after
            &&& after.join_refusal(room_id, player.id) == Some("Game has already started"@)
            &&& after.room_of(player.id) == Some(room_id) ==> {
                &&& after.after_ready(player.id, ready) == after
                &&& after.after_rule(player.id, player.rule) == after
            }
        }),
{
}

/// Of two players alive, the first to die loses and the other wins. The room waits again, and the
/// death that the winner reports afterwards decides nothing and changes nothing.
pub proof fn law_last_survivor_wins<C>(game: GameView<C>, room_id: Uuid, loser: Uuid, winner: Uuid)
    requires
        loser != winner,
        game.is_playing(room_id),
        game.room_of(loser) == Some(room_id),
        game.room_of(winner) == Some(room_id),
        game.rooms[room_id].alive_players.no_duplicates(),
        forall|id: Uuid| #[trigger]
            game.rooms[room_id].alive_players.contains(id) <==> id == loser || id == winner,
    ensures
        game.decision(loser) == WinnerStatus::Winner(winner),
        game.after_death(loser).rooms[room_id].status == RoomStatus::Waiting,
        game.after_death(loser).decision(winner) == WinnerStatus::MatchContinues,
        game.after_death(loser).after_death(winner) == game.after_death(loser),
{
    let alive = game.rooms[room_id].alive_players;
    let rest = without(alive, loser);
    lemma_without(alive, loser);
    assert(rest.contains(winner));
    assert forall|i: int| 0 <= i < rest.len() implies rest[i] == winner by {
        assert(rest.contains(rest[i]));
    }
    if rest.len() > 1 {
        assert(rest[0] == rest[1]);
    }
    let after = game.after_death(loser);
    assert(after.after_death(winner).rooms =~= after.rooms);
}

/// The state after the deaths of the players, one after the other.
pub open spec fn after_deaths<C>(game: GameView<C>, ids: Seq<Uuid>) -> GameView<C>
    decreases ids.len(),
{
    if ids.len() == 0 {
        game
    } else {
        after_deaths(game, ids.drop_last()).after_death(ids.last())
    }
}

/// Whether all but one of the players alive in the room die, one after the other, and `winner` is the
/// one who does not.
pub open spec fn all_but_one_die<C>(
    game: GameView<C>,
    room_id: Uuid,
    deaths: Seq<Uuid>,
    winner: Uuid,
) -> bool {
    let alive = game.rooms[room_id].alive_players;
    &&& game.is_playing(room_id)
    &&& alive.no_duplicates()
    &&& forall|id: Uuid| #[trigger] alive.contains(id) ==> game.room_of(id) == Some(room_id)
    &&& deaths.no_duplicates()
    &&& deaths.len() + 1 == alive.len()
    &&& forall|i: int| 0 <= i < deaths.len() ==> alive.contains(#[trigger] deaths[i])
    &&& alive.contains(winner)
    &&& !deaths.contains(winner)
}

/// In a match of two or more, the deaths decide nothing until one player is left. The last of them
/// makes that one the winner. The room then waits, and any report after that decides nothing and
/// changes nothing.
pub proof fn law_match_ends_with_the_last_survivor<C>(
    game: GameView<C>,
    room_id: Uuid,
    deaths: Seq<Uuid>,
    winner: Uuid,
)
    requires
        all_but_one_die(game, room_id, deaths, winner),
        deaths.len() > 0,
    ensures
        forall|k: int|
            0 <= k < deaths.len() - 1 ==> after_deaths(game, #[trigger] deaths.take(k)).decision(
                deaths[k],
            ) == WinnerStatus::MatchContinues,
        after_deaths(game, deaths.drop_last()).decision(deaths.last()) == WinnerStatus::Winner(
            winner,
        ),
        after_deaths(game, deaths).rooms[room_id].status == RoomStatus::Waiting,
        forall|late: Uuid|
            after_deaths(game, deaths).room_of(late) == Some(room_id) ==> {
                &&& #[trigger] after_deaths(game, deaths).decision(late)
                    == WinnerStatus::MatchContinues
                &&& after_deaths(game, deaths).after_death(late) == after_deaths(game, deaths)
            },
{
    let n = deaths.len();
    assert forall|k: int| 0 <= k < n - 1 implies after_deaths(
        game,
        #[trigger] deaths.take(k),
    ).decision(deaths[k]) == WinnerStatus::MatchContinues by {
        lemma_still_playing(game, room_id, deaths, winner, k);
        let before = after_deaths(game, deaths.take(k));
        assert(!deaths.take(k).contains(deaths[k]));
        lemma_without_member(before.rooms[room_id].alive_players, deaths[k]);
    }
    let last = deaths.last();
    assert(deaths.drop_last() =~= deaths.take(n - 1));
    lemma_still_playing(game, room_id, deaths, winner, n - 1);
    let before = after_deaths(game, deaths.drop_last());
    let alive = before.rooms[room_id].alive_players;
    assert(!deaths.take(n - 1).contains(last));
    assert(deaths[n - 1] == last);
    assert(deaths.contains(last));
    assert(!deaths.take(n - 1).contains(winner)) by {
        if deaths.take(n - 1).contains(winner) {
            let i = deaths.take(n - 1).index_of(winner);
            assert(deaths[i] == winner);
        }
    }
    lemma_without_member(alive, last);
    lemma_without(alive, last);
    assert(without(alive, last).contains(winner));
    let after = after_deaths(game, deaths);
    assert forall|late: Uuid| after.room_of(late) == Some(room_id) implies {
        &&& #[trigger] after.decision(late) == WinnerStatus::MatchContinues
        &&& after.after_death(late) == after
    } by {
        assert(after.after_death(late).rooms =~= after.rooms);
    }
}

/// As long as two or more are alive the match goes on, and those alive are the ones who have not died.
proof fn lemma_still_playing<C>(
    game: GameView<C>,
    room_id: Uuid,
    deaths: Seq<Uuid>,
    winner: Uuid,
    k: int,
)
    requires
        all_but_one_die(game, room_id, deaths, winner),
        0 <= k < deaths.len(),
    ensures
        ({
            let after = after_deaths(game, deaths.take(k));
            let alive = after.rooms[room_id].alive_players;
            &&& after.is_playing(room_id)
            &&& after.player_rooms == game.player_rooms
            &&& alive.no_duplicates()
            &&& alive.len() == deaths.len() + 1 - k
            &&& forall|id: Uuid| #[trigger]
                alive.contains(id) <==> game.rooms[room_id].alive_players.contains(id)
                    && !deaths.take(k).contains(id)
        }),
    decreases k,
{
    let now = deaths.take(k);
    if k == 0 {
        assert(now =~= Seq::<Uuid>::empty());
    } else {
        let id = deaths[k - 1];
        let earlier = deaths.take(k - 1);
        let before = after_deaths(game, earlier);
        let alive = before.rooms[room_id].alive_players;
        lemma_still_playing(game, room_id, deaths, winner, k - 1);
        assert(now.drop_last() =~= earlier);
        assert(now =~= earlier.push(id));
        assert(!earlier.contains(id));
        assert(alive.contains(id));
        lemma_without_member(alive, id);
        lemma_without(alive, id);
        assert forall|x: Uuid| #[trigger] now.contains(x) <==> earlier.contains(x) || x == id by {
            vstd::seq_lib::lemma_seq_contains_after_push(earlier, id, x);
        }
        assert(after_deaths(game, now) == before.after_death(id));
        assert(before.room_of(id) == game.room_of(id));
    }
}

/// No match ends in a draw.
pub proof fn law_never_draws<C>(game: GameView<C>, id: Uuid)
    ensures
        game.decision(id) != WinnerStatus::Draw,
{
}

/// Who is the only one left alive, because the others left, wins with their own death.
pub proof fn law_sole_survivor_wins<C>(game: GameView<C>, id: Uuid)
    requires
        game.in_room(id),
        game.own_room(id).status == RoomStatus::Playing,
        game.own_room(id).alive_players.contains(id),
        forall|other: Uuid| #[trigger]
            game.own_room(id).alive_players.contains(other) ==> other == id,
    ensures
        game.decision(id) == WinnerStatus::Winner(id),
        game.after_death(id).own_room(id).status == RoomStatus::Waiting,
{
    let alive = game.own_room(id).alive_players;
    let others = without(alive, id);
    lemma_without(alive, id);
    if others.len() > 0 {
        assert(others.contains(others[0]));
    }
}

/// A winner was alive. They are the one who died only where nobody else was alive.
pub proof fn law_winner_was_alive<C>(game: GameView<C>, id: Uuid, winner: Uuid)
    requires
        game.decision(id) == WinnerStatus::Winner(winner),
    ensures
        game.own_room(id).alive_players.contains(winner),
        winner == id ==> forall|other: Uuid| #[trigger]
            game.own_room(id).alive_players.contains(other) ==> other == id,
{
    let alive = game.own_room(id).alive_players;
    let others = without(alive, id);
    lemma_without(alive, id);
    if others.len() > 0 {
        assert(others.contains(others[0]));
    } else {
        assert forall|other: Uuid| #[trigger] alive.contains(other) implies other == id by {
            if other != id {
                assert(others.contains(other));
            }
        }
    }
}

/// Once a match is decided its room waits: nobody is alive or ready in it, and it can be joined up
/// to its places.
pub proof fn law_decided_room_waits<C>(game: GameView<C>, id: Uuid, newcomer: Uuid)
    requires
        game.decision(id) != WinnerStatus::MatchContinues,
    ensures
        ({
            let room_id = game.player_rooms[id];
            let room = game.after_death(id).rooms[room_id];
            &&& room.status == RoomStatus::Waiting
            &&& room.alive_players.len() == 0
            &&& room.ready_players.len() == 0
            &&& room.players == game.own_room(id).players
            &&& game.after_death(id).join_refusal(room_id, newcomer) is None <==> room.has_player(
                newcomer,
            ) || room.player_count() < room.max_players
        }),
{
}

/// The state after the players declared themselves ready, one after the other.
pub open spec fn after_readies<C>(game: GameView<C>, ids: Seq<Uuid>) -> GameView<C>
    decreases ids.len(),
{
    if ids.len() == 0 {
        game
    } else {
        after_readies(game, ids.drop_last()).after_ready(ids.last(), true)
    }
}

/// After a decided match a new start is refused, naming everybody but the owner.
pub proof fn law_rematch_is_refused_at_first<C>(game: GameView<C>, id: Uuid)
    requires
        game.wf(),
        game.decision(id) != WinnerStatus::MatchContinues,
        game.own_room(id).players.len() >= 2,
    ensures
        ({
            let room_id = game.player_rooms[id];
            let room = game.own_room(id);
            game.after_death(id).start_refusal(room_id) == Some(
                "Not all players are ready: "@ + comma_separated(
                    player_names(players_without(room.players, room.owner)),
                ),
            )
        }),
{
    let room_id = game.player_rooms[id];
    let room = game.own_room(id);
    let after = game.after_death(id).rooms[room_id];
    assert(after.players == room.players);
    assert(after.holds_up() =~= player_other_than(room.owner));
    let ids = player_ids(room.players);
    let other = if ids[0] != room.owner {
        ids[0]
    } else {
        ids[1]
    };
    assert(ids.contains(other));
    lemma_players_without(room.players, room.owner);
    lemma_without(ids, room.owner);
    assert(without(ids, room.owner).contains(other));
}

/// After a decided match a new start is granted exactly when each player but the owner has declared
/// themselves ready again. A player's declaration counts in the room that they are routed to.
pub proof fn law_rematch_needs_everybody_ready_again<C>(
    game: GameView<C>,
    id: Uuid,
    declared: Seq<Uuid>,
)
    requires
        game.wf(),
        game.decision(id) != WinnerStatus::MatchContinues,
        game.own_room(id).players.len() >= 2,
    ensures
        ({
            let room_id = game.player_rooms[id];
            let room = game.own_room(id);
            after_readies(game.after_death(id), declared).start_refusal(room_id) is None <==> (
            forall|i: int|
                0 <= i < room.players.len() ==> (#[trigger] room.players[i]).id == room.owner || (
                declared.contains(room.players[i].id) && game.room_of(room.players[i].id) == Some(
                    room_id,
                )))
        }),
{
    let room_id = game.player_rooms[id];
    lemma_readies(game.after_death(id), room_id, declared);
    law_match_starts_when_everybody_is_ready(
        after_readies(game.after_death(id), declared).rooms[room_id],
    );
}

/// In a waiting room where nobody is ready, those become ready who declare it and are routed to it.
proof fn lemma_readies<C>(game: GameView<C>, room_id: Uuid, declared: Seq<Uuid>)
    requires
        game.rooms.contains_key(room_id),
        game.rooms[room_id].status == RoomStatus::Waiting,
        game.rooms[room_id].ready_players.len() == 0,
    ensures
        ({
            let after = after_readies(game, declared);
            let room = after.rooms[room_id];
            &&& after.rooms.contains_key(room_id)
            &&& after.player_rooms == game.player_rooms
            &&& room == (RoomView { ready_players: room.ready_players, ..game.rooms[room_id] })
            &&& forall|id: Uuid| #[trigger]
                room.ready_players.contains(id) <==> declared.contains(id) && game.room_of(id)
                    == Some(room_id)
        }),
    decreases declared.len(),
{
    if declared.len() > 0 {
        let id = declared.last();
        let earlier = declared.drop_last();
        lemma_readies(game, room_id, earlier);
        assert(declared =~= earlier.push(id));
        assert forall|x: Uuid| #[trigger]
            declared.contains(x) <==> earlier.contains(x) || x == id by {
            vstd::seq_lib::lemma_seq_contains_after_push(earlier, id, x);
        }
        let before = after_readies(game, earlier);
        if before.room_of(id) == Some(room_id) {
            let ready = before.rooms[room_id].ready_players;
            let others = without(ready, id);
            lemma_without(ready, id);
            assert forall|x: Uuid| #[trigger]
                others.push(id).contains(x) <==> others.contains(x) || x == id by {
                vstd::seq_lib::lemma_seq_contains_after_push(others, id, x);
            }
        }
    }
}

// ---- Random matches ----

/// Nobody meets themselves.
pub proof fn law_opponent_is_another<C>(game: GameView<C>, id: Uuid)
    requires
        game.has_waiting_opponent(id),
    ensures
        game.waiting_opponent(id).id != id,
        player_ids(game.queue).contains(game.waiting_opponent(id).id),
{
    lemma_first_other_stands(game.queue, id);
    let i = first_other(game.queue, id) as int;
    assert(player_ids(game.queue)[i] == game.waiting_opponent(id).id);
}

/// Asking again while waiting changes nothing, and the player waits once.
pub proof fn law_waiting_twice_is_waiting_once<C>(
    game: GameView<C>,
    player: PlayerView,
    again: PlayerView,
)
    requires
        again.id == player.id,
    ensures
        player_ids(game.after_enqueue(player).queue).contains(player.id),
        game.after_enqueue(player).after_enqueue(again) == game.after_enqueue(player),
{
    let after = game.after_enqueue(player);
    if !player_ids(game.queue).contains(player.id) {
        assert(player_ids(after.queue)[game.queue.len() as int] == player.id);
    }
}

/// The first of two players waits; the second meets them in a new room, which the first owns. Both
/// are routed there and are opponents, and nobody waits any more.
pub proof fn law_second_meets_first<C>(
    game: GameView<C>,
    first: PlayerView,
    second: PlayerView,
    room_id: Uuid,
    code: Seq<char>,
)
    requires
        game.queue.len() == 0,
        first.id != second.id,
    ensures
        ({
            let waiting = game.after_enqueue(first);
            let paired = waiting.after_pairing(second, room_id, code);
            &&& !game.has_waiting_opponent(first.id)
            &&& waiting.has_waiting_opponent(second.id)
            &&& waiting.waiting_opponent(second.id) == first
            &&& paired.queue.len() == 0
            &&& paired.rooms[room_id].owner == first.id
            &&& paired.rooms[room_id].players == seq![first, second]
            &&& !paired.rooms[room_id].is_public
            &&& paired.room_by_code(code) == Some(room_id)
            &&& paired.opponent(first.id) == Some(second.id)
            &&& paired.opponent(second.id) == Some(first.id)
        }),
{
    let waiting = game.after_enqueue(first);
    assert(waiting.queue =~= seq![first]);
    assert(first_other(waiting.queue, second.id) == 0);
    let paired = waiting.after_pairing(second, room_id, code);
    let room = new_room_view(first, "Random Match"@, 2, false, Seq::empty(), code);
    assert(player_ids(room.players) =~= seq![first.id]);
    assert(!room.has_player(second.id));
    assert(paired.rooms[room_id].players =~= seq![first, second]);
    law_opponents_are_mutual(paired, room_id, first, second);
}

/// Who no longer waits is met by nobody, and cancelling again does nothing.
pub proof fn law_cancelling_ends_waiting<C>(game: GameView<C>, id: Uuid)
    ensures
        !player_ids(game.after_cancel(id).queue).contains(id),
        game.after_cancel(id).after_cancel(id) == game.after_cancel(id),
        !player_ids(game.queue).contains(id) ==> game.after_cancel(id) == game,
{
    let after = game.after_cancel(id);
    lemma_players_without(game.queue, id);
    lemma_without(player_ids(game.queue), id);
    assert forall|i: int| 0 <= i < after.queue.len() implies player_other_than(id)(
        #[trigger] after.queue[i],
    ) by {
        assert(player_ids(after.queue).contains(player_ids(after.queue)[i]));
    }
    lemma_filter_all(after.queue, player_other_than(id));
    if !player_ids(game.queue).contains(id) {
        assert forall|i: int| 0 <= i < game.queue.len() implies player_other_than(id)(
            #[trigger] game.queue[i],
        ) by {
            assert(player_ids(game.queue).contains(player_ids(game.queue)[i]));
        }
        lemma_filter_all(game.queue, player_other_than(id));
    }
}

// ---- What players say of themselves ----

/// A rule that was accepted is the player's rule, and nobody else's rule changed.
pub proof fn law_rule_is_kept<C>(game: GameView<C>, id: Uuid, rule: Seq<char>, i: int)
    requires
        game.rule_refusal(id, rule) is None,
        player_ids(game.own_room(id).players).no_duplicates(),
        0 <= i < game.own_room(id).players.len(),
    ensures
        ({
            let before = game.own_room(id).players[i];
            let after = game.after_rule(id, rule).own_room(id).players[i];
            after == (if before.id == id {
                PlayerView { rule, ..before }
            } else {
                before
            })
        }),
{
    let players = game.own_room(id).players;
    let ids = player_ids(players);
    if players[i].id == id {
        assert forall|j: int| 0 <= j < i implies (#[trigger] players[j]).id != id by {
            assert(ids[j] != ids[i]);
        }
    }
}

/// A player is ready exactly if they last said so.
pub proof fn law_readiness_is_kept<C>(game: GameView<C>, id: Uuid, ready: bool)
    requires
        game.ready_refusal(id) is None,
    ensures
        game.after_ready(id, ready).own_room(id).ready_players.contains(id) == ready,
{
    let others = without(game.own_room(id).ready_players, id);
    lemma_without(game.own_room(id).ready_players, id);
    if ready {
        assert(others.push(id)[others.len() as int] == id);
    }
}

/// The round-trip time that a player reported last is the one that is kept.
pub proof fn law_ping_is_kept<C>(game: GameView<C>, id: Uuid, ping_ms: u32)
    requires
        game.in_room(id),
    ensures
        game.after_ping(id, ping_ms).own_room(id).pings.contains_key(id),
        game.after_ping(id, ping_ms).own_room(id).pings[id] == ping_ms,
{
}

// ---- Connections ----

/// A player counts as connected once both channels are there, in whatever order they come.
pub proof fn law_both_channels_connect<C>(game: GameView<C>, id: Uuid, reliable: C, unreliable: C)
    ensures
        ({
            let after = game.with_reliable(id, reliable).with_unreliable(id, unreliable);
            &&& after.connection_state(id) == Some(ConnectionState::Connected)
            &&& after.channel(id, true) == Some(reliable)
            &&& after.channel(id, false) == Some(unreliable)
            &&& after == game.with_unreliable(id, unreliable).with_reliable(id, reliable)
        }),
{
    let one = game.with_reliable(id, reliable).with_unreliable(id, unreliable);
    let other = game.with_unreliable(id, unreliable).with_reliable(id, reliable);
    assert(one.connections =~= other.connections);
}

/// A lost player is removed unless they come back: an offer with their identifier within the time of
/// grace keeps them.
pub proof fn law_coming_back_keeps_the_player<C>(game: GameView<C>, id: Uuid)
    requires
        game.connections.contains_key(id),
    ensures
        ({
            let lost = game.with_connection_state(id, ConnectionState::Disconnected);
            &&& lost.is_lost(id)
            &&& !lost.after_offer(Some(id)).is_lost(id)
            &&& lost.after_offer(Some(id)).pair_of(id).reliable == game.pair_of(id).reliable
            &&& lost.after_offer(Some(id)).pair_of(id).unreliable == game.pair_of(id).unreliable
            &&& lost.after_offer(Some(id)).rooms == game.rooms
            &&& lost.after_offer(Some(id)).player_rooms == game.player_rooms
        }),
{
}

/// In a match of two, the loss of one is the victory of the other: the room is told, waits again,
/// and holds the other alone.
pub proof fn law_loss_is_defeat<C>(
    game: GameView<C>,
    room_id: Uuid,
    lost: PlayerView,
    other: PlayerView,
)
    requires
        lost.id != other.id,
        game.is_playing(room_id),
        game.rooms[room_id].players == seq![lost, other] || game.rooms[room_id].players == seq![
            other,
            lost,
        ],
        game.rooms[room_id].alive_players == player_ids(game.rooms[room_id].players),
        game.rooms[room_id].owner == lost.id || game.rooms[room_id].owner == other.id,
        game.room_of(lost.id) == Some(room_id),
        game.room_of(other.id) == Some(room_id),
    ensures
        game.loss_followups(lost.id) == seq![
            FollowupView::NotifyRoom(room_id),
            FollowupView::Broadcast(
                room_id,
                MessageView::PlayerDisconnectedNotification { room_id, player_id: lost.id },
            ),
            FollowupView::Broadcast(
                room_id,
                MessageView::WinnerNotification { room_id, winner: Some(other.id) },
            ),
        ],
        game.decision(lost.id) == WinnerStatus::Winner(other.id),
        game.after_loss(lost.id).rooms.contains_key(room_id),
        game.after_loss(lost.id).rooms[room_id].status == RoomStatus::Waiting,
        game.after_loss(lost.id).rooms[room_id].players == seq![other],
        game.after_loss(lost.id).rooms[room_id].owner == other.id,
        game.after_loss(lost.id).room_of(other.id) == Some(room_id),
{
    let room = game.rooms[room_id];
    let ids = player_ids(room.players);
    assert(ids =~= seq![lost.id, other.id] || ids =~= seq![other.id, lost.id]);
    assert(ids.contains(ids[0]) && ids.contains(ids[1]));
    law_last_survivor_wins(game, room_id, lost.id, other.id);
    let dead = game.after_death(lost.id);
    let rest = players_without(room.players, lost.id);
    reveal(Seq::filter);
    reveal_with_fuel(Seq::filter, 3);
    assert(room.players.drop_last() =~= seq![room.players[0]]);
    assert(room.players.drop_last().drop_last() =~= Seq::<PlayerView>::empty());
    assert(rest =~= seq![other]);
    assert(dead.rooms[room_id].players == room.players);
}

// ---- Room codes ----

/// Six digits tell the numbers below a million apart.
pub proof fn law_codes_are_distinct(m: nat, n: nat)
    requires
        m < 1_000_000,
        n < 1_000_000,
        six_digits(m) == six_digits(n),
    ensures
        m == n,
{
    let a = six_digits(m);
    let b = six_digits(n);
    law_digits_make_the_number(m);
    law_digits_make_the_number(n);
    assert(a[0] == b[0] && a[1] == b[1] && a[2] == b[2]);
    assert(a[3] == b[3] && a[4] == b[4] && a[5] == b[5]);
}

/// The value of a digit character.
pub open spec fn digit_value(c: char) -> int {
    c as int - 48
}

/// A number below a million is made of its six digits, the highest first.
#[verifier::spinoff_prover]
pub proof fn law_digits_make_the_number(n: nat)
    requires
        n < 1_000_000,
    ensures
        ({
            let s = six_digits(n);
            n == 100000 * digit_value(s[0]) + 10000 * digit_value(s[1]) + 1000 * digit_value(s[2])
                + 100 * digit_value(s[3]) + 10 * digit_value(s[4]) + digit_value(s[5])
        }),
{
    let n1 = n / 10;
    let n2 = n1 / 10;
    let n3 = n2 / 10;
    let n4 = n3 / 10;
    let n5 = n4 / 10;
    assert(n / 100 == n2);
    assert(n / 1000 == n3);
    assert(n / 10000 == n4);
    assert(n / 100000 == n5);
    assert(n5 < 10);
    let s = six_digits(n);
    assert(digit_value(s[0]) == n5 % 10);
    assert(digit_value(s[1]) == n4 % 10);
    assert(digit_value(s[2]) == n3 % 10);
    assert(digit_value(s[3]) == n2 % 10);
    assert(digit_value(s[4]) == n1 % 10);
    assert(digit_value(s[5]) == n % 10);
}

/// As long as fewer than a million codes are in use, there is a free one.
pub proof fn law_a_code_is_free<C>(game: GameView<C>)
    requires
        game.room_codes.dom().finite(),
        game.room_codes.dom().len() < 1_000_000,
    ensures
        game.has_free_code(),
{
    if !game.has_free_code() {
        lemma_codes_in_use(game.room_codes.dom(), 1_000_000);
    }
}

proof fn lemma_codes_in_use(codes: Set<Seq<char>>, n: nat)
    requires
        n <= 1_000_000,
        codes.finite(),
        forall|m: nat| m < n ==> codes.contains(#[trigger] six_digits(m)),
    ensures
        codes.len() >= n,
    decreases n,
{
    if n > 0 {
        let last = six_digits((n - 1) as nat);
        let rest = codes.remove(last);
        assert forall|m: nat| m < n - 1 implies rest.contains(#[trigger] six_digits(m)) by {
            if six_digits(m) == last {
                law_codes_are_distinct(m, (n - 1) as nat);
            }
        }
        lemma_codes_in_use(rest, (n - 1) as nat);
    }
}

/// A room code is any six decimal digits, and nothing else.
pub proof fn law_room_codes_are_six_digits(code: Seq<char>)
    ensures
        is_room_code(code) <==> code.len() == 6 && forall|i: int|
            0 <= i < 6 ==> '0' <= #[trigger] code[i] <= '9',
{
    if is_room_code(code) {
        let n = choose|n: nat| n < 1_000_000 && code == #[trigger] six_digits(n);
        assert(code.len() == 6);
        assert forall|i: int| 0 <= i < 6 implies '0' <= #[trigger] code[i] <= '9' by {
            let s = six_digits(n);
            assert(s[0] == digit(n / 100000));
            assert(s[1] == digit(n / 10000));
            assert(s[2] == digit(n / 1000));
            assert(s[3] == digit(n / 100));
            assert(s[4] == digit(n / 10));
            assert(s[5] == digit(n));
        }
    }
    if code.len() == 6 && forall|i: int| 0 <= i < 6 ==> '0' <= #[trigger] code[i] <= '9' {
        assert('0' <= code[0] <= '9' && '0' <= code[1] <= '9' && '0' <= code[2] <= '9');
        assert('0' <= code[3] <= '9' && '0' <= code[4] <= '9' && '0' <= code[5] <= '9');
        let d0 = digit_value(code[0]);
        let d1 = digit_value(code[1]);
        let d2 = digit_value(code[2]);
        let d3 = digit_value(code[3]);
        let d4 = digit_value(code[4]);
        let d5 = digit_value(code[5]);
        lemma_number_of(d0, d1, d2, d3, d4, d5);
        let n = (100000 * d0 + 10000 * d1 + 1000 * d2 + 100 * d3 + 10 * d4 + d5) as nat;
        assert(six_digits(n) =~= code);
    }
}

/// Six digits are those of the number that they make.
#[verifier::spinoff_prover]
proof fn lemma_number_of(d0: int, d1: int, d2: int, d3: int, d4: int, d5: int)
    requires
        0 <= d0 <= 9,
        0 <= d1 <= 9,
        0 <= d2 <= 9,
        0 <= d3 <= 9,
        0 <= d4 <= 9,
        0 <= d5 <= 9,
    ensures
        ({
            let n = 100000 * d0 + 10000 * d1 + 1000 * d2 + 100 * d3 + 10 * d4 + d5;
            &&& 0 <= n < 1_000_000
            &&& (n / 100000) % 10 == d0
            &&& (n / 10000) % 10 == d1
            &&& (n / 1000) % 10 == d2
            &&& (n / 100) % 10 == d3
            &&& (n / 10) % 10 == d4
            &&& n % 10 == d5
        }),
{
    let n4 = 10000 * d0 + 1000 * d1 + 100 * d2 + 10 * d3 + d4;
    let n3 = 1000 * d0 + 100 * d1 + 10 * d2 + d3;
    let n2 = 100 * d0 + 10 * d1 + d2;
    let n1 = 10 * d0 + d1;
    let n = 10 * n4 + d5;
    lemma_shifted(n4, d5);
    lemma_shifted(n3, d4);
    lemma_shifted(n2, d3);
    lemma_shifted(n1, d2);
    lemma_shifted(d0, d1);
    lemma_tenths(n);
}

/// Putting a digit behind a number can be undone.
proof fn lemma_shifted(q: int, d: int)
    requires
        0 <= d <= 9,
    ensures
        (10 * q + d) / 10 == q,
        (10 * q + d) % 10 == d,
{
}

/// Dividing by ten again and again is dividing by the powers of ten.
#[verifier::spinoff_prover]
proof fn lemma_tenths(n: int)
    requires
        0 <= n,
    ensures
        n / 100 == n / 10 / 10,
        n / 1000 == n / 10 / 10 / 10,
        n / 10000 == n / 10 / 10 / 10 / 10,
        n / 100000 == n / 10 / 10 / 10 / 10 / 10,
{
}

/// There is a free code exactly if some six digits are not in use.
pub proof fn law_free_codes<C>(game: GameView<C>)
    ensures
        game.has_free_code() <==> exists|code: Seq<char>| #[trigger]
            is_room_code(code) && !game.room_codes.contains_key(code),
{
    if game.has_free_code() {
        let n = choose|n: nat|
            n < 1_000_000 && !game.room_codes.contains_key(#[trigger] six_digits(n));
        assert(is_room_code(six_digits(n)));
    }
    if exists|code: Seq<char>| #[trigger]
        is_room_code(code) && !game.room_codes.contains_key(code) {
        let code = choose|code: Seq<char>| #[trigger]
            is_room_code(code) && !game.room_codes.contains_key(code);
        let n = choose|n: nat| n < 1_000_000 && code == #[trigger] six_digits(n);
        assert(!game.room_codes.contains_key(six_digits(n)));
    }
}

/// A new server has no rooms, players or codes.
pub proof fn law_new_server_is_empty<C>(id: Uuid, code: Seq<char>)
    ensures
        ({
            let game = GameView::<C>::empty();
            &&& !game.rooms.contains_key(id)
            &&& !game.connections.contains_key(id)
            &&& !game.player_rooms.contains_key(id)
            &&& !game.room_codes.contains_key(code)
            &&& game.queue.len() == 0
        }),
{
}

} // verus!
