use std::sync::Arc;

use tetra_server::game::{ConnectionState, Game, MatchResult, WinnerStatus};
use tetra_server::ids::Uuid;
use tetra_server::room::{RoomStatus, RoomTag};
use tokio::sync::RwLock;

fn fresh() -> Uuid {
    uuid::Uuid::new_v4().as_u128()
}

fn text(s: &str) -> String {
    s.to_string()
}

/// A game with a room of the given size that the players sit in, the first as owner.
fn seated(players: &[Uuid], max_players: u8) -> (Game<u32>, Uuid, String) {
    let mut game: Game<u32> = Game::default();
    let (room_id, code) =
        game.new_room(players[0], text("r"), max_players, true, vec![], text("P0"), text("tet"));
    for (i, id) in players.iter().enumerate().skip(1) {
        game.add_player_to_room(room_id, *id, format!("P{i}"), text("puyo")).expect("joins");
    }
    (game, room_id, code)
}

#[test]
fn get_opponent_routes_through_room() {
    let mut game: Game<u32> = Game::default();
    let owner = fresh();
    let guest = fresh();

    let (room_id, _code) = game.new_room(
        owner,
        "test".to_string(),
        2,
        false,
        vec![],
        "owner".to_string(),
        "tet".to_string(),
    );
    game.add_player_to_room(room_id, guest, "guest".to_string(), "puyo".to_string())
        .expect("guest should join");

    assert_eq!(game.get_opponent(&owner), Some(guest));
    assert_eq!(game.get_opponent(&guest), Some(owner));
    assert_eq!(game.room_of(&guest), Some(room_id));

    game.leave_room(&guest);
    assert_eq!(game.get_opponent(&owner), None);
    assert_eq!(game.room_of(&guest), None);
}

#[test]
fn remove_connection_clears_state_and_returns_channels() {
    let mut game: Game<u32> = Game::default();
    let owner = fresh();
    let guest = fresh();

    let (room_id, _code) = game.new_room(
        owner,
        "test".to_string(),
        2,
        false,
        vec![],
        "owner".to_string(),
        "tet".to_string(),
    );
    game.add_player_to_room(room_id, guest, "guest".to_string(), "puyo".to_string())
        .expect("guest should join");

    game.add_reliable_connection(guest, 10);
    game.add_unreliable_connection(guest, 20);
    assert_eq!(game.remove_connection(&guest), (Some(10), Some(20)));
    assert_eq!(game.get_connection_state(&guest), None);

    assert_eq!(game.room_of(&guest), None);
    assert_eq!(game.get_opponent(&owner), None);

    let _ = game.remove_connection(&owner);
    assert!(game.rooms.get(&room_id).is_none());
}

#[test]
fn rwlock_allows_concurrent_reads_but_exclusive_writes() {
    let lock = Arc::new(RwLock::new(Game::<u32>::default()));

    let r1 = lock.try_read().expect("first read lock");
    let r2 = lock.try_read().expect("concurrent read lock");

    assert!(
        lock.try_write().is_err(),
        "writer must not acquire while readers hold the lock"
    );

    drop(r1);
    drop(r2);

    assert!(
        lock.try_write().is_ok(),
        "writer should acquire once all readers released"
    );
}

#[test]
fn last_survivor_wins_and_never_draws() {
    let mut game: Game<u32> = Game::default();
    let a = fresh();
    let b = fresh();
    let (room_id, _code) = game.new_room(
        a,
        "t".to_string(),
        2,
        false,
        vec![],
        "A".to_string(),
        "tet".to_string(),
    );
    game.add_player_to_room(room_id, b, "B".to_string(), "tet".to_string())
        .expect("B joins");
    {
        let room = game.rooms.get_mut(&room_id).unwrap();
        room.status = RoomStatus::Playing;
        room.alive_players = vec![a, b];
    }
    assert!(
        matches!(game.record_game_over(&a), WinnerStatus::Winner(w) if w == b),
        "first death loses; last survivor wins"
    );
    assert!(
        matches!(game.record_game_over(&b), WinnerStatus::MatchContinues),
        "post-resolution gameOver must be ignored (no draw)"
    );
}

#[test]
fn new_room_has_random_id_and_six_digit_code() {
    let (game, room_id, code) = seated(&[1], 4);
    assert_eq!((room_id >> 76) & 0xf, 4);
    assert_eq!((room_id >> 62) & 0x3, 2);
    assert_eq!(code.len(), 6);
    assert!(code.chars().all(|c| c.is_ascii_digit()));
    assert_eq!(game.find_room_by_code(&code), Some(room_id));
    assert_eq!(game.find_room_by_code("no code"), None);
    let room = &game.rooms[&room_id];
    assert_eq!(room.code, code);
    assert_eq!(room.owner, 1);
    assert_eq!(room.match_setting, "{}");
    assert_eq!(room.status, RoomStatus::Waiting);
    assert_eq!(room.players, vec![(1, text("P0"), text("tet"))]);
    assert!(game.has_free_code());
    let (other, _, other_code) = seated(&[1], 4);
    let other_id = other.room_of(&1).unwrap();
    assert_ne!((room_id, code), (other_id, other_code));
}

#[test]
fn room_codes_are_zero_padded() {
    assert_eq!(tetra_server::game::room_code(0), "000000");
    assert_eq!(tetra_server::game::room_code(42), "000042");
    assert_eq!(tetra_server::game::room_code(987_654), "987654");
    assert_eq!(tetra_server::game::room_code(999_999), "999999");
    assert_eq!(tetra_server::game::code_of_draw(7_000_042), "000042");
    assert_eq!(tetra_server::game::code_of_draw(u128::MAX), "211455");
}

#[test]
fn joining_is_refused_with_a_reason() {
    let (mut game, room_id, _) = seated(&[1, 2], 2);
    assert_eq!(
        game.add_player_to_room(99, 3, text("C"), text("tet")),
        Err(text("Room not found"))
    );
    assert_eq!(
        game.add_player_to_room(room_id, 3, text("C"), text("tet")),
        Err(text("Room is full"))
    );
    assert_eq!(game.add_player_to_room(room_id, 2, text("again"), text("tet")), Ok(()));
    assert_eq!(game.rooms[&room_id].players[1], (2, text("P1"), text("puyo")));
    game.rooms.get_mut(&room_id).unwrap().status = RoomStatus::Playing;
    assert_eq!(
        game.add_player_to_room(room_id, 2, text("again"), text("tet")),
        Err(text("Game has already started"))
    );
}

#[test]
fn ownership_passes_to_the_longest_there() {
    let (mut game, room_id, code) = seated(&[1, 2, 3], 4);
    game.leave_room(&3);
    assert_eq!(game.rooms[&room_id].owner, 1);
    game.add_player_to_room(room_id, 3, text("C"), text("tet")).expect("joins again");
    game.leave_room(&1);
    assert_eq!(game.rooms[&room_id].owner, 2);
    game.leave_room(&2);
    assert_eq!(game.rooms[&room_id].owner, 3);
    game.leave_room(&3);
    assert!(game.rooms.is_empty());
    assert_eq!(game.find_room_by_code(&code), None);
    game.leave_room(&3);
}

#[test]
fn rules_are_checked() {
    let (mut game, room_id, _) = seated(&[1, 2], 2);
    assert_eq!(game.update_player_rule(&9, text("tet")), Err(text("Not in a room")));
    assert_eq!(game.update_player_rule(&2, text("chess")), Err(text("Invalid rule")));
    assert_eq!(game.update_player_rule(&2, text("tet")), Ok(()));
    assert_eq!(game.rooms[&room_id].players[1].2, "tet");
    assert_eq!(game.rooms[&room_id].players[0].2, "tet");
    assert_eq!(game.update_player_rule(&1, text("puyo")), Ok(()));
    assert_eq!(game.rooms[&room_id].players[0].2, "puyo");
    game.rooms.get_mut(&room_id).unwrap().status = RoomStatus::Playing;
    assert_eq!(
        game.update_player_rule(&2, text("tet")),
        Err(text("Cannot change rule after match has started"))
    );
    game.rooms.remove(&room_id);
    assert_eq!(game.update_player_rule(&2, text("tet")), Err(text("Room not found")));
}

#[test]
fn match_starts_when_everybody_is_ready() {
    let (mut game, room_id, _) = seated(&[1], 4);
    assert_eq!(game.start_match(77).unwrap_err(), "Room not found");
    assert_eq!(game.start_match(room_id).unwrap_err(), "Need at least 2 players");
    game.add_player_to_room(room_id, 2, text("B"), text("tet")).expect("joins");
    game.add_player_to_room(room_id, 3, text("C"), text("tet")).expect("joins");
    assert_eq!(game.start_match(room_id).unwrap_err(), "Not all players are ready: B, C");
    assert_eq!(game.set_ready(&2, true), Ok(()));
    assert_eq!(game.set_ready(&2, true), Ok(()));
    assert_eq!(game.rooms[&room_id].ready_players, vec![2]);
    assert_eq!(game.start_match(room_id).unwrap_err(), "Not all players are ready: C");
    assert_eq!(game.set_ready(&3, true), Ok(()));
    assert_eq!(game.set_ready(&3, false), Ok(()));
    assert_eq!(game.rooms[&room_id].ready_players, vec![2]);
    assert_eq!(game.set_ready(&3, true), Ok(()));
    let (seed, match_setting) = game.start_match(room_id).expect("starts");
    assert_eq!(seed[6] >> 4, 4);
    assert_eq!(seed[8] >> 6, 2);
    assert_eq!(match_setting, "{}");
    let room = &game.rooms[&room_id];
    assert_eq!(room.status, RoomStatus::Playing);
    assert_eq!(room.alive_players, vec![1, 2, 3]);
    assert!(room.ready_players.is_empty());
    assert_eq!(game.start_match(room_id).unwrap_err(), "Game already started");
    assert_eq!(
        game.set_ready(&2, true),
        Err(text("Cannot change ready state during a match"))
    );
    assert_eq!(game.set_ready(&9, true), Err(text("Not in a room")));
}

#[test]
fn begin_match_returns_the_settings() {
    let (mut game, room_id, _) = seated(&[1, 2], 2);
    game.set_ready(&2, true).expect("ready");
    game.update_match_setting(room_id, 1, text("{\"a\":1}")).expect("owner");
    assert_eq!(game.begin_match(room_id), Ok(text("{\"a\":1}")));
    assert_eq!(game.begin_match(room_id), Err(text("Game already started")));
}

#[test]
fn match_of_three_goes_on_until_one_is_left() {
    let (mut game, room_id, _) = seated(&[1, 2, 3], 4);
    game.set_ready(&2, true).expect("ready");
    game.set_ready(&3, true).expect("ready");
    game.begin_match(room_id).expect("starts");
    assert_eq!(game.record_game_over(&9), WinnerStatus::MatchContinues);
    assert_eq!(game.record_game_over(&2), WinnerStatus::MatchContinues);
    assert_eq!(game.record_game_over(&2), WinnerStatus::MatchContinues);
    assert_eq!(game.rooms[&room_id].alive_players, vec![1, 3]);
    assert_eq!(game.record_game_over(&3), WinnerStatus::Winner(1));
    assert_eq!(game.rooms[&room_id].status, RoomStatus::Waiting);
    assert!(game.rooms[&room_id].alive_players.is_empty());
}

#[test]
fn sole_survivor_wins() {
    let (mut game, room_id, _) = seated(&[1, 2], 2);
    game.set_ready(&2, true).expect("ready");
    game.begin_match(room_id).expect("starts");
    game.leave_room(&2);
    assert_eq!(game.record_game_over(&1), WinnerStatus::Winner(1));
    assert_eq!(game.rooms[&room_id].status, RoomStatus::Waiting);
    assert_eq!(game.record_game_over(&1), WinnerStatus::MatchContinues);
}

#[test]
fn dead_player_never_wins() {
    let (mut game, room_id, _) = seated(&[1, 2, 3], 4);
    game.set_ready(&2, true).expect("ready");
    game.set_ready(&3, true).expect("ready");
    game.begin_match(room_id).expect("starts");
    assert_eq!(game.record_game_over(&1), WinnerStatus::MatchContinues);
    game.leave_room(&2);
    game.leave_room(&3);
    assert_eq!(game.record_game_over(&1), WinnerStatus::MatchContinues);
    assert_eq!(game.rooms[&room_id].status, RoomStatus::Waiting);
}

#[test]
fn match_of_four_is_won_by_the_last_alive() {
    let (mut game, room_id, _) = seated(&[1, 2, 3, 4], 4);
    for id in [2, 3, 4] {
        game.set_ready(&id, true).expect("ready");
    }
    game.begin_match(room_id).expect("starts");
    assert_eq!(game.record_game_over(&3), WinnerStatus::MatchContinues);
    assert_eq!(game.record_game_over(&1), WinnerStatus::MatchContinues);
    assert_eq!(game.record_game_over(&4), WinnerStatus::Winner(2));
    for id in [1, 2, 3, 4] {
        assert_eq!(game.record_game_over(&id), WinnerStatus::MatchContinues);
    }
    assert_eq!(game.rooms[&room_id].status, RoomStatus::Waiting);
}

#[test]
fn rematch_needs_everybody_ready_again() {
    let (mut game, room_id, _) = seated(&[1, 2, 3], 4);
    for id in [2, 3] {
        game.set_ready(&id, true).expect("ready");
    }
    game.begin_match(room_id).expect("starts");
    game.record_game_over(&1);
    game.record_game_over(&2);
    assert_eq!(game.begin_match(room_id).unwrap_err(), "Not all players are ready: P1, P2");
    game.set_ready(&3, true).expect("ready");
    assert_eq!(game.begin_match(room_id).unwrap_err(), "Not all players are ready: P1");
    game.set_ready(&2, true).expect("ready");
    assert!(game.begin_match(room_id).is_ok());
}

#[test]
fn random_match_pairs_the_first_two() {
    let mut game: Game<u32> = Game::default();
    assert_eq!(game.random_match(1, text("A"), text("tet")), MatchResult::Waiting);
    assert_eq!(game.random_match(1, text("A"), text("tet")), MatchResult::Waiting);
    assert!(!game.has_waiting_opponent(1));
    assert!(game.has_waiting_opponent(2));
    let room_id = match game.random_match(2, text("B"), text("puyo")) {
        MatchResult::Matched { room_id, opponent } => {
            assert_eq!(opponent, 1);
            room_id
        }
        MatchResult::Waiting => panic!("somebody was waiting"),
    };
    let room = &game.rooms[&room_id];
    assert_eq!(room.owner, 1);
    assert_eq!(room.room_name, "Random Match");
    assert_eq!(room.max_players, 2);
    assert!(!room.is_public);
    assert_eq!(
        room.players,
        vec![(1, text("A"), text("tet")), (2, text("B"), text("puyo"))]
    );
    assert_eq!(game.get_opponent(&1), Some(2));
    assert!(!game.cancel_random_match(&1));
    assert_eq!(game.random_match(3, text("C"), text("tet")), MatchResult::Waiting);
    assert!(game.cancel_random_match(&3));
    assert!(!game.cancel_random_match(&3));
    assert_eq!(game.random_match(4, text("D"), text("tet")), MatchResult::Waiting);
}

#[test]
fn both_channels_make_a_connection() {
    let mut game: Game<u32> = Game::default();
    assert_eq!(game.get_connection_state(&1), None);
    assert_eq!(game.get_reliable_connection(&1), None);
    game.add_unreliable_connection(1, 20);
    assert_eq!(game.get_connection_state(&1), Some(ConnectionState::Establishing));
    game.check_if_ready(1);
    assert_eq!(game.get_connection_state(&1), Some(ConnectionState::Establishing));
    game.add_reliable_connection(1, 10);
    assert_eq!(game.get_connection_state(&1), Some(ConnectionState::Connected));
    assert_eq!(game.get_reliable_connection(&1), Some(&10));
    assert_eq!(game.get_unreliable_connection(&1), Some(&20));
    game.set_connection_state(&1, ConnectionState::Disconnected);
    game.check_if_ready(1);
    assert_eq!(game.get_connection_state(&1), Some(ConnectionState::Connected));
}

#[test]
fn channels_stay_within_the_room() {
    let (mut game, room_id, _) = seated(&[1, 2, 3], 4);
    for id in [1u32, 2, 4] {
        game.add_reliable_connection(Uuid::from(id), 10 + id);
        game.add_unreliable_connection(Uuid::from(id), 20 + id);
    }
    assert_eq!(game.get_room_peers(&1), vec![2, 3]);
    assert_eq!(game.get_room_peers(&2), vec![1, 3]);
    assert!(game.get_room_peers(&4).is_empty());
    assert_eq!(game.get_room_peer_channels(&3, true), vec![&11, &12]);
    assert_eq!(game.get_room_peer_channels(&3, false), vec![&21, &22]);
    assert_eq!(game.get_room_peer_channels(&1, true), vec![&12]);
    assert_eq!(game.get_room_reliable_channels(&room_id), vec![&11, &12]);
    assert!(game.get_room_reliable_channels(&77).is_empty());
    assert_eq!(game.get_opponent_channel(&2, true), Some(&11));
    assert_eq!(game.get_opponent_channel(&2, false), Some(&21));
    assert_eq!(game.get_opponent_channel(&4, true), None);
}

#[test]
fn pings_are_kept_and_leave_with_the_player() {
    let (mut game, room_id, _) = seated(&[1, 2], 2);
    game.set_ping(&2, 30);
    game.set_ping(&2, 40);
    game.set_ping(&9, 50);
    assert_eq!(game.rooms[&room_id].pings.get(&2), Some(&40));
    assert_eq!(game.rooms[&room_id].pings.len(), 1);
    let info = game.room_info(&room_id).expect("room");
    assert_eq!(info.pings, vec![(2, 40)]);
    game.leave_room(&2);
    assert!(game.rooms[&room_id].pings.is_empty());
    assert!(game.room_info(&77).is_none());
}

#[test]
fn owners_update_their_room() {
    let (mut game, room_id, _) = seated(&[1, 2], 4);
    assert_eq!(
        game.update_room(77, 1, text("n"), 4, false, vec![]),
        Err(text("Room not found"))
    );
    assert_eq!(
        game.update_room(room_id, 2, text("n"), 4, false, vec![]),
        Err(text("Only the room owner can update the room"))
    );
    assert_eq!(game.rooms[&room_id].room_name, "r");
    assert_eq!(
        game.update_room(room_id, 1, text("small"), 1, false, vec![RoomTag::Casual]),
        Err(text("Max players cannot be less than current player count"))
    );
    assert_eq!(game.rooms[&room_id].room_name, "small");
    assert_eq!(game.rooms[&room_id].max_players, 4);
    assert!(game.rooms[&room_id].is_public);
    assert_eq!(game.update_room(room_id, 1, text("n"), 2, false, vec![RoomTag::TetOnly]), Ok(()));
    assert_eq!(game.rooms[&room_id].max_players, 2);
    assert!(!game.rooms[&room_id].is_public);
    assert_eq!(game.rooms[&room_id].tags, vec![RoomTag::TetOnly]);
    assert_eq!(
        game.update_match_setting(room_id, 2, text("{}")),
        Err(text("Only the room owner can change match settings"))
    );
    assert_eq!(game.update_match_setting(77, 1, text("{}")), Err(text("Room not found")));
}

#[test]
fn only_public_waiting_rooms_are_listed() {
    let (mut game, room_id, _) = seated(&[1, 2], 4);
    game.new_room(3, text("hidden"), 2, false, vec![], text("C"), text("tet"));
    let list = game.list_rooms();
    assert_eq!(list.len(), 1);
    assert_eq!(list[0].id, room_id);
    assert_eq!(list[0].room_name, "r");
    assert_eq!(list[0].players, 2);
    assert_eq!(list[0].max_players, 4);
    assert!(!list[0].locked);
    game.rooms.get_mut(&room_id).unwrap().status = RoomStatus::Playing;
    assert!(game.list_rooms().is_empty());
}

#[test]
fn room_tags_and_codes() {
    let codes = vec![0, 1, 2, 3, 4, 99];
    let tags = tetra_server::room::tags_from_codes(&codes);
    assert_eq!(
        tags,
        vec![
            RoomTag::PuyoTet,
            RoomTag::PuyoOnly,
            RoomTag::TetOnly,
            RoomTag::Casual,
            RoomTag::Competitive,
            RoomTag::Casual,
        ]
    );
    assert_eq!(tetra_server::room::tags_to_codes(&tags), vec![0, 1, 2, 3, 4, 3]);
}
