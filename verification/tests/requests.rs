use tetra_server::connection::common::{ChannelKind, Followup};
use tetra_server::connection::frame::read_frame;
use tetra_server::connection::reliable::{match_started, Outcome, START_DELAY_MS};
use tetra_server::game::{ConnectionState, Game};
use tetra_server::ids::Uuid;
use tetra_server::payload::{
    JSONCancelRandomMatchRequest, JSONCreateRoomRequest, JSONGetRoomsRequest,
    JSONJoinByCodeRequest, JSONJoinRandomMatchRequest, JSONJoinRoomRequest, JSONLeaveRoomRequest,
    JSONNotifyGameOverRequest, JSONPauseRequest, JSONPing, JSONPong, JSONPostMatchActionRequest,
    JSONResumeRequest, JSONRoomInfoNotificationRequest, JSONSetReadyRequest,
    JSONStartMatchRequest, JSONTimeSyncRequest, JSONUpdateMatchSettingRequest,
    JSONUpdatePlayerPingRequest, JSONUpdatePlayerRuleRequest, JSONUpdateRoomRequest, JsonMessage,
    PROTOCOL_VERSION,
};
use tetra_server::room::{RoomStatus, RoomTag};

fn text(s: &str) -> String {
    s.to_string()
}

fn create(game: &mut Game<u32>, owner: Uuid, is_public: bool) -> (Uuid, String) {
    let out = game.handle_request(
        owner,
        JsonMessage::JSONCreateRoomRequest(JSONCreateRoomRequest {
            id: 100,
            room_name: text("room"),
            max_players: 2,
            is_public,
            tags: vec![4, 9],
            username: text("A"),
            rule: text("tet"),
        }),
        0,
    );
    assert!(out.followups.is_empty());
    match out.reply {
        Some(JsonMessage::JSONCreateRoomResponse(m)) => {
            assert_eq!(m.id, 100);
            (m.room_id, m.code)
        }
        other => panic!("unexpected {other:?}"),
    }
}

fn join(game: &mut Game<u32>, id: Uuid, room_id: Uuid) -> Outcome {
    game.handle_request(
        id,
        JsonMessage::JSONJoinRoomRequest(JSONJoinRoomRequest {
            id: 200,
            room_id,
            username: text("B"),
            rule: text("puyo"),
        }),
        0,
    )
}

fn join_by_code(game: &mut Game<u32>, id: Uuid, code: &str) -> Outcome {
    game.handle_request(
        id,
        JsonMessage::JSONJoinByCodeRequest(JSONJoinByCodeRequest {
            id: 300,
            code: text(code),
            username: text("B"),
            rule: text("puyo"),
        }),
        0,
    )
}

fn notifies(out: &Outcome, room_id: Uuid) -> bool {
    matches!(out.followups.as_slice(), [Followup::NotifyRoom(id)] if *id == room_id)
}

/// A public room of players 1 and 2.
fn room_of_two() -> (Game<u32>, Uuid) {
    let mut game: Game<u32> = Game::default();
    let (room_id, _) = create(&mut game, 1, true);
    join(&mut game, 2, room_id);
    (game, room_id)
}

fn playing() -> (Game<u32>, Uuid) {
    let (mut game, room_id) = room_of_two();
    game.set_ready(&2, true).expect("ready");
    game.begin_match(room_id).expect("starts");
    (game, room_id)
}

#[test]
fn json_probe_is_answered() {
    let mut game: Game<u32> = Game::default();
    let out = game.handle_request(1, JsonMessage::JSONPing(JSONPing { id: 7 }), 0);
    assert!(matches!(out.reply, Some(JsonMessage::JSONPong(m)) if m.id == 7));
    assert!(out.followups.is_empty());
    let out = game.handle_request(1, JsonMessage::JSONPong(JSONPong { id: 7 }), 0);
    assert!(out.reply.is_none() && out.followups.is_empty());
}

#[test]
fn created_room_is_listed_and_joined() {
    let mut game: Game<u32> = Game::default();
    let (room_id, code) = create(&mut game, 1, true);
    assert_eq!(game.rooms[&room_id].tags, vec![RoomTag::Competitive, RoomTag::Casual]);
    let out =
        game.handle_request(2, JsonMessage::JSONGetRoomsRequest(JSONGetRoomsRequest { id: 8 }), 0);
    match out.reply {
        Some(JsonMessage::JSONGetRoomsResponse(m)) => {
            assert_eq!(m.id, 8);
            assert_eq!(m.rooms.len(), 1);
            assert_eq!(m.rooms[0].id, room_id);
            assert_eq!(m.rooms[0].tags, vec![4, 3]);
        }
        other => panic!("unexpected {other:?}"),
    }
    let out = join(&mut game, 2, room_id);
    assert!(notifies(&out, room_id));
    assert!(matches!(
        out.reply,
        Some(JsonMessage::JSONJoinRoomResponse(m)) if m.id == 200 && m.success && m.message.is_none()
    ));
    let out = join_by_code(&mut game, 3, &code);
    assert!(out.followups.is_empty());
    match out.reply {
        Some(JsonMessage::JSONJoinByCodeResponse(m)) => {
            assert!(!m.success);
            assert_eq!(m.message, Some(text("Room is full")));
            assert_eq!(m.room_id, None);
        }
        other => panic!("unexpected {other:?}"),
    }
}

#[test]
fn private_room_is_joined_by_code_alone() {
    let mut game: Game<u32> = Game::default();
    let (room_id, code) = create(&mut game, 1, false);
    assert!(game.list_rooms().is_empty());
    let out = join(&mut game, 2, room_id);
    assert!(out.followups.is_empty());
    assert!(matches!(
        out.reply,
        Some(JsonMessage::JSONJoinRoomResponse(m)) if !m.success
            && m.message.as_deref() == Some("This room is private. Use room code to join.")
    ));
    assert_eq!(game.room_of(&2), None);
    let out = join(&mut game, 2, 77);
    assert!(matches!(
        out.reply,
        Some(JsonMessage::JSONJoinRoomResponse(m)) if m.message.as_deref() == Some("Room not found")
    ));
    let out = join_by_code(&mut game, 2, "xxxxxx");
    assert!(matches!(
        out.reply,
        Some(JsonMessage::JSONJoinByCodeResponse(m)) if m.message.as_deref() == Some("Room not found")
    ));
    let out = join_by_code(&mut game, 2, &code);
    assert!(notifies(&out, room_id));
    assert!(matches!(
        out.reply,
        Some(JsonMessage::JSONJoinByCodeResponse(m)) if m.success && m.room_id == Some(room_id)
    ));
    assert_eq!(game.get_opponent(&2), Some(1));
}

#[test]
fn random_match_by_request() {
    let mut game: Game<u32> = Game::default();
    let ask = |id: Uuid| {
        JsonMessage::JSONJoinRandomMatchRequest(JSONJoinRandomMatchRequest {
            id,
            username: text("X"),
            rule: text("tet"),
        })
    };
    let out = game.handle_request(1, ask(5), 0);
    assert!(matches!(
        out.reply,
        Some(JsonMessage::JSONJoinRandomMatchResponse(m)) if m.id == 5 && !m.matched && m.room_id.is_none()
    ));
    let out = game.handle_request(2, ask(6), 0);
    let room_id = game.room_of(&2).expect("matched");
    assert!(notifies(&out, room_id));
    assert!(matches!(
        out.reply,
        Some(JsonMessage::JSONJoinRandomMatchResponse(m)) if m.id == 6 && m.matched && m.room_id == Some(room_id)
    ));
    game.handle_request(3, ask(7), 0);
    for success in [true, false] {
        let out = game.handle_request(
            3,
            JsonMessage::JSONCancelRandomMatchRequest(JSONCancelRandomMatchRequest { id: 8 }),
            0,
        );
        assert!(matches!(
            out.reply,
            Some(JsonMessage::JSONCancelRandomMatchResponse(m)) if m.success == success
        ));
    }
}

#[test]
fn leaving_by_request() {
    let (mut game, room_id) = room_of_two();
    let leave = |room_id: Uuid| {
        JsonMessage::JSONLeaveRoomRequest(JSONLeaveRoomRequest { id: 1, room_id })
    };
    let out = game.handle_request(2, leave(77), 0);
    assert!(out.followups.is_empty());
    assert!(matches!(
        out.reply,
        Some(JsonMessage::JSONLeaveRoomResponse(m)) if m.message.as_deref() == Some("Room not found")
    ));
    assert_eq!(game.room_of(&2), Some(room_id));
    let out = game.handle_request(2, leave(room_id), 0);
    assert!(notifies(&out, room_id));
    assert!(matches!(out.reply, Some(JsonMessage::JSONLeaveRoomResponse(m)) if m.success));
    assert_eq!(game.room_of(&2), None);
}

#[test]
fn room_updates_by_request() {
    let (mut game, room_id) = room_of_two();
    let update = |max_players: u8| {
        JsonMessage::JSONUpdateRoomRequest(JSONUpdateRoomRequest {
            id: 1,
            room_id,
            room_name: text("new"),
            max_players,
            is_public: false,
            tags: vec![0],
        })
    };
    let out = game.handle_request(2, update(4), 0);
    assert!(out.followups.is_empty());
    assert!(matches!(out.reply, Some(JsonMessage::JSONUpdateRoomResponse(m)) if !m.success));
    assert_eq!(game.rooms[&room_id].room_name, "room");
    let out = game.handle_request(1, update(1), 0);
    assert!(out.followups.is_empty());
    assert!(matches!(out.reply, Some(JsonMessage::JSONUpdateRoomResponse(m)) if !m.success));
    assert_eq!(game.rooms[&room_id].room_name, "new");
    assert_eq!(game.rooms[&room_id].max_players, 2);
    let out = game.handle_request(1, update(4), 0);
    assert!(notifies(&out, room_id));
    assert_eq!(game.rooms[&room_id].max_players, 4);
    assert_eq!(game.rooms[&room_id].tags, vec![RoomTag::PuyoTet]);
}

#[test]
fn room_info_by_request() {
    let (mut game, room_id) = room_of_two();
    let ask = || JsonMessage::JSONRoomInfoNotificationRequest(JSONRoomInfoNotificationRequest {});
    let out = game.handle_request(9, ask(), 0);
    assert!(out.reply.is_none() && out.followups.is_empty());
    game.set_ready(&2, true).expect("ready");
    let out = game.handle_request(2, ask(), 0);
    match out.reply {
        Some(JsonMessage::JSONRoomInfoNotification(m)) => {
            assert_eq!(m.room_id, room_id);
            assert_eq!(m.owner_id, 1);
            assert_eq!(m.room_name, "room");
            assert_eq!(
                m.players,
                vec![(1, text("A"), text("tet")), (2, text("B"), text("puyo"))]
            );
            assert_eq!(m.max_players, 2);
            assert_eq!(m.tags, vec![4, 3]);
            assert_eq!(m.match_setting, "{}");
            assert_eq!(m.ready_players, vec![2]);
            assert!(m.pings.is_empty());
            assert_eq!(m.code, game.rooms[&room_id].code);
            assert!(m.is_public);
        }
        other => panic!("unexpected {other:?}"),
    }
}

#[test]
fn starting_by_request() {
    let (mut game, room_id) = room_of_two();
    let start = || JsonMessage::JSONStartMatchRequest(JSONStartMatchRequest { id: 3, room_id });
    let out = game.handle_request(2, start(), 0);
    assert!(matches!(
        out.reply,
        Some(JsonMessage::JSONStartMatchResponse(m))
            if m.message.as_deref() == Some("Only the room owner can start the match")
    ));
    let out = game.handle_request(1, start(), 0);
    assert!(out.followups.is_empty());
    assert!(matches!(
        out.reply,
        Some(JsonMessage::JSONStartMatchResponse(m))
            if m.message.as_deref() == Some("Not all players are ready: B")
    ));
    let ready = JsonMessage::JSONSetReadyRequest(JSONSetReadyRequest { id: 4, room_id, ready: true });
    let out = game.handle_request(2, ready, 0);
    assert!(notifies(&out, room_id));
    assert!(matches!(out.reply, Some(JsonMessage::JSONSetReadyResponse(m)) if m.success));
    let out = game.handle_request(1, start(), 1_000);
    assert!(matches!(out.reply, Some(JsonMessage::JSONStartMatchResponse(m)) if m.success));
    match out.followups.as_slice() {
        [Followup::Broadcast(to, JsonMessage::JSONStartMatchNotification(m))] => {
            assert_eq!(*to, room_id);
            assert_eq!(m.room_id, room_id);
            assert_eq!(m.seed.len(), 16);
            assert_eq!(m.seed[6] >> 4, 4);
            assert_eq!(m.start_time_ms, 4_000);
            assert_eq!(m.match_setting, "{}");
            assert_eq!(m.protocol_version, 1);
        }
        _ => panic!("the room is told"),
    }
    let ready = JsonMessage::JSONSetReadyRequest(JSONSetReadyRequest { id: 4, room_id, ready: true });
    let out = game.handle_request(2, ready, 0);
    assert!(out.followups.is_empty());
}

#[test]
fn started_match_is_announced_with_its_seed() {
    let out = match_started(1, 2, [9; 16], text("s"), 500);
    match out.followups.as_slice() {
        [Followup::Broadcast(2, JsonMessage::JSONStartMatchNotification(m))] => {
            assert_eq!(m.seed, vec![9; 16]);
            assert_eq!(m.start_time_ms, 500 + START_DELAY_MS);
            assert_eq!(m.protocol_version, PROTOCOL_VERSION);
        }
        _ => panic!("the room is told"),
    }
}

#[test]
fn settings_and_rules_by_request() {
    let (mut game, room_id) = room_of_two();
    let setting = || {
        JsonMessage::JSONUpdateMatchSettingRequest(JSONUpdateMatchSettingRequest {
            id: 1,
            room_id,
            setting: text("{\"x\":1}"),
        })
    };
    let out = game.handle_request(2, setting(), 0);
    assert!(out.followups.is_empty());
    assert_eq!(game.rooms[&room_id].match_setting, "{}");
    let out = game.handle_request(1, setting(), 0);
    match out.followups.as_slice() {
        [Followup::Broadcast(to, JsonMessage::JSONUpdateMatchSettingNotification(m)), Followup::NotifyRoom(also)] =>
        {
            assert_eq!((*to, *also), (room_id, room_id));
            assert_eq!(m.setting, "{\"x\":1}");
        }
        _ => panic!("the room is told twice"),
    }
    let rule = |rule: &str| {
        JsonMessage::JSONUpdatePlayerRuleRequest(JSONUpdatePlayerRuleRequest {
            id: 1,
            room_id,
            rule: text(rule),
        })
    };
    let out = game.handle_request(2, rule("chess"), 0);
    assert!(out.followups.is_empty());
    assert!(matches!(
        out.reply,
        Some(JsonMessage::JSONUpdatePlayerRuleResponse(m)) if m.message.as_deref() == Some("Invalid rule")
    ));
    assert!(notifies(&game.handle_request(2, rule("tet"), 0), room_id));
    assert_eq!(game.rooms[&room_id].players[1].2, "tet");
}

#[test]
fn time_ping_pause_resume_and_actions() {
    let (mut game, room_id) = room_of_two();
    let out =
        game.handle_request(1, JsonMessage::JSONTimeSyncRequest(JSONTimeSyncRequest { id: 4 }), 99);
    assert!(matches!(
        out.reply,
        Some(JsonMessage::JSONTimeSyncResponse(m)) if m.id == 4 && m.server_time_ms == 99
    ));
    let out = game.handle_request(
        2,
        JsonMessage::JSONUpdatePlayerPingRequest(JSONUpdatePlayerPingRequest { room_id, ping_ms: 33 }),
        0,
    );
    assert!(out.reply.is_none() && notifies(&out, room_id));
    assert_eq!(game.rooms[&room_id].pings.get(&2), Some(&33));
    let out =
        game.handle_request(2, JsonMessage::JSONPauseRequest(JSONPauseRequest { room_id }), 0);
    assert!(matches!(
        out.followups.as_slice(),
        [Followup::Broadcast(to, JsonMessage::JSONPauseNotification(m))] if *to == room_id && m.paused_by == 2
    ));
    let out =
        game.handle_request(2, JsonMessage::JSONResumeRequest(JSONResumeRequest { room_id }), 0);
    assert!(matches!(
        out.followups.as_slice(),
        [Followup::Broadcast(to, JsonMessage::JSONResumeNotification(m))] if *to == room_id && m.room_id == room_id
    ));
    let out = game.handle_request(
        2,
        JsonMessage::JSONPostMatchActionRequest(JSONPostMatchActionRequest {
            room_id,
            action: text("rematch"),
        }),
        0,
    );
    assert!(matches!(
        out.followups.as_slice(),
        [Followup::Broadcast(_, JsonMessage::JSONPostMatchActionNotification(m))]
            if m.player_id == 2 && m.action == "rematch"
    ));
}

#[test]
fn death_by_request() {
    let (mut game, room_id) = playing();
    let over =
        || JsonMessage::JSONNotifyGameOverRequest(JSONNotifyGameOverRequest { id: 5, room_id });
    let out = game.handle_request(1, over(), 0);
    assert!(matches!(out.reply, Some(JsonMessage::JSONNotifyGameOverResponse(m)) if m.success));
    assert!(matches!(
        out.followups.as_slice(),
        [Followup::Broadcast(to, JsonMessage::JSONWinnerNotification(m))]
            if *to == room_id && m.winner == Some(2)
    ));
    let out = game.handle_request(2, over(), 0);
    assert!(out.followups.is_empty());
}

#[test]
fn lost_player_loses_the_match() {
    let (mut game, room_id) = playing();
    assert!(!game.begin_disconnect(1));
    game.add_reliable_connection(1, 11);
    game.add_unreliable_connection(1, 21);
    assert!(game.finish_disconnect(1).is_none());
    assert!(game.begin_disconnect(1));
    assert!(!game.begin_disconnect(1));
    assert_eq!(game.get_connection_state(&1), Some(ConnectionState::Disconnected));
    let removal = game.finish_disconnect(1).expect("removed");
    assert_eq!((removal.reliable, removal.unreliable), (Some(11), Some(21)));
    assert!(matches!(
        removal.followups.as_slice(),
        [
            Followup::NotifyRoom(a),
            Followup::Broadcast(b, JsonMessage::JSONPlayerDisconnectedNotification(lost)),
            Followup::Broadcast(c, JsonMessage::JSONWinnerNotification(won)),
        ] if *a == room_id && *b == room_id && *c == room_id
            && lost.player_id == 1 && won.winner == Some(2)
    ));
    assert_eq!(game.rooms[&room_id].status, RoomStatus::Waiting);
    assert_eq!(game.rooms[&room_id].owner, 2);
    assert!(game.finish_disconnect(1).is_none());
}

#[test]
fn lost_player_outside_a_match_just_leaves() {
    let (mut game, room_id) = room_of_two();
    game.add_reliable_connection(2, 12);
    assert!(game.begin_disconnect(2));
    let removal = game.finish_disconnect(2).expect("removed");
    assert!(matches!(removal.followups.as_slice(), [Followup::NotifyRoom(a)] if *a == room_id));
    game.add_reliable_connection(5, 15);
    assert!(game.begin_disconnect(5));
    assert!(game.finish_disconnect(5).expect("removed").followups.is_empty());
}

#[test]
fn closing_removes_the_player() {
    let (mut game, room_id) = room_of_two();
    game.add_reliable_connection(2, 12);
    assert_eq!(game.close_connection(2), (Some(12), None));
    assert_eq!(game.get_connection_state(&2), None);
    assert_eq!(game.room_of(&2), None);
    assert_eq!(game.rooms[&room_id].players.len(), 1);
    assert_eq!(game.close_connection(2), (None, None));
}

#[test]
fn room_notification_goes_to_everybody_in_the_room() {
    let (mut game, room_id) = room_of_two();
    game.add_reliable_connection(1, 11);
    game.add_reliable_connection(2, 12);
    game.add_reliable_connection(3, 13);
    let (message, channels) = game.room_notification(&room_id).expect("room");
    assert!(matches!(
        message,
        JsonMessage::JSONRoomInfoNotification(m) if m.room_id == room_id
    ));
    assert_eq!(channels, vec![&11, &12]);
    assert!(game.room_notification(&77).is_none());
}

#[test]
fn sole_survivor_is_announced_as_the_winner() {
    let (mut game, room_id) = playing();
    game.leave_room(&2);
    let over =
        JsonMessage::JSONNotifyGameOverRequest(JSONNotifyGameOverRequest { id: 5, room_id });
    let out = game.handle_request(1, over, 0);
    assert!(matches!(
        out.followups.as_slice(),
        [Followup::Broadcast(to, JsonMessage::JSONWinnerNotification(m))]
            if *to == room_id && m.winner == Some(1)
    ));
}

#[test]
fn relayed_frames_go_to_channels_of_their_kind() {
    let mut game: Game<u32> = Game::default();
    let (room_id, _) =
        game.new_room(1, text("r"), 4, true, vec![], text("A"), text("tet"));
    for id in [2u32, 3] {
        game.add_player_to_room(room_id, Uuid::from(id), text("X"), text("tet")).expect("joins");
    }
    for id in [1u32, 2, 3, 4] {
        game.add_reliable_connection(Uuid::from(id), 10 + id);
        game.add_unreliable_connection(Uuid::from(id), 20 + id);
    }
    let (rel, unrel) = (ChannelKind::Reliable, ChannelKind::Unreliable);
    let to_peers = read_frame(&[0x20, 1], &2, rel);
    assert_eq!(game.relay_targets(&to_peers, &2, rel), vec![&11, &13]);
    assert_eq!(game.relay_targets(&to_peers, &2, unrel), vec![&21, &23]);
    assert!(game.relay_targets(&to_peers, &4, rel).is_empty());
    let event = read_frame(&[0x06, 1], &2, rel);
    assert_eq!(game.relay_targets(&event, &2, rel), vec![&11]);
    let state = read_frame(&[0x07, 1], &1, unrel);
    assert_eq!(game.relay_targets(&state, &1, unrel), vec![&22]);
    assert!(game.relay_targets(&state, &4, unrel).is_empty());
    let close = read_frame(&[0x05, 1], &2, rel);
    assert!(game.relay_targets(&close, &2, rel).is_empty());
}
