//! What each request of the JSON layer is answered, what it does, and who else is told.
//!
//! The laws speak of the request, the tables before and after it, and the messages that are sent.

use vstd::prelude::*;

use crate::effects::{
    death_relation, first_in_line, join_relation, law_cancel_effect, law_death_effect,
    law_enqueue_effect, law_join_effect, law_leave_effect, law_opening_effect, law_pairing_effect,
    law_ping_effect, law_ready_effect, law_room_info_is_the_room, law_room_list, law_rule_effect,
    law_setting_effect, law_start_effect, law_update_effect, law_waiting_opponent, leave_relation,
    opening_relation, pairing_relation, ping_relation, players_dropped, ready_relation,
    rule_relation, setting_relation, start_relation, tag_number, update_relation,
};
use crate::game::WinnerStatus;
use crate::ids::{is_random_uuid, uuid_bytes, Uuid};
use crate::lists::{player_ids, PlayerView};
use crate::model::{six_digits, GameView};
use crate::payload::json::{
    JSONCancelRandomMatchRequest, JSONCreateRoomRequest, JSONGetRoomsRequest,
    JSONJoinByCodeRequest, JSONJoinRandomMatchRequest, JSONJoinRoomRequest, JSONLeaveRoomRequest,
    JSONNotifyGameOverRequest, JSONPauseRequest, JSONPing, JSONPostMatchActionRequest,
    JSONResumeRequest, JSONRoomInfoNotificationRequest, JSONSetReadyRequest, JSONStartMatchRequest,
    JSONTimeSyncRequest, JSONUpdateMatchSettingRequest, JSONUpdatePlayerPingRequest,
    JSONUpdatePlayerRuleRequest, JSONUpdateRoomRequest, JsonMessage, MessageView,
};
use crate::room::{tags_of_codes, RoomStatus};

use super::common::FollowupView;
use super::reliable::{request_effect, OutcomeView};

verus! {

/// Whether nothing is sent after the answer.
pub open spec fn nobody_is_told(out: OutcomeView) -> bool {
    out.followups.len() == 0
}

/// Whether everybody in the room, and nobody else, is told its state.
pub open spec fn room_is_told(out: OutcomeView, room_id: Uuid) -> bool {
    out.followups.len() == 1 && out.followups[0] == FollowupView::NotifyRoom(room_id)
}

/// Whether the room is told its state if the request was granted, and nobody is told anything if not.
pub open spec fn told_if(granted: bool, out: OutcomeView, room_id: Uuid) -> bool {
    if granted {
        room_is_told(out, room_id)
    } else {
        nobody_is_told(out)
    }
}

/// Whether everybody in the room, and nobody else, is sent the message.
pub open spec fn room_is_sent(out: OutcomeView, room_id: Uuid, message: MessageView) -> bool {
    out.followups.len() == 1 && out.followups[0] == FollowupView::Broadcast(room_id, message)
}

/// A probe is answered with its identifier.
pub proof fn law_ping_reply<C>(
    pre: GameView<C>,
    id: Uuid,
    req: JSONPing,
    now_ms: u64,
    post: GameView<C>,
    out: OutcomeView,
)
    requires
        request_effect(pre, id, JsonMessage::JSONPing(req), now_ms, post, out),
    ensures
        post == pre,
        out.reply == Some(MessageView::Pong { id: req.id }),
        nobody_is_told(out),
{
}

/// Asking for the time is answered with the time.
pub proof fn law_time_reply<C>(
    pre: GameView<C>,
    id: Uuid,
    req: JSONTimeSyncRequest,
    now_ms: u64,
    post: GameView<C>,
    out: OutcomeView,
)
    requires
        request_effect(pre, id, JsonMessage::JSONTimeSyncRequest(req), now_ms, post, out),
    ensures
        post == pre,
        out.reply == Some(MessageView::TimeSyncResponse { id: req.id, server_time_ms: now_ms }),
        nobody_is_told(out),
{
}

/// Asking for the rooms is answered with each public room that waits, once, and no other.
pub proof fn law_rooms_reply<C>(
    pre: GameView<C>,
    id: Uuid,
    req: JSONGetRoomsRequest,
    now_ms: u64,
    post: GameView<C>,
    out: OutcomeView,
)
    requires
        request_effect(pre, id, JsonMessage::JSONGetRoomsRequest(req), now_ms, post, out),
    ensures
        post == pre,
        nobody_is_told(out),
        out.reply matches Some(MessageView::GetRoomsResponse { id: to, rooms }) && {
            &&& to == req.id
            &&& forall|i: int|
                #![trigger rooms[i]]
                0 <= i < rooms.len() ==> {
                    let room = pre.rooms[rooms[i].id];
                    &&& pre.rooms.contains_key(rooms[i].id)
                    &&& room.status == RoomStatus::Waiting
                    &&& room.is_public
                    &&& rooms[i].room_name == room.room_name
                    &&& rooms[i].players == room.players.len() as u8
                    &&& rooms[i].max_players == room.max_players
                    &&& !rooms[i].locked
                    &&& rooms[i].tags.len() == room.tags.len()
                    &&& forall|j: int|
                        0 <= j < room.tags.len() ==> #[trigger] rooms[i].tags[j] == tag_number(
                            room.tags[j],
                        )
                }
            &&& forall|i: int, j: int|
                0 <= i < j < rooms.len() ==> (#[trigger] rooms[i]).id != (#[trigger] rooms[j]).id
            &&& forall|room_id: Uuid| #[trigger]
                pre.rooms.contains_key(room_id) && pre.rooms[room_id].status == RoomStatus::Waiting
                    && pre.rooms[room_id].is_public ==> exists|i: int|
                    0 <= i < rooms.len() && (#[trigger] rooms[i]).id == room_id
        },
{
    law_room_list(pre, out.reply->0->GetRoomsResponse_rooms);
}

/// Asking for a room is answered with a new one that is as asked for, under a code of six digits that
/// was not in use. The sender owns it.
pub proof fn law_create_reply<C>(
    pre: GameView<C>,
    id: Uuid,
    req: JSONCreateRoomRequest,
    now_ms: u64,
    post: GameView<C>,
    out: OutcomeView,
)
    requires
        request_effect(pre, id, JsonMessage::JSONCreateRoomRequest(req), now_ms, post, out),
    ensures
        nobody_is_told(out),
        out.reply matches Some(MessageView::CreateRoomResponse { id: to, room_id, code }) && {
            let tags = post.rooms[room_id].tags;
            &&& to == req.id
            &&& is_random_uuid(room_id)
            &&& exists|n: nat| n < 1_000_000 && code == #[trigger] six_digits(n)
            &&& !pre.room_codes.contains_key(code)
            &&& opening_relation(
                pre,
                room_id,
                PlayerView { id, name: req.username@, rule: req.rule@ },
                req.room_name@,
                req.max_players,
                req.is_public,
                tags,
                code,
                post,
            )
            &&& tags.len() == req.tags@.len()
            &&& forall|i: int|
                0 <= i < tags.len() ==> tag_number(#[trigger] tags[i]) == (if req.tags@[i] <= 4 {
                    req.tags@[i]
                } else {
                    3
                })
        },
{
    let room_id = out.reply->0->CreateRoomResponse_room_id;
    let code = out.reply->0->CreateRoomResponse_code;
    law_opening_effect(
        pre,
        room_id,
        PlayerView { id, name: req.username@, rule: req.rule@ },
        req.room_name@,
        req.max_players,
        req.is_public,
        tags_of_codes(req.tags@),
        code,
    );
}

/// Joining from the list is refused where there is no such room or it is private; else it is joining.
/// The message says why it was refused, and the room is told if it was not.
pub proof fn law_join_reply<C>(
    pre: GameView<C>,
    id: Uuid,
    req: JSONJoinRoomRequest,
    now_ms: u64,
    post: GameView<C>,
    out: OutcomeView,
)
    requires
        request_effect(pre, id, JsonMessage::JSONJoinRoomRequest(req), now_ms, post, out),
    ensures
        out.reply matches Some(MessageView::JoinRoomResponse { id: to, success, message }) && {
            &&& to == req.id
            &&& success == (message is None)
            &&& told_if(success, out, req.room_id)
            &&& if !pre.rooms.contains_key(req.room_id) {
                message == Some("Room not found"@) && post == pre
            } else if !pre.rooms[req.room_id].is_public {
                message == Some("This room is private. Use room code to join."@) && post == pre
            } else {
                join_relation(
                    pre,
                    req.room_id,
                    PlayerView { id, name: req.username@, rule: req.rule@ },
                    message,
                    post,
                )
            }
        },
{
    law_join_effect(
        pre,
        req.room_id,
        PlayerView { id, name: req.username@, rule: req.rule@ },
    );
}

/// Joining by a code is joining the room that the code stands for, public or not.
pub proof fn law_join_by_code_reply<C>(
    pre: GameView<C>,
    id: Uuid,
    req: JSONJoinByCodeRequest,
    now_ms: u64,
    post: GameView<C>,
    out: OutcomeView,
)
    requires
        request_effect(pre, id, JsonMessage::JSONJoinByCodeRequest(req), now_ms, post, out),
    ensures
        out.reply matches Some(
            MessageView::JoinByCodeResponse { id: to, success, message, room_id },
        ) && {
            &&& to == req.id
            &&& success == (message is None)
            &&& room_id == (if success {
                Some(pre.room_codes[req.code@])
            } else {
                None
            })
            &&& told_if(success, out, pre.room_codes[req.code@])
            &&& if !pre.room_codes.contains_key(req.code@) {
                message == Some("Room not found"@) && post == pre
            } else {
                join_relation(
                    pre,
                    pre.room_codes[req.code@],
                    PlayerView { id, name: req.username@, rule: req.rule@ },
                    message,
                    post,
                )
            }
        },
{
    law_join_effect(
        pre,
        pre.room_codes[req.code@],
        PlayerView { id, name: req.username@, rule: req.rule@ },
    );
}

/// Asking for an opponent is answered with a room if somebody else waits, and the room is told. If
/// nobody does, the sender waits.
pub proof fn law_random_match_reply<C>(
    pre: GameView<C>,
    id: Uuid,
    req: JSONJoinRandomMatchRequest,
    now_ms: u64,
    post: GameView<C>,
    out: OutcomeView,
)
    requires
        request_effect(pre, id, JsonMessage::JSONJoinRandomMatchRequest(req), now_ms, post, out),
    ensures
        out.reply matches Some(MessageView::JoinRandomMatchResponse { id: to, matched, room_id })
            && {
            let player = PlayerView { id, name: req.username@, rule: req.rule@ };
            &&& to == req.id
            &&& matched == (room_id is Some)
            &&& matched <==> exists|k: int| #[trigger] first_in_line(pre, id, k)
            &&& room_id matches Some(room_id) ==> {
                let code = post.rooms[room_id].code;
                &&& room_is_told(out, room_id)
                &&& is_random_uuid(room_id)
                &&& exists|n: nat| n < 1_000_000 && code == #[trigger] six_digits(n)
                &&& !pre.room_codes.contains_key(code)
                &&& forall|k: int| #[trigger]
                    first_in_line(pre, id, k) ==> pairing_relation(
                        pre,
                        player,
                        k,
                        room_id,
                        code,
                        post,
                    )
            }
            &&& room_id is None ==> {
                &&& nobody_is_told(out)
                &&& post.rooms == pre.rooms
                &&& post.connections == pre.connections
                &&& post.player_rooms == pre.player_rooms
                &&& post.room_codes == pre.room_codes
                &&& post.queue == (if exists|i: int|
                    0 <= i < pre.queue.len() && (#[trigger] pre.queue[i]).id == id {
                    pre.queue
                } else {
                    pre.queue.push(player)
                })
            }
        },
{
    let player = PlayerView { id, name: req.username@, rule: req.rule@ };
    law_waiting_opponent(pre, id);
    law_enqueue_effect(pre, player);
    if pre.has_waiting_opponent(id) {
        let room_id = out.reply->0->JoinRandomMatchResponse_room_id->0;
        let code = post.rooms[room_id].code;
        assert forall|k: int| #[trigger] first_in_line(pre, id, k) implies pairing_relation(
            pre,
            player,
            k,
            room_id,
            code,
            post,
        ) by {
            law_pairing_effect(pre, player, k, room_id, code);
        }
    }
}

/// No longer waiting is answered with whether the sender was.
pub proof fn law_cancel_reply<C>(
    pre: GameView<C>,
    id: Uuid,
    req: JSONCancelRandomMatchRequest,
    now_ms: u64,
    post: GameView<C>,
    out: OutcomeView,
)
    requires
        request_effect(pre, id, JsonMessage::JSONCancelRandomMatchRequest(req), now_ms, post, out),
    ensures
        nobody_is_told(out),
        post.queue == players_dropped(pre.queue, id),
        post.rooms == pre.rooms,
        post.connections == pre.connections,
        post.player_rooms == pre.player_rooms,
        post.room_codes == pre.room_codes,
        out.reply matches Some(MessageView::CancelRandomMatchResponse { id: to, success }) && {
            &&& to == req.id
            &&& success <==> exists|i: int|
                0 <= i < pre.queue.len() && (#[trigger] pre.queue[i]).id == id
        },
{
    law_cancel_effect(pre, id);
    if player_ids(pre.queue).contains(id) {
        let i = player_ids(pre.queue).index_of(id);
        assert(pre.queue[i].id == id);
    }
    if exists|i: int| 0 <= i < pre.queue.len() && (#[trigger] pre.queue[i]).id == id {
        let i = choose|i: int| 0 <= i < pre.queue.len() && (#[trigger] pre.queue[i]).id == id;
        assert(player_ids(pre.queue)[i] == id);
    }
}

/// Leaving is refused where the room named is not there; else the sender leaves the room that they are
/// in, and the room named is told.
pub proof fn law_leave_reply<C>(
    pre: GameView<C>,
    id: Uuid,
    req: JSONLeaveRoomRequest,
    now_ms: u64,
    post: GameView<C>,
    out: OutcomeView,
)
    requires
        request_effect(pre, id, JsonMessage::JSONLeaveRoomRequest(req), now_ms, post, out),
    ensures
        out.reply == Some(
            MessageView::LeaveRoomResponse {
                id: req.id,
                success: pre.rooms.contains_key(req.room_id),
                message: if pre.rooms.contains_key(req.room_id) {
                    None
                } else {
                    Some("Room not found"@)
                },
            },
        ),
        told_if(pre.rooms.contains_key(req.room_id), out, req.room_id),
        if pre.rooms.contains_key(req.room_id) {
            leave_relation(pre, id, post)
        } else {
            post == pre
        },
{
    law_leave_effect(pre, id);
}

/// Updating a room is answered with whether and why not. A granted update leaves the room as asked
/// for, and the room is told.
pub proof fn law_update_reply<C>(
    pre: GameView<C>,
    id: Uuid,
    req: JSONUpdateRoomRequest,
    now_ms: u64,
    post: GameView<C>,
    out: OutcomeView,
)
    requires
        request_effect(pre, id, JsonMessage::JSONUpdateRoomRequest(req), now_ms, post, out),
    ensures
        out.reply matches Some(MessageView::UpdateRoomResponse { id: to, success, message }) && {
            &&& to == req.id
            &&& success == (message is None)
            &&& told_if(success, out, req.room_id)
            &&& exists|tags: Seq<crate::room::RoomTag>|
                {
                    &&& #[trigger] update_relation(
                        pre,
                        req.room_id,
                        id,
                        req.room_name@,
                        req.max_players,
                        req.is_public,
                        tags,
                        message,
                        post,
                    )
                    &&& tags.len() == req.tags@.len()
                    &&& forall|i: int|
                        0 <= i < tags.len() ==> tag_number(#[trigger] tags[i]) == (if req.tags@[i]
                            <= 4 {
                            req.tags@[i]
                        } else {
                            3
                        })
                }
            &&& success ==> {
                let room = pre.rooms[req.room_id];
                let after = post.rooms[req.room_id];
                &&& after.room_name == req.room_name@
                &&& after.max_players == req.max_players
                &&& after.is_public == req.is_public
                &&& after.owner == id
                &&& after.players == room.players
                &&& after.match_setting == room.match_setting
            }
        },
{
    let tags = tags_of_codes(req.tags@);
    law_update_effect(
        pre,
        req.room_id,
        id,
        req.room_name@,
        req.max_players,
        req.is_public,
        tags,
    );
    let message = out.reply->0->UpdateRoomResponse_message;
    assert(update_relation(
        pre,
        req.room_id,
        id,
        req.room_name@,
        req.max_players,
        req.is_public,
        tags,
        message,
        post,
    ));
}

/// Changing the match settings is answered with whether and why not. If it is granted the room is sent
/// the settings, and then told its state.
pub proof fn law_setting_reply<C>(
    pre: GameView<C>,
    id: Uuid,
    req: JSONUpdateMatchSettingRequest,
    now_ms: u64,
    post: GameView<C>,
    out: OutcomeView,
)
    requires
        request_effect(pre, id, JsonMessage::JSONUpdateMatchSettingRequest(req), now_ms, post, out),
    ensures
        out.reply matches Some(MessageView::UpdateMatchSettingResponse { id: to, success, message })
            && {
            &&& to == req.id
            &&& success == (message is None)
            &&& setting_relation(pre, req.room_id, id, req.setting@, message, post)
            &&& if success {
                &&& out.followups.len() == 2
                &&& out.followups[0] == FollowupView::Broadcast(
                    req.room_id,
                    MessageView::UpdateMatchSettingNotification {
                        room_id: req.room_id,
                        setting: req.setting@,
                    },
                )
                &&& out.followups[1] == FollowupView::NotifyRoom(req.room_id)
            } else {
                nobody_is_told(out)
            }
        },
{
    law_setting_effect(pre, req.room_id, id, req.setting@);
}

/// Asking for the state of one's room is answered with it, field by field; outside a room it is not
/// answered.
pub proof fn law_room_info_reply<C>(
    pre: GameView<C>,
    id: Uuid,
    req: JSONRoomInfoNotificationRequest,
    now_ms: u64,
    post: GameView<C>,
    out: OutcomeView,
)
    requires
        request_effect(
            pre,
            id,
            JsonMessage::JSONRoomInfoNotificationRequest(req),
            now_ms,
            post,
            out,
        ),
    ensures
        post == pre,
        nobody_is_told(out),
        if pre.player_rooms.contains_key(id) && pre.rooms.contains_key(pre.player_rooms[id]) {
            let room = pre.rooms[pre.player_rooms[id]];
            out.reply matches Some(MessageView::RoomInfoNotification(info)) && {
                &&& info.room_id == pre.player_rooms[id]
                &&& info.owner_id == room.owner
                &&& info.room_name == room.room_name
                &&& info.players == room.players
                &&& info.max_players == room.max_players
                &&& info.is_public == room.is_public
                &&& info.code == room.code
                &&& info.match_setting == room.match_setting
                &&& info.ready_players == room.ready_players
            }
        } else {
            out.reply is None
        },
{
    if pre.in_room(id) {
        law_room_info_is_the_room(
            pre.player_rooms[id],
            pre.own_room(id),
            out.reply->0->RoomInfoNotification_0,
        );
    }
}

/// The start of a match at the owner's request is answered with whether and why not. If it is granted
/// the room is sent the start: a random seed, the settings of the room, protocol version 1, and a start
/// time that is three seconds after the request was handled.
pub proof fn law_start_reply<C>(
    pre: GameView<C>,
    id: Uuid,
    req: JSONStartMatchRequest,
    now_ms: u64,
    post: GameView<C>,
    out: OutcomeView,
)
    requires
        request_effect(pre, id, JsonMessage::JSONStartMatchRequest(req), now_ms, post, out),
    ensures
        out.reply matches Some(MessageView::StartMatchResponse { id: to, success, message }) && {
            &&& to == req.id
            &&& success == (message is None)
            &&& if pre.rooms.contains_key(req.room_id) && pre.rooms[req.room_id].owner == id {
                start_relation(pre, req.room_id, message, post)
            } else {
                message == Some("Only the room owner can start the match"@) && post == pre
            }
            &&& if success {
                &&& out.followups.len() == 1
                &&& out.followups[0] matches FollowupView::Broadcast(
                    told,
                    MessageView::StartMatchNotification {
                        room_id,
                        seed,
                        start_time_ms,
                        match_setting,
                        protocol_version,
                    },
                )
                &&& told == req.room_id
                &&& room_id == req.room_id
                &&& start_time_ms - now_ms == 3000
                &&& match_setting == pre.rooms[req.room_id].match_setting
                &&& protocol_version == 1
                &&& exists|drawn: Uuid|
                    is_random_uuid(drawn) && seed == #[trigger] uuid_bytes(drawn)
            } else {
                nobody_is_told(out)
            }
        },
{
    law_start_effect(pre, req.room_id);
}

/// Changing one's rule is answered with whether and why not, and the room named is told if it was
/// granted.
pub proof fn law_rule_reply<C>(
    pre: GameView<C>,
    id: Uuid,
    req: JSONUpdatePlayerRuleRequest,
    now_ms: u64,
    post: GameView<C>,
    out: OutcomeView,
)
    requires
        request_effect(pre, id, JsonMessage::JSONUpdatePlayerRuleRequest(req), now_ms, post, out),
    ensures
        out.reply matches Some(MessageView::UpdatePlayerRuleResponse { id: to, success, message })
            && {
            &&& to == req.id
            &&& success == (message is None)
            &&& rule_relation(pre, id, req.rule@, message, post)
            &&& told_if(success, out, req.room_id)
        },
{
    law_rule_effect(pre, id, req.rule@);
}

/// Declaring readiness is answered with whether and why not, and the room named is told if it was
/// granted.
pub proof fn law_ready_reply<C>(
    pre: GameView<C>,
    id: Uuid,
    req: JSONSetReadyRequest,
    now_ms: u64,
    post: GameView<C>,
    out: OutcomeView,
)
    requires
        request_effect(pre, id, JsonMessage::JSONSetReadyRequest(req), now_ms, post, out),
    ensures
        out.reply matches Some(MessageView::SetReadyResponse { id: to, success, message }) && {
            &&& to == req.id
            &&& success == (message is None)
            &&& ready_relation(pre, id, req.ready, message, post)
            &&& told_if(success, out, req.room_id)
        },
{
    law_ready_effect(pre, id, req.ready);
}

/// A report of a round-trip time is kept and not answered, and the room named is told.
pub proof fn law_report_reply<C>(
    pre: GameView<C>,
    id: Uuid,
    req: JSONUpdatePlayerPingRequest,
    now_ms: u64,
    post: GameView<C>,
    out: OutcomeView,
)
    requires
        request_effect(pre, id, JsonMessage::JSONUpdatePlayerPingRequest(req), now_ms, post, out),
    ensures
        out.reply is None,
        ping_relation(pre, id, req.ping_ms, post),
        room_is_told(out, req.room_id),
{
    law_ping_effect(pre, id, req.ping_ms);
}

/// A pause goes to the room named, with who asked for it. Nothing changes, and nothing is answered.
pub proof fn law_pause_reply<C>(
    pre: GameView<C>,
    id: Uuid,
    req: JSONPauseRequest,
    now_ms: u64,
    post: GameView<C>,
    out: OutcomeView,
)
    requires
        request_effect(pre, id, JsonMessage::JSONPauseRequest(req), now_ms, post, out),
    ensures
        post == pre,
        out.reply is None,
        room_is_sent(
            out,
            req.room_id,
            MessageView::PauseNotification { room_id: req.room_id, paused_by: id },
        ),
{
}

/// A resumption goes to the room named. Nothing changes, and nothing is answered.
pub proof fn law_resume_reply<C>(
    pre: GameView<C>,
    id: Uuid,
    req: JSONResumeRequest,
    now_ms: u64,
    post: GameView<C>,
    out: OutcomeView,
)
    requires
        request_effect(pre, id, JsonMessage::JSONResumeRequest(req), now_ms, post, out),
    ensures
        post == pre,
        out.reply is None,
        room_is_sent(
            out,
            req.room_id,
            MessageView::ResumeNotification { room_id: req.room_id },
        ),
{
}

/// What a player wants after the match goes to the room named, with who wants it. Nothing changes, and
/// nothing is answered.
pub proof fn law_action_reply<C>(
    pre: GameView<C>,
    id: Uuid,
    req: JSONPostMatchActionRequest,
    now_ms: u64,
    post: GameView<C>,
    out: OutcomeView,
)
    requires
        request_effect(pre, id, JsonMessage::JSONPostMatchActionRequest(req), now_ms, post, out),
    ensures
        post == pre,
        out.reply is None,
        room_is_sent(
            out,
            req.room_id,
            MessageView::PostMatchActionNotification {
                player_id: id,
                room_id: req.room_id,
                action: req.action@,
            },
        ),
{
}

/// A death is answered, and the room named is sent the winner if the death decides the match.
pub proof fn law_game_over_reply<C>(
    pre: GameView<C>,
    id: Uuid,
    req: JSONNotifyGameOverRequest,
    now_ms: u64,
    post: GameView<C>,
    out: OutcomeView,
)
    requires
        request_effect(pre, id, JsonMessage::JSONNotifyGameOverRequest(req), now_ms, post, out),
    ensures
        out.reply == Some(MessageView::NotifyGameOverResponse { id: req.id, success: true }),
        exists|decision: WinnerStatus|
            {
                &&& #[trigger] death_relation(pre, id, decision, post)
                &&& match decision {
                    WinnerStatus::Winner(winner) => room_is_sent(
                        out,
                        req.room_id,
                        MessageView::WinnerNotification {
                            room_id: req.room_id,
                            winner: Some(winner),
                        },
                    ),
                    _ => nobody_is_told(out),
                }
            },
{
    law_death_effect(pre, id);
    assert(death_relation(pre, id, pre.decision(id), post));
}

/// Whether clients send such messages and the server acts on them.
pub open spec fn is_request(message: JsonMessage) -> bool {
    ||| message is JSONPing
    ||| message is JSONGetRoomsRequest
    ||| message is JSONCreateRoomRequest
    ||| message is JSONJoinRoomRequest
    ||| message is JSONJoinByCodeRequest
    ||| message is JSONJoinRandomMatchRequest
    ||| message is JSONCancelRandomMatchRequest
    ||| message is JSONLeaveRoomRequest
    ||| message is JSONUpdateRoomRequest
    ||| message is JSONRoomInfoNotificationRequest
    ||| message is JSONStartMatchRequest
    ||| message is JSONUpdateMatchSettingRequest
    ||| message is JSONUpdatePlayerRuleRequest
    ||| message is JSONSetReadyRequest
    ||| message is JSONTimeSyncRequest
    ||| message is JSONUpdatePlayerPingRequest
    ||| message is JSONPauseRequest
    ||| message is JSONResumeRequest
    ||| message is JSONNotifyGameOverRequest
    ||| message is JSONPostMatchActionRequest
}

/// Nothing comes of a message that only the server sends.
pub proof fn law_other_messages_are_ignored<C>(
    pre: GameView<C>,
    id: Uuid,
    message: JsonMessage,
    now_ms: u64,
    post: GameView<C>,
    out: OutcomeView,
)
    requires
        request_effect(pre, id, message, now_ms, post, out),
        !is_request(message),
    ensures
        post == pre,
        out.reply is None,
        nobody_is_told(out),
{
}

/// What the others are told of a lost player: outside a room nobody is told anything; the room is told
/// its state; and in a running match it is also sent who was lost, and the winner if that decides it.
pub proof fn law_loss_is_told<C>(game: GameView<C>, id: Uuid)
    ensures
        ({
            let told = game.loss_followups(id);
            let room_id = game.player_rooms[id];
            if !game.player_rooms.contains_key(id) {
                told.len() == 0
            } else if game.rooms.contains_key(room_id) && game.rooms[room_id].status
                == RoomStatus::Playing {
                exists|decision: WinnerStatus, after: GameView<C>|
                    {
                        &&& #[trigger] death_relation(game, id, decision, after)
                        &&& told.len() == (if decision is Winner {
                            3
                        } else {
                            2int
                        })
                        &&& told[0] == FollowupView::NotifyRoom(room_id)
                        &&& told[1] == FollowupView::Broadcast(
                            room_id,
                            MessageView::PlayerDisconnectedNotification { room_id, player_id: id },
                        )
                        &&& decision matches WinnerStatus::Winner(winner) ==> told[2]
                            == FollowupView::Broadcast(
                            room_id,
                            MessageView::WinnerNotification { room_id, winner: Some(winner) },
                        )
                    }
            } else {
                told.len() == 1 && told[0] == FollowupView::NotifyRoom(room_id)
            }
        }),
{
    if game.is_in_match(id) {
        law_death_effect(game, id);
        assert(death_relation(game, id, game.decision(id), game.after_death(id)));
    }
}

} // verus!
