//! What a request of the JSON layer does to the server, and what is sent in consequence.

use vstd::prelude::*;
use vstd::string::*;

use crate::game::{refusal_of, Game, MatchResult};
use crate::ids::{is_random_uuid, uuid_bytes, Uuid};
use crate::laws::{law_cancelling_ends_waiting, law_opponents_are_mutual};
use crate::lists::{player_ids, PlayerView};
use crate::model::{is_room_code, is_room_info, is_room_list, new_room_view, GameView};
use crate::payload::json::{
    JSONCancelRandomMatchRequest, JSONCancelRandomMatchResponse, JSONCreateRoomRequest,
    JSONCreateRoomResponse, JSONGetRoomsRequest, JSONGetRoomsResponse, JSONJoinByCodeRequest,
    JSONJoinByCodeResponse, JSONJoinRandomMatchRequest, JSONJoinRandomMatchResponse,
    JSONJoinRoomRequest, JSONJoinRoomResponse, JSONLeaveRoomRequest, JSONLeaveRoomResponse,
    JSONNotifyGameOverRequest, JSONNotifyGameOverResponse, JSONPauseNotification, JSONPauseRequest,
    JSONPing, JSONPong, JSONPostMatchActionNotification, JSONPostMatchActionRequest,
    JSONResumeNotification, JSONResumeRequest, JSONRoomInfoNotificationRequest, JSONSetReadyRequest,
    JSONSetReadyResponse, JSONStartMatchNotification, JSONStartMatchRequest, JSONStartMatchResponse,
    JSONTimeSyncRequest, JSONTimeSyncResponse, JSONUpdateMatchSettingNotification,
    JSONUpdateMatchSettingRequest, JSONUpdateMatchSettingResponse, JSONUpdatePlayerPingRequest,
    JSONUpdatePlayerRuleRequest, JSONUpdatePlayerRuleResponse, JSONUpdateRoomRequest,
    JSONUpdateRoomResponse, JsonMessage, MessageView, text_view, PROTOCOL_VERSION,
};
use crate::room::{tags_from_codes, tags_of_codes, RoomView};

use super::common::{
    followups_view, no_followups, one_followup, tell_decision, decision_followups, Followup,
    FollowupView,
};

verus! {

/// How long after the request a match starts, in milliseconds.
pub const START_DELAY_MS: u64 = 3000;

/// What is sent in consequence of a request: an answer to the sender, then the rest, in order.
pub struct Outcome {
    pub reply: Option<JsonMessage>,
    pub followups: Vec<Followup>,
}

/// What the consequence of a request stands for.
#[verifier::ext_equal]
pub struct OutcomeView {
    pub reply: Option<MessageView>,
    pub followups: Seq<FollowupView>,
}

impl View for Outcome {
    type V = OutcomeView;

    open spec fn view(&self) -> OutcomeView {
        OutcomeView {
            reply: match self.reply {
                Some(message) => Some(message@),
                None => None,
            },
            followups: followups_view(self.followups@),
        }
    }
}

/// An answer and nothing else.
pub open spec fn answered(reply: MessageView) -> OutcomeView {
    OutcomeView { reply: Some(reply), followups: Seq::empty() }
}

/// An answer, and the state of a room to everybody in it if the request was granted.
pub open spec fn answered_and_notified(
    reply: MessageView,
    refusal: Option<Seq<char>>,
    room_id: Uuid,
) -> OutcomeView {
    OutcomeView {
        reply: Some(reply),
        followups: if refusal is None {
            seq![FollowupView::NotifyRoom(room_id)]
        } else {
            Seq::empty()
        },
    }
}

/// No answer, but a message to everybody in a room.
pub open spec fn broadcast(room_id: Uuid, message: MessageView) -> OutcomeView {
    OutcomeView { reply: None, followups: seq![FollowupView::Broadcast(room_id, message)] }
}

impl<C> GameView<C> {
    /// Why the player cannot join the room from the room list, if they cannot.
    pub open spec fn listed_join_refusal(self, room_id: Uuid, id: Uuid) -> Option<Seq<char>> {
        match self.is_public_room(room_id) {
            None => Some("Room not found"@),
            Some(false) => Some("This room is private. Use room code to join."@),
            Some(true) => self.join_refusal(room_id, id),
        }
    }

    /// The state after the player asked to join the room from the room list.
    pub open spec fn after_listed_join(self, room_id: Uuid, player: PlayerView) -> GameView<C> {
        if self.listed_join_refusal(room_id, player.id) is Some {
            self
        } else {
            self.after_join(room_id, player)
        }
    }

    /// Why the player cannot join by the code, if they cannot.
    pub open spec fn code_join_refusal(self, code: Seq<char>, id: Uuid) -> Option<Seq<char>> {
        match self.room_by_code(code) {
            None => Some("Room not found"@),
            Some(room_id) => self.join_refusal(room_id, id),
        }
    }

    /// The state after the player asked to join by the code.
    pub open spec fn after_code_join(self, code: Seq<char>, player: PlayerView) -> GameView<C> {
        match self.room_by_code(code) {
            None => self,
            Some(room_id) => self.after_join(room_id, player),
        }
    }

    /// Why the player cannot start the match of the room, if they cannot.
    pub open spec fn owner_start_refusal(self, room_id: Uuid, id: Uuid) -> Option<Seq<char>> {
        if self.room_owner(room_id) != Some(id) {
            Some("Only the room owner can start the match"@)
        } else {
            self.start_refusal(room_id)
        }
    }

    /// The state after the player asked to start the match of the room.
    pub open spec fn after_owner_start(self, room_id: Uuid, id: Uuid) -> GameView<C> {
        if self.owner_start_refusal(room_id, id) is Some {
            self
        } else {
            self.after_start(room_id)
        }
    }
}

/// What a request of player `id` at time `now_ms` does: how the state before it relates to the
/// state after it and to what is sent.
pub open spec fn request_effect<C>(
    pre: GameView<C>,
    id: Uuid,
    message: JsonMessage,
    now_ms: u64,
    post: GameView<C>,
    out: OutcomeView,
) -> bool {
    match message {
        JsonMessage::JSONPing(req) => {
            &&& post == pre
            &&& out == answered(MessageView::Pong { id: req.id })
        },
        JsonMessage::JSONGetRoomsRequest(req) => {
            &&& post == pre
            &&& out.reply matches Some(MessageView::GetRoomsResponse { id: to, rooms })
            &&& to == req.id
            &&& is_room_list(pre.rooms, rooms)
            &&& out.followups == Seq::<FollowupView>::empty()
        },
        JsonMessage::JSONCreateRoomRequest(req) => {
            &&& out.reply matches Some(MessageView::CreateRoomResponse { id: to, room_id, code })
            &&& to == req.id
            &&& is_random_uuid(room_id)
            &&& is_room_code(code)
            &&& !pre.room_codes.contains_key(code)
            &&& out.followups == Seq::<FollowupView>::empty()
            &&& post == pre.with_new_room(
                room_id,
                new_room_view(
                    PlayerView { id, name: req.username@, rule: req.rule@ },
                    req.room_name@,
                    req.max_players,
                    req.is_public,
                    tags_of_codes(req.tags@),
                    code,
                ),
            )
        },
        JsonMessage::JSONJoinRoomRequest(req) => {
            let refusal = pre.listed_join_refusal(req.room_id, id);
            &&& post == pre.after_listed_join(
                req.room_id,
                PlayerView { id, name: req.username@, rule: req.rule@ },
            )
            &&& out == answered_and_notified(
                MessageView::JoinRoomResponse {
                    id: req.id,
                    success: refusal is None,
                    message: refusal,
                },
                refusal,
                req.room_id,
            )
        },
        JsonMessage::JSONJoinByCodeRequest(req) => {
            let refusal = pre.code_join_refusal(req.code@, id);
            let room_id = pre.room_codes[req.code@];
            &&& post == pre.after_code_join(
                req.code@,
                PlayerView { id, name: req.username@, rule: req.rule@ },
            )
            &&& out == answered_and_notified(
                MessageView::JoinByCodeResponse {
                    id: req.id,
                    success: refusal is None,
                    message: refusal,
                    room_id: if refusal is None {
                        Some(room_id)
                    } else {
                        None
                    },
                },
                refusal,
                room_id,
            )
        },
        JsonMessage::JSONJoinRandomMatchRequest(req) => {
            let player = PlayerView { id, name: req.username@, rule: req.rule@ };
            if pre.has_waiting_opponent(id) {
                &&& out.reply matches Some(
                    MessageView::JoinRandomMatchResponse { id: to, matched, room_id: Some(room_id) },
                )
                &&& to == req.id
                &&& matched
                &&& is_random_uuid(room_id)
                &&& is_room_code(post.rooms[room_id].code)
                &&& !pre.room_codes.contains_key(post.rooms[room_id].code)
                &&& out.followups == seq![FollowupView::NotifyRoom(room_id)]
                &&& post == pre.after_pairing(player, room_id, post.rooms[room_id].code)
            } else {
                &&& post == pre.after_enqueue(player)
                &&& out == answered(
                    MessageView::JoinRandomMatchResponse {
                        id: req.id,
                        matched: false,
                        room_id: None,
                    },
                )
            }
        },
        JsonMessage::JSONCancelRandomMatchRequest(req) => {
            &&& post == pre.after_cancel(id)
            &&& out == answered(
                MessageView::CancelRandomMatchResponse {
                    id: req.id,
                    success: player_ids(pre.queue).contains(id),
                },
            )
        },
        JsonMessage::JSONLeaveRoomRequest(req) => {
            let refusal = if pre.rooms.contains_key(req.room_id) {
                None
            } else {
                Some("Room not found"@)
            };
            &&& post == (if refusal is None {
                pre.after_leave(id)
            } else {
                pre
            })
            &&& out == answered_and_notified(
                MessageView::LeaveRoomResponse {
                    id: req.id,
                    success: refusal is None,
                    message: refusal,
                },
                refusal,
                req.room_id,
            )
        },
        JsonMessage::JSONUpdateRoomRequest(req) => {
            let refusal = pre.update_refusal(req.room_id, id, req.max_players);
            &&& post == pre.after_update(
                req.room_id,
                id,
                req.room_name@,
                req.max_players,
                req.is_public,
                tags_of_codes(req.tags@),
            )
            &&& out == answered_and_notified(
                MessageView::UpdateRoomResponse {
                    id: req.id,
                    success: refusal is None,
                    message: refusal,
                },
                refusal,
                req.room_id,
            )
        },
        JsonMessage::JSONRoomInfoNotificationRequest(_) => {
            &&& post == pre
            &&& out.followups == Seq::<FollowupView>::empty()
            &&& if pre.in_room(id) {
                &&& out.reply matches Some(MessageView::RoomInfoNotification(info))
                &&& is_room_info(pre.player_rooms[id], pre.own_room(id), info)
            } else {
                out.reply is None
            }
        },
        JsonMessage::JSONStartMatchRequest(req) => {
            let refusal = pre.owner_start_refusal(req.room_id, id);
            &&& post == pre.after_owner_start(req.room_id, id)
            &&& out.reply == Some(
                MessageView::StartMatchResponse {
                    id: req.id,
                    success: refusal is None,
                    message: refusal,
                },
            )
            &&& if refusal is None {
                &&& out.followups.len() == 1
                &&& out.followups[0] matches FollowupView::Broadcast(
                    to,
                    MessageView::StartMatchNotification {
                        room_id,
                        seed,
                        start_time_ms,
                        match_setting,
                        protocol_version,
                    },
                )
                &&& to == req.room_id
                &&& room_id == req.room_id
                &&& is_seed(seed)
                &&& start_time_ms == now_ms + START_DELAY_MS
                &&& match_setting == pre.rooms[req.room_id].match_setting
                &&& protocol_version == PROTOCOL_VERSION
            } else {
                out.followups == Seq::<FollowupView>::empty()
            }
        },
        JsonMessage::JSONUpdateMatchSettingRequest(req) => {
            let refusal = pre.setting_refusal(req.room_id, id);
            &&& post == pre.after_setting(req.room_id, id, req.setting@)
            &&& out == OutcomeView {
                reply: Some(
                    MessageView::UpdateMatchSettingResponse {
                        id: req.id,
                        success: refusal is None,
                        message: refusal,
                    },
                ),
                followups: if refusal is None {
                    seq![
                        FollowupView::Broadcast(
                            req.room_id,
                            MessageView::UpdateMatchSettingNotification {
                                room_id: req.room_id,
                                setting: req.setting@,
                            },
                        ),
                        FollowupView::NotifyRoom(req.room_id),
                    ]
                } else {
                    Seq::empty()
                },
            }
        },
        JsonMessage::JSONUpdatePlayerRuleRequest(req) => {
            let refusal = pre.rule_refusal(id, req.rule@);
            &&& post == pre.after_rule(id, req.rule@)
            &&& out == answered_and_notified(
                MessageView::UpdatePlayerRuleResponse {
                    id: req.id,
                    success: refusal is None,
                    message: refusal,
                },
                refusal,
                req.room_id,
            )
        },
        JsonMessage::JSONSetReadyRequest(req) => {
            let refusal = pre.ready_refusal(id);
            &&& post == pre.after_ready(id, req.ready)
            &&& out == answered_and_notified(
                MessageView::SetReadyResponse {
                    id: req.id,
                    success: refusal is None,
                    message: refusal,
                },
                refusal,
                req.room_id,
            )
        },
        JsonMessage::JSONTimeSyncRequest(req) => {
            &&& post == pre
            &&& out == answered(
                MessageView::TimeSyncResponse { id: req.id, server_time_ms: now_ms },
            )
        },
        JsonMessage::JSONUpdatePlayerPingRequest(req) => {
            &&& post == pre.after_ping(id, req.ping_ms)
            &&& out == OutcomeView {
                reply: None,
                followups: seq![FollowupView::NotifyRoom(req.room_id)],
            }
        },
        JsonMessage::JSONPauseRequest(req) => {
            &&& post == pre
            &&& out == broadcast(
                req.room_id,
                MessageView::PauseNotification { room_id: req.room_id, paused_by: id },
            )
        },
        JsonMessage::JSONResumeRequest(req) => {
            &&& post == pre
            &&& out == broadcast(
                req.room_id,
                MessageView::ResumeNotification { room_id: req.room_id },
            )
        },
        JsonMessage::JSONNotifyGameOverRequest(req) => {
            &&& post == pre.after_death(id)
            &&& out == OutcomeView {
                reply: Some(MessageView::NotifyGameOverResponse { id: req.id, success: true }),
                followups: decision_followups(req.room_id, pre.decision(id)),
            }
        },
        JsonMessage::JSONPostMatchActionRequest(req) => {
            &&& post == pre
            &&& out == broadcast(
                req.room_id,
                MessageView::PostMatchActionNotification {
                    player_id: id,
                    room_id: req.room_id,
                    action: req.action@,
                },
            )
        },
        _ => {
            &&& post == pre
            &&& out == OutcomeView { reply: None, followups: Seq::empty() }
        },
    }
}

/// Whether each start of a match that is announced follows the time of the request by exactly the
/// delay, in whatever place it is announced.
pub open spec fn start_follows_request(now_ms: u64, out: OutcomeView) -> bool {
    forall|i: int|
        0 <= i < out.followups.len() ==> ((#[trigger] out.followups[i]) matches FollowupView::Broadcast(
            _,
            MessageView::StartMatchNotification { start_time_ms, .. },
        ) ==> start_time_ms - now_ms == START_DELAY_MS)
}

/// A start is announced only in consequence of a request to start, and follows it by exactly the delay.
pub proof fn law_start_follows_request<C>(
    pre: GameView<C>,
    id: Uuid,
    message: JsonMessage,
    now_ms: u64,
    post: GameView<C>,
    out: OutcomeView,
)
    requires
        request_effect(pre, id, message, now_ms, post, out),
    ensures
        start_follows_request(now_ms, out),
{
    assert forall|i: int| 0 <= i < out.followups.len() implies ((
    #[trigger] out.followups[i]) matches FollowupView::Broadcast(
        _,
        MessageView::StartMatchNotification { start_time_ms, .. },
    ) ==> start_time_ms - now_ms == START_DELAY_MS) by {
        if message is JSONStartMatchRequest {
            assert(i == 0);
        } else if message is JSONNotifyGameOverRequest {
            assert(decision_followups(
                message->JSONNotifyGameOverRequest_0.room_id,
                pre.decision(id),
            )[i] == out.followups[i]);
        }
    }
}

/// Whether bytes are those of a random identifier.
pub open spec fn is_seed(seed: Seq<u8>) -> bool {
    exists|drawn: Uuid| is_random_uuid(drawn) && seed == #[trigger] uuid_bytes(drawn)
}

/// Whether the answer names a new room under an identifier that was in use before.
pub open spec fn reuses_room_id<C>(pre: GameView<C>, out: OutcomeView) -> bool {
    match out.reply {
        Some(MessageView::CreateRoomResponse { id: _, room_id, code: _ }) => {
            pre.rooms.contains_key(room_id)
        },
        Some(
            MessageView::JoinRandomMatchResponse { id: _, matched: _, room_id: Some(room_id) },
        ) => pre.rooms.contains_key(room_id),
        _ => false,
    }
}

/// An answer and nothing else.
fn answer(reply: JsonMessage) -> (out: Outcome)
    ensures
        out@ == answered(reply@),
{
    Outcome { reply: Some(reply), followups: no_followups() }
}

/// An answer, and the state of a room to everybody in it if the request was granted.
fn answer_and_notify(reply: JsonMessage, success: bool, room_id: Uuid) -> (out: Outcome)
    ensures
        forall|refusal: Option<Seq<char>>|
            success == (refusal is None) ==> out@ == #[trigger] answered_and_notified(
                reply@,
                refusal,
                room_id,
            ),
{
    if success {
        Outcome { reply: Some(reply), followups: one_followup(Followup::NotifyRoom(room_id)) }
    } else {
        Outcome { reply: Some(reply), followups: no_followups() }
    }
}

/// Success and message of an answer.
fn success_and_message(result: Result<(), String>) -> (answer: (bool, Option<String>))
    ensures
        answer.0 == (refusal_of(result) is None),
        text_view(answer.1) == refusal_of(result),
{
    match result {
        Ok(_) => (true, None),
        Err(message) => (false, Some(message)),
    }
}

/// No answer, but a message to everybody in a room.
fn tell_room(room_id: Uuid, message: JsonMessage) -> (out: Outcome)
    ensures
        out@ == broadcast(room_id, message@),
{
    Outcome { reply: None, followups: one_followup(Followup::Broadcast(room_id, message)) }
}

/// What is sent when a match starts at the owner's request: everybody in the room learns the seed, the
/// settings, the time and the version of the protocol between the clients.
pub fn match_started(
    req_id: Uuid,
    room_id: Uuid,
    seed: [u8; 16],
    match_setting: String,
    now_ms: u64,
) -> (out: Outcome)
    requires
        now_ms <= u64::MAX - START_DELAY_MS,
    ensures
        out@ == (OutcomeView {
            reply: Some(
                MessageView::StartMatchResponse { id: req_id, success: true, message: None },
            ),
            followups: seq![
                FollowupView::Broadcast(
                    room_id,
                    MessageView::StartMatchNotification {
                        room_id,
                        seed: seed@,
                        start_time_ms: (now_ms + START_DELAY_MS) as u64,
                        match_setting: match_setting@,
                        protocol_version: PROTOCOL_VERSION,
                    },
                ),
            ],
        }),
{
    let mut shared: Vec<u8> = Vec::new();
    shared.extend_from_slice(seed.as_slice());
    assert(shared@ =~= seed@);
    Outcome {
        reply: Some(
            JsonMessage::JSONStartMatchResponse(
                JSONStartMatchResponse { id: req_id, success: true, message: None },
            ),
        ),
        followups: one_followup(
            Followup::Broadcast(
                room_id,
                JsonMessage::JSONStartMatchNotification(
                    JSONStartMatchNotification {
                        room_id,
                        seed: shared,
                        start_time_ms: now_ms + START_DELAY_MS,
                        match_setting,
                        protocol_version: PROTOCOL_VERSION,
                    },
                ),
            ),
        ),
    }
}

impl<C> Game<C> {
    /// Opens a room for the player.
    fn create_room_requested(&mut self, id: Uuid, req: JSONCreateRoomRequest) -> (out: Outcome)
        requires
            old(self)@.has_free_code(),
        ensures
            forall|now_ms: u64| #[trigger]
                request_effect(
                    old(self)@,
                    id,
                    JsonMessage::JSONCreateRoomRequest(req),
                    now_ms,
                    final(self)@,
                    out@,
                ),
            old(self)@.wf() && !reuses_room_id(old(self)@, out@) ==> final(self)@.wf(),
    {
        let tags = tags_from_codes(&req.tags);
        let (room_id, code) = self.new_room(
            id,
            req.room_name,
            req.max_players,
            req.is_public,
            tags,
            req.username,
            req.rule,
        );
        answer(
            JsonMessage::JSONCreateRoomResponse(
                JSONCreateRoomResponse { id: req.id, room_id, code },
            ),
        )
    }

    /// Lets the player into a room of the room list.
    fn join_room_requested(&mut self, id: Uuid, req: JSONJoinRoomRequest) -> (out: Outcome)
        ensures
            forall|now_ms: u64| #[trigger]
                request_effect(
                    old(self)@,
                    id,
                    JsonMessage::JSONJoinRoomRequest(req),
                    now_ms,
                    final(self)@,
                    out@,
                ),
            old(self)@.wf() ==> final(self)@.wf(),
    {
        let room_id: Uuid = req.room_id;
        let result = match self.is_public_room(&room_id) {
            None => Err("Room not found".to_string()),
            Some(false) => Err("This room is private. Use room code to join.".to_string()),
            Some(true) => self.add_player_to_room(room_id, id, req.username, req.rule),
        };
        assert(refusal_of(result) == old(self)@.listed_join_refusal(room_id, id));
        let (success, message) = success_and_message(result);
        answer_and_notify(
            JsonMessage::JSONJoinRoomResponse(
                JSONJoinRoomResponse { id: req.id, success, message },
            ),
            success,
            room_id,
        )
    }

    /// Lets the player into the room that the code stands for.
    fn join_by_code_requested(&mut self, id: Uuid, req: JSONJoinByCodeRequest) -> (out: Outcome)
        ensures
            forall|now_ms: u64| #[trigger]
                request_effect(
                    old(self)@,
                    id,
                    JsonMessage::JSONJoinByCodeRequest(req),
                    now_ms,
                    final(self)@,
                    out@,
                ),
            old(self)@.wf() ==> final(self)@.wf(),
    {
        let found = self.find_room_by_code(req.code.as_str());
        let result = match found {
            None => Err("Room not found".to_string()),
            Some(room_id) => self.add_player_to_room(room_id, id, req.username, req.rule),
        };
        assert(refusal_of(result) == old(self)@.code_join_refusal(req.code@, id));
        let (success, message) = success_and_message(result);
        match found {
            Some(room_id) if success => answer_and_notify(
                JsonMessage::JSONJoinByCodeResponse(
                    JSONJoinByCodeResponse { id: req.id, success, message, room_id: Some(room_id) },
                ),
                true,
                room_id,
            ),
            _ => answer(
                JsonMessage::JSONJoinByCodeResponse(
                    JSONJoinByCodeResponse { id: req.id, success, message, room_id: None },
                ),
            ),
        }
    }

    /// Finds the player an opponent, or lets them wait for one.
    fn random_match_requested(&mut self, id: Uuid, req: JSONJoinRandomMatchRequest) -> (out: Outcome)
        requires
            old(self)@.has_waiting_opponent(id) ==> old(self)@.has_free_code(),
        ensures
            forall|now_ms: u64| #[trigger]
                request_effect(
                    old(self)@,
                    id,
                    JsonMessage::JSONJoinRandomMatchRequest(req),
                    now_ms,
                    final(self)@,
                    out@,
                ),
            old(self)@.wf() && !reuses_room_id(old(self)@, out@) ==> final(self)@.wf(),
    {
        match self.random_match(id, req.username, req.rule) {
            MatchResult::Matched { room_id, opponent: _ } => Outcome {
                reply: Some(
                    JsonMessage::JSONJoinRandomMatchResponse(
                        JSONJoinRandomMatchResponse {
                            id: req.id,
                            matched: true,
                            room_id: Some(room_id),
                        },
                    ),
                ),
                followups: one_followup(Followup::NotifyRoom(room_id)),
            },
            MatchResult::Waiting => answer(
                JsonMessage::JSONJoinRandomMatchResponse(
                    JSONJoinRandomMatchResponse { id: req.id, matched: false, room_id: None },
                ),
            ),
        }
    }

    /// Lets the player out of their room, if the room named in the request exists.
    fn leave_room_requested(&mut self, id: Uuid, req: JSONLeaveRoomRequest) -> (out: Outcome)
        ensures
            forall|now_ms: u64| #[trigger]
                request_effect(
                    old(self)@,
                    id,
                    JsonMessage::JSONLeaveRoomRequest(req),
                    now_ms,
                    final(self)@,
                    out@,
                ),
            old(self)@.wf() ==> final(self)@.wf(),
    {
        let room_id: Uuid = req.room_id;
        if self.room_owner(&room_id).is_some() {
            self.leave_room(&id);
            answer_and_notify(
                JsonMessage::JSONLeaveRoomResponse(
                    JSONLeaveRoomResponse { id: req.id, success: true, message: None },
                ),
                true,
                room_id,
            )
        } else {
            answer(
                JsonMessage::JSONLeaveRoomResponse(
                    JSONLeaveRoomResponse {
                        id: req.id,
                        success: false,
                        message: Some("Room not found".to_string()),
                    },
                ),
            )
        }
    }

    /// Changes a room for its owner.
    fn update_room_requested(&mut self, id: Uuid, req: JSONUpdateRoomRequest) -> (out: Outcome)
        ensures
            forall|now_ms: u64| #[trigger]
                request_effect(
                    old(self)@,
                    id,
                    JsonMessage::JSONUpdateRoomRequest(req),
                    now_ms,
                    final(self)@,
                    out@,
                ),
            old(self)@.wf() ==> final(self)@.wf(),
    {
        let room_id: Uuid = req.room_id;
        let tags = tags_from_codes(&req.tags);
        let result = self.update_room(
            room_id,
            id,
            req.room_name,
            req.max_players,
            req.is_public,
            tags,
        );
        let (success, message) = success_and_message(result);
        answer_and_notify(
            JsonMessage::JSONUpdateRoomResponse(
                JSONUpdateRoomResponse { id: req.id, success, message },
            ),
            success,
            room_id,
        )
    }

    /// Starts the match of a room for its owner.
    fn start_match_requested(
        &mut self,
        id: Uuid,
        req: JSONStartMatchRequest,
        now_ms: u64,
    ) -> (out: Outcome)
        requires
            now_ms <= u64::MAX - START_DELAY_MS,
        ensures
            request_effect(
                old(self)@,
                id,
                JsonMessage::JSONStartMatchRequest(req),
                now_ms,
                final(self)@,
                out@,
            ),
            old(self)@.wf() ==> final(self)@.wf(),
    {
        let room_id: Uuid = req.room_id;
        let is_owner = match self.room_owner(&room_id) {
            Some(owner) => owner == id,
            None => false,
        };
        if !is_owner {
            return answer(
                JsonMessage::JSONStartMatchResponse(
                    JSONStartMatchResponse {
                        id: req.id,
                        success: false,
                        message: Some("Only the room owner can start the match".to_string()),
                    },
                ),
            );
        }
        match self.start_match(room_id) {
            Err(message) => answer(
                JsonMessage::JSONStartMatchResponse(
                    JSONStartMatchResponse { id: req.id, success: false, message: Some(message) },
                ),
            ),
            Ok((seed, match_setting)) => match_started(
                req.id,
                room_id,
                seed,
                match_setting,
                now_ms,
            ),
        }
    }

    /// Changes the match settings of a room for its owner.
    fn update_match_setting_requested(&mut self, id: Uuid, req: JSONUpdateMatchSettingRequest) -> (out: Outcome)
        ensures
            forall|now_ms: u64| #[trigger]
                request_effect(
                    old(self)@,
                    id,
                    JsonMessage::JSONUpdateMatchSettingRequest(req),
                    now_ms,
                    final(self)@,
                    out@,
                ),
            old(self)@.wf() ==> final(self)@.wf(),
    {
        let room_id: Uuid = req.room_id;
        let result = self.update_match_setting(room_id, id, req.setting.clone());
        let (success, message) = success_and_message(result);
        let reply = JsonMessage::JSONUpdateMatchSettingResponse(
            JSONUpdateMatchSettingResponse { id: req.id, success, message },
        );
        if !success {
            return answer(reply);
        }
        let mut followups = one_followup(
            Followup::Broadcast(
                room_id,
                JsonMessage::JSONUpdateMatchSettingNotification(
                    JSONUpdateMatchSettingNotification { room_id, setting: req.setting },
                ),
            ),
        );
        let ghost before = followups@;
        followups.push(Followup::NotifyRoom(room_id));
        assert(followups_view(followups@) =~= followups_view(before).push(
            FollowupView::NotifyRoom(room_id),
        ));
        assert(followups_view(followups@) =~= seq![
            FollowupView::Broadcast(
                room_id,
                MessageView::UpdateMatchSettingNotification { room_id, setting: req.setting@ },
            ),
            FollowupView::NotifyRoom(room_id),
        ]);
        Outcome { reply: Some(reply), followups }
    }

    /// Changes the player's own rule.
    fn update_player_rule_requested(&mut self, id: Uuid, req: JSONUpdatePlayerRuleRequest) -> (out: Outcome)
        ensures
            forall|now_ms: u64| #[trigger]
                request_effect(
                    old(self)@,
                    id,
                    JsonMessage::JSONUpdatePlayerRuleRequest(req),
                    now_ms,
                    final(self)@,
                    out@,
                ),
            old(self)@.wf() ==> final(self)@.wf(),
    {
        let result = self.update_player_rule(&id, req.rule);
        let (success, message) = success_and_message(result);
        answer_and_notify(
            JsonMessage::JSONUpdatePlayerRuleResponse(
                JSONUpdatePlayerRuleResponse { id: req.id, success, message },
            ),
            success,
            req.room_id,
        )
    }

    /// Declares the player ready, or not.
    fn set_ready_requested(&mut self, id: Uuid, req: JSONSetReadyRequest) -> (out: Outcome)
        ensures
            forall|now_ms: u64| #[trigger]
                request_effect(
                    old(self)@,
                    id,
                    JsonMessage::JSONSetReadyRequest(req),
                    now_ms,
                    final(self)@,
                    out@,
                ),
            old(self)@.wf() ==> final(self)@.wf(),
    {
        let result = self.set_ready(&id, req.ready);
        let (success, message) = success_and_message(result);
        answer_and_notify(
            JsonMessage::JSONSetReadyResponse(
                JSONSetReadyResponse { id: req.id, success, message },
            ),
            success,
            req.room_id,
        )
    }

    /// Records the player's death.
    fn game_over_notified(&mut self, id: Uuid, req: JSONNotifyGameOverRequest) -> (out: Outcome)
        ensures
            forall|now_ms: u64| #[trigger]
                request_effect(
                    old(self)@,
                    id,
                    JsonMessage::JSONNotifyGameOverRequest(req),
                    now_ms,
                    final(self)@,
                    out@,
                ),
            old(self)@.wf() ==> final(self)@.wf(),
    {
        let decision = self.record_game_over(&id);
        Outcome {
            reply: Some(
                JsonMessage::JSONNotifyGameOverResponse(
                    JSONNotifyGameOverResponse { id: req.id, success: true },
                ),
            ),
            followups: tell_decision(req.room_id, decision),
        }
    }

    /// Handles a request of player `id` that arrived at time `now_ms`, in milliseconds since the Unix
    /// epoch. Messages that only the server sends are not answered.
    pub fn handle_request(&mut self, id: Uuid, message: JsonMessage, now_ms: u64) -> (out: Outcome)
        requires
            message is JSONCreateRoomRequest ==> old(self)@.has_free_code(),
            message is JSONJoinRandomMatchRequest && old(self)@.has_waiting_opponent(id) ==> old(
                self,
            )@.has_free_code(),
            message is JSONStartMatchRequest ==> now_ms <= u64::MAX - START_DELAY_MS,
        ensures
            request_effect(old(self)@, id, message, now_ms, final(self)@, out@),
            start_follows_request(now_ms, out@),
            old(self)@.wf() && !reuses_room_id(old(self)@, out@) ==> final(self)@.wf(),
    {
        let ghost request = message;
        let out = match message {
            JsonMessage::JSONPing(req) => answer(JsonMessage::JSONPong(JSONPong { id: req.id })),
            JsonMessage::JSONGetRoomsRequest(req) => answer(
                JsonMessage::JSONGetRoomsResponse(
                    JSONGetRoomsResponse { id: req.id, rooms: self.list_rooms() },
                ),
            ),
            JsonMessage::JSONCreateRoomRequest(req) => self.create_room_requested(id, req),
            JsonMessage::JSONJoinRoomRequest(req) => self.join_room_requested(id, req),
            JsonMessage::JSONJoinByCodeRequest(req) => self.join_by_code_requested(id, req),
            JsonMessage::JSONJoinRandomMatchRequest(req) => self.random_match_requested(id, req),
            JsonMessage::JSONCancelRandomMatchRequest(req) => {
                let success = self.cancel_random_match(&id);
                answer(
                    JsonMessage::JSONCancelRandomMatchResponse(
                        JSONCancelRandomMatchResponse { id: req.id, success },
                    ),
                )
            },
            JsonMessage::JSONLeaveRoomRequest(req) => self.leave_room_requested(id, req),
            JsonMessage::JSONUpdateRoomRequest(req) => self.update_room_requested(id, req),
            JsonMessage::JSONRoomInfoNotificationRequest(_) => {
                let info = match self.room_of(&id) {
                    Some(room_id) => self.room_info(&room_id),
                    None => None,
                };
                match info {
                    Some(info) => answer(JsonMessage::JSONRoomInfoNotification(info)),
                    None => Outcome { reply: None, followups: no_followups() },
                }
            },
            JsonMessage::JSONStartMatchRequest(req) => self.start_match_requested(id, req, now_ms),
            JsonMessage::JSONUpdateMatchSettingRequest(req) => {
                self.update_match_setting_requested(id, req)
            },
            JsonMessage::JSONUpdatePlayerRuleRequest(req) => {
                self.update_player_rule_requested(id, req)
            },
            JsonMessage::JSONSetReadyRequest(req) => self.set_ready_requested(id, req),
            JsonMessage::JSONTimeSyncRequest(req) => answer(
                JsonMessage::JSONTimeSyncResponse(
                    JSONTimeSyncResponse { id: req.id, server_time_ms: now_ms },
                ),
            ),
            JsonMessage::JSONUpdatePlayerPingRequest(req) => {
                self.set_ping(&id, req.ping_ms);
                Outcome {
                    reply: None,
                    followups: one_followup(Followup::NotifyRoom(req.room_id)),
                }
            },
            JsonMessage::JSONPauseRequest(req) => tell_room(
                req.room_id,
                JsonMessage::JSONPauseNotification(
                    JSONPauseNotification { room_id: req.room_id, paused_by: id },
                ),
            ),
            JsonMessage::JSONResumeRequest(req) => tell_room(
                req.room_id,
                JsonMessage::JSONResumeNotification(
                    JSONResumeNotification { room_id: req.room_id },
                ),
            ),
            JsonMessage::JSONNotifyGameOverRequest(req) => self.game_over_notified(id, req),
            JsonMessage::JSONPostMatchActionRequest(req) => tell_room(
                req.room_id,
                JsonMessage::JSONPostMatchActionNotification(
                    JSONPostMatchActionNotification {
                        player_id: id,
                        room_id: req.room_id,
                        action: req.action,
                    },
                ),
            ),
            _ => Outcome { reply: None, followups: no_followups() },
        };
        proof {
            law_start_follows_request(old(self)@, id, request, now_ms, self@, out@);
        }
        out
    }
}

/// Whether the answer says that the request was not granted.
pub open spec fn is_refused(out: OutcomeView) -> bool {
    match out.reply {
        Some(MessageView::JoinRoomResponse { success, .. }) => !success,
        Some(MessageView::JoinByCodeResponse { success, .. }) => !success,
        Some(MessageView::CancelRandomMatchResponse { success, .. }) => !success,
        Some(MessageView::LeaveRoomResponse { success, .. }) => !success,
        Some(MessageView::UpdateRoomResponse { success, .. }) => !success,
        Some(MessageView::StartMatchResponse { success, .. }) => !success,
        Some(MessageView::UpdateMatchSettingResponse { success, .. }) => !success,
        Some(MessageView::UpdatePlayerRuleResponse { success, .. }) => !success,
        Some(MessageView::SetReadyResponse { success, .. }) => !success,
        _ => false,
    }
}

/// Whether an owner asks for fewer places than there are players.
pub open spec fn is_shrinking<C>(pre: GameView<C>, id: Uuid, message: JsonMessage) -> bool {
    message matches JsonMessage::JSONUpdateRoomRequest(req) && pre.room_owner(req.room_id) == Some(
        id,
    ) && req.max_players < pre.rooms[req.room_id].player_count()
}

/// A request that is refused changes nothing, and nobody else hears of it; but an owner who asks for
/// fewer places than there are players still renames the room.
pub proof fn law_refused_request_changes_nothing<C>(
    pre: GameView<C>,
    id: Uuid,
    message: JsonMessage,
    now_ms: u64,
    post: GameView<C>,
    out: OutcomeView,
)
    requires
        request_effect(pre, id, message, now_ms, post, out),
        is_refused(out),
    ensures
        out.followups.len() == 0,
        is_shrinking(pre, id, message) || post == pre,
        is_shrinking(pre, id, message) ==> {
            let req = message->JSONUpdateRoomRequest_0;
            post == pre.with_room(
                req.room_id,
                (RoomView { room_name: req.room_name@, ..pre.rooms[req.room_id] }),
            )
        },
{
    law_cancelling_ends_waiting(pre, id);
}

/// Only the owner changes a room or its match settings, or starts its match: the request of anybody
/// else is refused and changes nothing.
pub proof fn law_only_the_owner_rules<C>(
    pre: GameView<C>,
    id: Uuid,
    message: JsonMessage,
    now_ms: u64,
    post: GameView<C>,
    out: OutcomeView,
)
    requires
        request_effect(pre, id, message, now_ms, post, out),
        match message {
            JsonMessage::JSONUpdateRoomRequest(req) => pre.room_owner(req.room_id) != Some(id),
            JsonMessage::JSONUpdateMatchSettingRequest(req) => pre.room_owner(req.room_id)
                != Some(id),
            JsonMessage::JSONStartMatchRequest(req) => pre.room_owner(req.room_id) != Some(id),
            _ => false,
        },
    ensures
        is_refused(out),
        post == pre,
        out.followups.len() == 0,
{
}

/// A room that was made on request can be joined at once by its code: the guest is routed to it and
/// meets the owner.
pub proof fn law_created_room_is_joined_by_code<C>(
    pre: GameView<C>,
    owner: Uuid,
    create: JSONCreateRoomRequest,
    now_ms: u64,
    mid: GameView<C>,
    created: OutcomeView,
    guest: Uuid,
    join: JSONJoinByCodeRequest,
    post: GameView<C>,
    joined: OutcomeView,
)
    requires
        request_effect(
            pre,
            owner,
            JsonMessage::JSONCreateRoomRequest(create),
            now_ms,
            mid,
            created,
        ),
        request_effect(
            mid,
            guest,
            JsonMessage::JSONJoinByCodeRequest(join),
            now_ms,
            post,
            joined,
        ),
        guest != owner,
        create.max_players >= 2,
        created.reply matches Some(MessageView::CreateRoomResponse { code, .. }) && code
            == join.code@,
    ensures
        !is_refused(joined),
        created.reply matches Some(MessageView::CreateRoomResponse { room_id, .. }) && {
            &&& joined.reply matches Some(MessageView::JoinByCodeResponse { room_id: found, .. })
            &&& found == Some(room_id)
            &&& joined.followups == seq![FollowupView::NotifyRoom(room_id)]
            &&& post.room_of(guest) == Some(room_id)
            &&& post.opponent(guest) == Some(owner)
            &&& post.opponent(owner) == Some(guest)
        },
{
    let room_id = created.reply->0->CreateRoomResponse_room_id;
    let room = mid.rooms[room_id];
    let host = PlayerView { id: owner, name: create.username@, rule: create.rule@ };
    let visitor = PlayerView { id: guest, name: join.username@, rule: join.rule@ };
    assert(player_ids(room.players) =~= seq![owner]);
    assert(!room.has_player(guest));
    assert(post.rooms[room_id].players =~= seq![host, visitor]);
    law_opponents_are_mutual(post, room_id, host, visitor);
}

} // verus!
