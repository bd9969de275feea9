//! Messages of the JSON layer: requests of the clients, responses and notifications of the server.

use vstd::prelude::*;
use vstd::std_specs::convert::FromSpecImpl;
use vstd::utf8::encode_utf8;

use crate::codec::{encoded_text, MAX_FIELD_LEN};
use crate::ids::Uuid;
use crate::lists::{players_view, PlayerView};

use super::schema::{frame, wrap_with_opcode, JSONResponsePayload, Opcode};

verus! {

/// The version of the protocol that the clients of a match speak with each other.
pub const PROTOCOL_VERSION: u32 = 1;

/// The error with which `serde_json` refuses to write or read a message.
#[verifier::external_type_specification]
#[verifier::external_body]
pub struct ExJsonError(serde_json::Error);

/// Why a message could not be turned into a response body.
#[derive(Debug)]
pub enum JsonPayloadError {
    /// The message could not be written as JSON.
    Json(serde_json::Error),
    /// The JSON text could not be written as a payload.
    Binary(wincode::WriteError),
}

impl From<serde_json::Error> for JsonPayloadError {
    fn from(value: serde_json::Error) -> (error: Self) {
        JsonPayloadError::Json(value)
    }
}

impl FromSpecImpl<serde_json::Error> for JsonPayloadError {
    open spec fn obeys_from_spec() -> bool {
        true
    }

    open spec fn from_spec(value: serde_json::Error) -> Self {
        JsonPayloadError::Json(value)
    }
}

impl From<wincode::WriteError> for JsonPayloadError {
    fn from(value: wincode::WriteError) -> (error: Self) {
        JsonPayloadError::Binary(value)
    }
}

impl FromSpecImpl<wincode::WriteError> for JsonPayloadError {
    open spec fn obeys_from_spec() -> bool {
        true
    }

    open spec fn from_spec(value: wincode::WriteError) -> Self {
        JsonPayloadError::Binary(value)
    }
}

/// A room as the room list shows it.
#[derive(Debug)]
pub struct ListRoomInfo {
    pub id: Uuid,
    pub room_name: String,
    pub players: u8,
    pub max_players: u8,
    pub locked: bool,
    pub tags: Vec<u32>,
}

/// What an entry of the room list stands for.
#[verifier::ext_equal]
pub struct ListRoomView {
    pub id: Uuid,
    pub room_name: Seq<char>,
    pub players: u8,
    pub max_players: u8,
    pub locked: bool,
    pub tags: Seq<u32>,
}

impl View for ListRoomInfo {
    type V = ListRoomView;

    open spec fn view(&self) -> ListRoomView {
        ListRoomView {
            id: self.id,
            room_name: self.room_name@,
            players: self.players,
            max_players: self.max_players,
            locked: self.locked,
            tags: self.tags@,
        }
    }
}

/// What a room list stands for.
pub open spec fn list_view(rooms: Seq<ListRoomInfo>) -> Seq<ListRoomView> {
    rooms.map_values(|room: ListRoomInfo| room@)
}

/// A probe over the JSON layer.
#[derive(Debug)]
pub struct JSONPing {
    pub id: Uuid,
}

/// Answers `JSONPing`.
#[derive(Debug)]
pub struct JSONPong {
    pub id: Uuid,
}

/// Asks for the listed rooms.
#[derive(Debug)]
pub struct JSONGetRoomsRequest {
    pub id: Uuid,
}

/// The listed rooms.
#[derive(Debug)]
pub struct JSONGetRoomsResponse {
    pub id: Uuid,
    pub rooms: Vec<ListRoomInfo>,
}

/// Asks for a new room.
#[derive(Debug)]
pub struct JSONCreateRoomRequest {
    pub id: Uuid,
    pub room_name: String,
    pub max_players: u8,
    pub is_public: bool,
    pub tags: Vec<u32>,
    pub username: String,
    pub rule: String,
}

/// The room that was made, and its code.
#[derive(Debug)]
pub struct JSONCreateRoomResponse {
    pub id: Uuid,
    pub room_id: Uuid,
    pub code: String,
}

/// Asks to join a listed room.
#[derive(Debug)]
pub struct JSONJoinRoomRequest {
    pub id: Uuid,
    pub room_id: Uuid,
    pub username: String,
    pub rule: String,
}

/// Whether the room was joined.
#[derive(Debug)]
pub struct JSONJoinRoomResponse {
    pub id: Uuid,
    pub success: bool,
    pub message: Option<String>,
}

/// Asks to join a room by its code.
#[derive(Debug)]
pub struct JSONJoinByCodeRequest {
    pub id: Uuid,
    pub code: String,
    pub username: String,
    pub rule: String,
}

/// Whether the room was joined, and which one it is.
#[derive(Debug)]
pub struct JSONJoinByCodeResponse {
    pub id: Uuid,
    pub success: bool,
    pub message: Option<String>,
    pub room_id: Option<Uuid>,
}

/// Asks for an opponent.
#[derive(Debug)]
pub struct JSONJoinRandomMatchRequest {
    pub id: Uuid,
    pub username: String,
    pub rule: String,
}

/// Whether an opponent was found, and in which room.
#[derive(Debug)]
pub struct JSONJoinRandomMatchResponse {
    pub id: Uuid,
    pub matched: bool,
    pub room_id: Option<Uuid>,
}

/// Stops waiting for an opponent.
#[derive(Debug)]
pub struct JSONCancelRandomMatchRequest {
    pub id: Uuid,
}

/// Whether the player had been waiting.
#[derive(Debug)]
pub struct JSONCancelRandomMatchResponse {
    pub id: Uuid,
    pub success: bool,
}

/// Leaves the room.
#[derive(Debug)]
pub struct JSONLeaveRoomRequest {
    pub id: Uuid,
    pub room_id: Uuid,
}

/// Whether the room was left.
#[derive(Debug)]
pub struct JSONLeaveRoomResponse {
    pub id: Uuid,
    pub success: bool,
    pub message: Option<String>,
}

/// Changes the room; for its owner.
#[derive(Debug)]
pub struct JSONUpdateRoomRequest {
    pub id: Uuid,
    pub room_id: Uuid,
    pub room_name: String,
    pub max_players: u8,
    pub is_public: bool,
    pub tags: Vec<u32>,
}

/// Whether the room was changed.
#[derive(Debug)]
pub struct JSONUpdateRoomResponse {
    pub id: Uuid,
    pub success: bool,
    pub message: Option<String>,
}

/// Asks for the state of the player's own room.
#[derive(Debug)]
pub struct JSONRoomInfoNotificationRequest {
}

/// The state of a room.
#[derive(Debug)]
pub struct JSONRoomInfoNotification {
    pub room_id: Uuid,
    pub owner_id: Uuid,
    pub room_name: String,
    pub players: Vec<(Uuid, String, String)>,
    pub max_players: u8,
    pub tags: Vec<u32>,
    pub match_setting: String,
    pub ready_players: Vec<Uuid>,
    pub pings: Vec<(Uuid, u32)>,
    pub code: String,
    pub is_public: bool,
}

/// Tells a player that they are out of the room.
#[derive(Debug)]
pub struct JSONRoomLeaveNotification {
    pub message: String,
}

/// Starts the match; for the owner of the room.
#[derive(Debug)]
pub struct JSONStartMatchRequest {
    pub id: Uuid,
    pub room_id: Uuid,
}

/// Whether the match was started.
#[derive(Debug)]
pub struct JSONStartMatchResponse {
    pub id: Uuid,
    pub success: bool,
    pub message: Option<String>,
}

/// The match starts: the shared seed, the time, the settings, and the version of the protocol
/// between the clients.
#[derive(Debug)]
pub struct JSONStartMatchNotification {
    pub room_id: Uuid,
    pub seed: Vec<u8>,
    pub start_time_ms: u64,
    pub match_setting: String,
    pub protocol_version: u32,
}

/// Changes the match settings; for the owner of the room.
#[derive(Debug)]
pub struct JSONUpdateMatchSettingRequest {
    pub id: Uuid,
    pub room_id: Uuid,
    pub setting: String,
}

/// Whether the settings were changed.
#[derive(Debug)]
pub struct JSONUpdateMatchSettingResponse {
    pub id: Uuid,
    pub success: bool,
    pub message: Option<String>,
}

/// The settings are these now.
#[derive(Debug)]
pub struct JSONUpdateMatchSettingNotification {
    pub room_id: Uuid,
    pub setting: String,
}

/// Changes the player's own rule.
#[derive(Debug)]
pub struct JSONUpdatePlayerRuleRequest {
    pub id: Uuid,
    pub room_id: Uuid,
    pub rule: String,
}

/// Whether the rule was changed.
#[derive(Debug)]
pub struct JSONUpdatePlayerRuleResponse {
    pub id: Uuid,
    pub success: bool,
    pub message: Option<String>,
}

/// Declares the player ready, or not.
#[derive(Debug)]
pub struct JSONSetReadyRequest {
    pub id: Uuid,
    pub room_id: Uuid,
    pub ready: bool,
}

/// Whether the declaration counted.
#[derive(Debug)]
pub struct JSONSetReadyResponse {
    pub id: Uuid,
    pub success: bool,
    pub message: Option<String>,
}

/// Asks for the time of the server.
#[derive(Debug)]
pub struct JSONTimeSyncRequest {
    pub id: Uuid,
}

/// The time of the server, in milliseconds since the Unix epoch.
#[derive(Debug)]
pub struct JSONTimeSyncResponse {
    pub id: Uuid,
    pub server_time_ms: u64,
}

/// Reports the player's round-trip time. Not answered.
#[derive(Debug)]
pub struct JSONUpdatePlayerPingRequest {
    pub room_id: Uuid,
    pub ping_ms: u32,
}

/// Pauses the match. Not answered.
#[derive(Debug)]
pub struct JSONPauseRequest {
    pub room_id: Uuid,
}

/// The match is paused.
#[derive(Debug)]
pub struct JSONPauseNotification {
    pub room_id: Uuid,
    pub paused_by: Uuid,
}

/// Resumes the match. Not answered.
#[derive(Debug)]
pub struct JSONResumeRequest {
    pub room_id: Uuid,
}

/// The match goes on.
#[derive(Debug)]
pub struct JSONResumeNotification {
    pub room_id: Uuid,
}

/// Reports the player's own death.
#[derive(Debug)]
pub struct JSONNotifyGameOverRequest {
    pub id: Uuid,
    pub room_id: Uuid,
}

/// The death was recorded.
#[derive(Debug)]
pub struct JSONNotifyGameOverResponse {
    pub id: Uuid,
    pub success: bool,
}

/// The match is decided.
#[derive(Debug)]
pub struct JSONWinnerNotification {
    pub room_id: Uuid,
    pub winner: Option<Uuid>,
}

/// What the player wants to do after the match. Not answered.
#[derive(Debug)]
pub struct JSONPostMatchActionRequest {
    pub room_id: Uuid,
    pub action: String,
}

/// What a player wants to do after the match.
#[derive(Debug)]
pub struct JSONPostMatchActionNotification {
    pub player_id: Uuid,
    pub room_id: Uuid,
    pub action: String,
}

/// A player was lost during the match.
#[derive(Debug)]
pub struct JSONPlayerDisconnectedNotification {
    pub room_id: Uuid,
    pub player_id: Uuid,
}

/// A message of the JSON layer.
#[derive(Debug)]
pub enum JsonMessage {
    JSONPing(JSONPing),
    JSONPong(JSONPong),
    JSONGetRoomsRequest(JSONGetRoomsRequest),
    JSONGetRoomsResponse(JSONGetRoomsResponse),
    JSONCreateRoomRequest(JSONCreateRoomRequest),
    JSONCreateRoomResponse(JSONCreateRoomResponse),
    JSONJoinRoomRequest(JSONJoinRoomRequest),
    JSONJoinRoomResponse(JSONJoinRoomResponse),
    JSONJoinByCodeRequest(JSONJoinByCodeRequest),
    JSONJoinByCodeResponse(JSONJoinByCodeResponse),
    JSONJoinRandomMatchRequest(JSONJoinRandomMatchRequest),
    JSONJoinRandomMatchResponse(JSONJoinRandomMatchResponse),
    JSONCancelRandomMatchRequest(JSONCancelRandomMatchRequest),
    JSONCancelRandomMatchResponse(JSONCancelRandomMatchResponse),
    JSONLeaveRoomRequest(JSONLeaveRoomRequest),
    JSONLeaveRoomResponse(JSONLeaveRoomResponse),
    JSONUpdateRoomRequest(JSONUpdateRoomRequest),
    JSONUpdateRoomResponse(JSONUpdateRoomResponse),
    JSONRoomInfoNotificationRequest(JSONRoomInfoNotificationRequest),
    JSONRoomInfoNotification(JSONRoomInfoNotification),
    JSONRoomLeaveNotification(JSONRoomLeaveNotification),
    JSONStartMatchRequest(JSONStartMatchRequest),
    JSONStartMatchResponse(JSONStartMatchResponse),
    JSONStartMatchNotification(JSONStartMatchNotification),
    JSONUpdateMatchSettingRequest(JSONUpdateMatchSettingRequest),
    JSONUpdateMatchSettingResponse(JSONUpdateMatchSettingResponse),
    JSONUpdateMatchSettingNotification(JSONUpdateMatchSettingNotification),
    JSONUpdatePlayerRuleRequest(JSONUpdatePlayerRuleRequest),
    JSONUpdatePlayerRuleResponse(JSONUpdatePlayerRuleResponse),
    JSONSetReadyRequest(JSONSetReadyRequest),
    JSONSetReadyResponse(JSONSetReadyResponse),
    JSONTimeSyncRequest(JSONTimeSyncRequest),
    JSONTimeSyncResponse(JSONTimeSyncResponse),
    JSONUpdatePlayerPingRequest(JSONUpdatePlayerPingRequest),
    JSONPauseRequest(JSONPauseRequest),
    JSONPauseNotification(JSONPauseNotification),
    JSONResumeRequest(JSONResumeRequest),
    JSONResumeNotification(JSONResumeNotification),
    JSONNotifyGameOverRequest(JSONNotifyGameOverRequest),
    JSONNotifyGameOverResponse(JSONNotifyGameOverResponse),
    JSONWinnerNotification(JSONWinnerNotification),
    JSONPostMatchActionRequest(JSONPostMatchActionRequest),
    JSONPostMatchActionNotification(JSONPostMatchActionNotification),
    JSONPlayerDisconnectedNotification(JSONPlayerDisconnectedNotification),
}

/// What an optional text stands for.
pub open spec fn text_view(text: Option<String>) -> Option<Seq<char>> {
    match text {
        Some(text) => Some(text@),
        None => None,
    }
}

/// What the state of a room stands for.
#[verifier::ext_equal]
pub struct RoomInfoView {
    pub room_id: Uuid,
    pub owner_id: Uuid,
    pub room_name: Seq<char>,
    pub players: Seq<PlayerView>,
    pub max_players: u8,
    pub tags: Seq<u32>,
    pub match_setting: Seq<char>,
    pub ready_players: Seq<Uuid>,
    pub pings: Seq<(Uuid, u32)>,
    pub code: Seq<char>,
    pub is_public: bool,
}

impl View for JSONRoomInfoNotification {
    type V = RoomInfoView;

    open spec fn view(&self) -> RoomInfoView {
        RoomInfoView {
            room_id: self.room_id,
            owner_id: self.owner_id,
            room_name: self.room_name@,
            players: players_view(self.players@),
            max_players: self.max_players,
            tags: self.tags@,
            match_setting: self.match_setting@,
            ready_players: self.ready_players@,
            pings: self.pings@,
            code: self.code@,
            is_public: self.is_public,
        }
    }
}

/// What a message of the server stands for. The messages of clients are not told apart.
#[verifier::ext_equal]
#[allow(inconsistent_fields)]
pub enum MessageView {
    /// A message that only clients send.
    Request,
    Pong { id: Uuid },
    GetRoomsResponse { id: Uuid, rooms: Seq<ListRoomView> },
    CreateRoomResponse { id: Uuid, room_id: Uuid, code: Seq<char> },
    JoinRoomResponse { id: Uuid, success: bool, message: Option<Seq<char>> },
    JoinByCodeResponse { id: Uuid, success: bool, message: Option<Seq<char>>, room_id: Option<Uuid> },
    JoinRandomMatchResponse { id: Uuid, matched: bool, room_id: Option<Uuid> },
    CancelRandomMatchResponse { id: Uuid, success: bool },
    LeaveRoomResponse { id: Uuid, success: bool, message: Option<Seq<char>> },
    UpdateRoomResponse { id: Uuid, success: bool, message: Option<Seq<char>> },
    RoomInfoNotification(RoomInfoView),
    RoomLeaveNotification { message: Seq<char> },
    StartMatchResponse { id: Uuid, success: bool, message: Option<Seq<char>> },
    StartMatchNotification { room_id: Uuid, seed: Seq<u8>, start_time_ms: u64, match_setting: Seq<char>, protocol_version: u32 },
    UpdateMatchSettingResponse { id: Uuid, success: bool, message: Option<Seq<char>> },
    UpdateMatchSettingNotification { room_id: Uuid, setting: Seq<char> },
    UpdatePlayerRuleResponse { id: Uuid, success: bool, message: Option<Seq<char>> },
    SetReadyResponse { id: Uuid, success: bool, message: Option<Seq<char>> },
    TimeSyncResponse { id: Uuid, server_time_ms: u64 },
    PauseNotification { room_id: Uuid, paused_by: Uuid },
    ResumeNotification { room_id: Uuid },
    NotifyGameOverResponse { id: Uuid, success: bool },
    WinnerNotification { room_id: Uuid, winner: Option<Uuid> },
    PostMatchActionNotification { player_id: Uuid, room_id: Uuid, action: Seq<char> },
    PlayerDisconnectedNotification { room_id: Uuid, player_id: Uuid },
}

impl View for JsonMessage {
    type V = MessageView;

    open spec fn view(&self) -> MessageView {
        match self {
            JsonMessage::JSONPong(m) => MessageView::Pong {
                id: m.id,
            },
            JsonMessage::JSONGetRoomsResponse(m) => MessageView::GetRoomsResponse {
                id: m.id,
                rooms: list_view(m.rooms@),
            },
            JsonMessage::JSONCreateRoomResponse(m) => MessageView::CreateRoomResponse {
                id: m.id,
                room_id: m.room_id,
                code: m.code@,
            },
            JsonMessage::JSONJoinRoomResponse(m) => MessageView::JoinRoomResponse {
                id: m.id,
                success: m.success,
                message: text_view(m.message),
            },
            JsonMessage::JSONJoinByCodeResponse(m) => MessageView::JoinByCodeResponse {
                id: m.id,
                success: m.success,
                message: text_view(m.message),
                room_id: m.room_id,
            },
            JsonMessage::JSONJoinRandomMatchResponse(m) => MessageView::JoinRandomMatchResponse {
                id: m.id,
                matched: m.matched,
                room_id: m.room_id,
            },
            JsonMessage::JSONCancelRandomMatchResponse(m) => MessageView::CancelRandomMatchResponse {
                id: m.id,
                success: m.success,
            },
            JsonMessage::JSONLeaveRoomResponse(m) => MessageView::LeaveRoomResponse {
                id: m.id,
                success: m.success,
                message: text_view(m.message),
            },
            JsonMessage::JSONUpdateRoomResponse(m) => MessageView::UpdateRoomResponse {
                id: m.id,
                success: m.success,
                message: text_view(m.message),
            },
            JsonMessage::JSONRoomInfoNotification(m) => MessageView::RoomInfoNotification(m@),
            JsonMessage::JSONRoomLeaveNotification(m) => MessageView::RoomLeaveNotification {
                message: m.message@,
            },
            JsonMessage::JSONStartMatchResponse(m) => MessageView::StartMatchResponse {
                id: m.id,
                success: m.success,
                message: text_view(m.message),
            },
            JsonMessage::JSONStartMatchNotification(m) => MessageView::StartMatchNotification {
                room_id: m.room_id,
                seed: m.seed@,
                start_time_ms: m.start_time_ms,
                match_setting: m.match_setting@,
                protocol_version: m.protocol_version,
            },
            JsonMessage::JSONUpdateMatchSettingResponse(m) => MessageView::UpdateMatchSettingResponse {
                id: m.id,
                success: m.success,
                message: text_view(m.message),
            },
            JsonMessage::JSONUpdateMatchSettingNotification(m) => MessageView::UpdateMatchSettingNotification {
                room_id: m.room_id,
                setting: m.setting@,
            },
            JsonMessage::JSONUpdatePlayerRuleResponse(m) => MessageView::UpdatePlayerRuleResponse {
                id: m.id,
                success: m.success,
                message: text_view(m.message),
            },
            JsonMessage::JSONSetReadyResponse(m) => MessageView::SetReadyResponse {
                id: m.id,
                success: m.success,
                message: text_view(m.message),
            },
            JsonMessage::JSONTimeSyncResponse(m) => MessageView::TimeSyncResponse {
                id: m.id,
                server_time_ms: m.server_time_ms,
            },
            JsonMessage::JSONPauseNotification(m) => MessageView::PauseNotification {
                room_id: m.room_id,
                paused_by: m.paused_by,
            },
            JsonMessage::JSONResumeNotification(m) => MessageView::ResumeNotification {
                room_id: m.room_id,
            },
            JsonMessage::JSONNotifyGameOverResponse(m) => MessageView::NotifyGameOverResponse {
                id: m.id,
                success: m.success,
            },
            JsonMessage::JSONWinnerNotification(m) => MessageView::WinnerNotification {
                room_id: m.room_id,
                winner: m.winner,
            },
            JsonMessage::JSONPostMatchActionNotification(m) => MessageView::PostMatchActionNotification {
                player_id: m.player_id,
                room_id: m.room_id,
                action: m.action@,
            },
            JsonMessage::JSONPlayerDisconnectedNotification(m) => MessageView::PlayerDisconnectedNotification {
                room_id: m.room_id,
                player_id: m.player_id,
            },
            _ => MessageView::Request,
        }
    }
}

impl JsonMessage {
    /// The body of a response frame for a message, given what `serde_json::to_string` made of it.
    pub fn to_response_body(json: Result<String, serde_json::Error>) -> (body: Result<
        Vec<u8>,
        JsonPayloadError,
    >)
        ensures
            match json {
                Err(error) => body == Err::<Vec<u8>, _>(JsonPayloadError::Json(error)),
                Ok(text) => match body {
                    Ok(bytes) => {
                        &&& encode_utf8(text@).len() <= MAX_FIELD_LEN
                        &&& bytes@ == encoded_text(text@)
                    },
                    Err(error) => {
                        &&& encode_utf8(text@).len() > MAX_FIELD_LEN
                        &&& error is Binary
                    },
                },
            },
    {
        match json {
            Err(error) => Err(JsonPayloadError::from(error)),
            Ok(data) => {
                let payload = JSONResponsePayload { data };
                match payload.to_binary() {
                    Ok(bytes) => Ok(bytes),
                    Err(error) => Err(JsonPayloadError::from(error)),
                }
            },
        }
    }

    /// The response frame for a message, given what `serde_json::to_string` made of it.
    pub fn to_response_frame(json: Result<String, serde_json::Error>) -> (response: Result<
        Vec<u8>,
        JsonPayloadError,
    >)
        ensures
            match json {
                Err(error) => response == Err::<Vec<u8>, _>(JsonPayloadError::Json(error)),
                Ok(text) => match response {
                    Ok(bytes) => {
                        &&& encode_utf8(text@).len() <= MAX_FIELD_LEN
                        &&& bytes@ == frame(Opcode::JSONResponsePayload, encoded_text(text@))
                    },
                    Err(error) => {
                        &&& encode_utf8(text@).len() > MAX_FIELD_LEN
                        &&& error is Binary
                    },
                },
            },
    {
        match JsonMessage::to_response_body(json) {
            Ok(body) => Ok(wrap_with_opcode(Opcode::JSONResponsePayload, body)),
            Err(error) => Err(error),
        }
    }
}

/// A server message stands for its fields.
pub proof fn law_message_view(message: JsonMessage)
    ensures
        match message {
            JsonMessage::JSONPong(m) => message@ == (MessageView::Pong {
                id: m.id,
            }),
            JsonMessage::JSONGetRoomsResponse(m) => message@ == (MessageView::GetRoomsResponse {
                id: m.id,
                rooms: list_view(m.rooms@),
            }),
            JsonMessage::JSONCreateRoomResponse(m) => message@ == (MessageView::CreateRoomResponse {
                id: m.id,
                room_id: m.room_id,
                code: m.code@,
            }),
            JsonMessage::JSONJoinRoomResponse(m) => message@ == (MessageView::JoinRoomResponse {
                id: m.id,
                success: m.success,
                message: match m.message {
                    Some(text) => Some(text@),
                    None => None,
                },
            }),
            JsonMessage::JSONJoinByCodeResponse(m) => message@ == (MessageView::JoinByCodeResponse {
                id: m.id,
                success: m.success,
                message: match m.message {
                    Some(text) => Some(text@),
                    None => None,
                },
                room_id: m.room_id,
            }),
            JsonMessage::JSONJoinRandomMatchResponse(m) => message@ == (MessageView::JoinRandomMatchResponse {
                id: m.id,
                matched: m.matched,
                room_id: m.room_id,
            }),
            JsonMessage::JSONCancelRandomMatchResponse(m) => message@ == (MessageView::CancelRandomMatchResponse {
                id: m.id,
                success: m.success,
            }),
            JsonMessage::JSONLeaveRoomResponse(m) => message@ == (MessageView::LeaveRoomResponse {
                id: m.id,
                success: m.success,
                message: match m.message {
                    Some(text) => Some(text@),
                    None => None,
                },
            }),
            JsonMessage::JSONUpdateRoomResponse(m) => message@ == (MessageView::UpdateRoomResponse {
                id: m.id,
                success: m.success,
                message: match m.message {
                    Some(text) => Some(text@),
                    None => None,
                },
            }),
            JsonMessage::JSONRoomInfoNotification(m) => message@
                == MessageView::RoomInfoNotification(m@),
            JsonMessage::JSONRoomLeaveNotification(m) => message@ == (MessageView::RoomLeaveNotification {
                message: m.message@,
            }),
            JsonMessage::JSONStartMatchResponse(m) => message@ == (MessageView::StartMatchResponse {
                id: m.id,
                success: m.success,
                message: match m.message {
                    Some(text) => Some(text@),
                    None => None,
                },
            }),
            JsonMessage::JSONStartMatchNotification(m) => message@ == (MessageView::StartMatchNotification {
                room_id: m.room_id,
                seed: m.seed@,
                start_time_ms: m.start_time_ms,
                match_setting: m.match_setting@,
                protocol_version: m.protocol_version,
            }),
            JsonMessage::JSONUpdateMatchSettingResponse(m) => message@ == (MessageView::UpdateMatchSettingResponse {
                id: m.id,
                success: m.success,
                message: match m.message {
                    Some(text) => Some(text@),
                    None => None,
                },
            }),
            JsonMessage::JSONUpdateMatchSettingNotification(m) => message@ == (MessageView::UpdateMatchSettingNotification {
                room_id: m.room_id,
                setting: m.setting@,
            }),
            JsonMessage::JSONUpdatePlayerRuleResponse(m) => message@ == (MessageView::UpdatePlayerRuleResponse {
                id: m.id,
                success: m.success,
                message: match m.message {
                    Some(text) => Some(text@),
                    None => None,
                },
            }),
            JsonMessage::JSONSetReadyResponse(m) => message@ == (MessageView::SetReadyResponse {
                id: m.id,
                success: m.success,
                message: match m.message {
                    Some(text) => Some(text@),
                    None => None,
                },
            }),
            JsonMessage::JSONTimeSyncResponse(m) => message@ == (MessageView::TimeSyncResponse {
                id: m.id,
                server_time_ms: m.server_time_ms,
            }),
            JsonMessage::JSONPauseNotification(m) => message@ == (MessageView::PauseNotification {
                room_id: m.room_id,
                paused_by: m.paused_by,
            }),
            JsonMessage::JSONResumeNotification(m) => message@ == (MessageView::ResumeNotification {
                room_id: m.room_id,
            }),
            JsonMessage::JSONNotifyGameOverResponse(m) => message@ == (MessageView::NotifyGameOverResponse {
                id: m.id,
                success: m.success,
            }),
            JsonMessage::JSONWinnerNotification(m) => message@ == (MessageView::WinnerNotification {
                room_id: m.room_id,
                winner: m.winner,
            }),
            JsonMessage::JSONPostMatchActionNotification(m) => message@ == (MessageView::PostMatchActionNotification {
                player_id: m.player_id,
                room_id: m.room_id,
                action: m.action@,
            }),
            JsonMessage::JSONPlayerDisconnectedNotification(m) => message@ == (MessageView::PlayerDisconnectedNotification {
                room_id: m.room_id,
                player_id: m.player_id,
            }),
            _ => message@ is Request,
        },
{
}

/// An entry of a room list stands for its fields, and a room list for its entries, one for one.
pub proof fn law_list_view(rooms: Seq<ListRoomInfo>, i: int)
    requires
        0 <= i < rooms.len(),
    ensures
        list_view(rooms).len() == rooms.len(),
        list_view(rooms)[i].id == rooms[i].id,
        list_view(rooms)[i].room_name == rooms[i].room_name@,
        list_view(rooms)[i].players == rooms[i].players,
        list_view(rooms)[i].max_players == rooms[i].max_players,
        list_view(rooms)[i].locked == rooms[i].locked,
        list_view(rooms)[i].tags == rooms[i].tags@,
{
}

/// The state of a room stands for its fields.
pub proof fn law_room_info_view(info: JSONRoomInfoNotification, i: int)
    ensures
        info@.room_id == info.room_id,
        info@.owner_id == info.owner_id,
        info@.room_name == info.room_name@,
        info@.players.len() == info.players@.len(),
        0 <= i < info.players@.len() ==> {
            &&& info@.players[i].id == info.players@[i].0
            &&& info@.players[i].name == info.players@[i].1@
            &&& info@.players[i].rule == info.players@[i].2@
        },
        info@.max_players == info.max_players,
        info@.tags == info.tags@,
        info@.match_setting == info.match_setting@,
        info@.ready_players == info.ready_players@,
        info@.pings == info.pings@,
        info@.code == info.code@,
        info@.is_public == info.is_public,
{
}

} // verus!
