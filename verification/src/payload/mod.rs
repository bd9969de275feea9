//! The payloads that clients and server exchange.
//!
//! - [`common`]: identifiers as they stand in a binary payload
//! - [`schema`]: binary frames, their opcodes and payloads
//! - [`json`]: messages of the JSON layer, which travel in the JSON payloads

pub mod common;
pub mod json;
pub mod schema;

pub use self::common::UuidBytes;
pub use self::json::{
    JSONCancelRandomMatchRequest, JSONCancelRandomMatchResponse, JSONCreateRoomRequest,
    JSONCreateRoomResponse, JSONGetRoomsRequest, JSONGetRoomsResponse, JSONJoinByCodeRequest,
    JSONJoinByCodeResponse, JSONJoinRandomMatchRequest, JSONJoinRandomMatchResponse,
    JSONJoinRoomRequest, JSONJoinRoomResponse, JSONLeaveRoomRequest, JSONLeaveRoomResponse,
    JSONNotifyGameOverRequest, JSONNotifyGameOverResponse, JSONPauseNotification, JSONPauseRequest,
    JSONPing, JSONPlayerDisconnectedNotification, JSONPong, JSONPostMatchActionNotification,
    JSONPostMatchActionRequest, JSONResumeNotification, JSONResumeRequest, JSONRoomInfoNotification,
    JSONRoomInfoNotificationRequest, JSONRoomLeaveNotification, JSONSetReadyRequest,
    JSONSetReadyResponse, JSONStartMatchNotification, JSONStartMatchRequest, JSONStartMatchResponse,
    JSONTimeSyncRequest, JSONTimeSyncResponse, JSONUpdateMatchSettingNotification,
    JSONUpdateMatchSettingRequest, JSONUpdateMatchSettingResponse, JSONUpdatePlayerPingRequest,
    JSONUpdatePlayerRuleRequest, JSONUpdatePlayerRuleResponse, JSONUpdateRoomRequest,
    JSONUpdateRoomResponse, JSONWinnerNotification, JsonMessage, JsonPayloadError, ListRoomInfo,
    PROTOCOL_VERSION,
};
pub use self::schema::{
    wrap_with_opcode, ClosePayload, GameEventPayload, GameMessage, JSONRequestPayload,
    JSONResponsePayload, Opcode, PieceStatePayload, PingPayload, PongPayload,
};
