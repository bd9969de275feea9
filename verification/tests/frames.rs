use tetra_server::connection::common::{
    relay_match_frame, ChannelKind, PeerState, RECONNECT_GRACE_SECS, RELIABLE_CHANNEL_LABEL,
    UNRELIABLE_CHANNEL_LABEL,
};
use tetra_server::connection::frame::{read_frame, FrameAction};
use tetra_server::ids::Uuid;
use tetra_server::payload::{
    wrap_with_opcode, ClosePayload, GameEventPayload, GameMessage, JSONRequestPayload,
    JSONResponsePayload, JsonMessage, JsonPayloadError, Opcode, PieceStatePayload, PingPayload,
    PongPayload, UuidBytes,
};

const ID: Uuid = 0x0123_4567_89ab_cdef_fedc_ba98_7654_3210;
const ID_BYTES: [u8; 16] = [
    0x01, 0x23, 0x45, 0x67, 0x89, 0xab, 0xcd, 0xef, 0xfe, 0xdc, 0xba, 0x98, 0x76, 0x54, 0x32, 0x10,
];

/// A payload in the shape that clients write it, for the codec itself to encode.
fn encoded_by_wincode(text: &str) -> Vec<u8> {
    let config = wincode::config::Configuration::default().with_varint_encoding();
    wincode::config::serialize(&text.to_string(), config).expect("encodes")
}

#[test]
fn uuid_bytes_are_big_endian() {
    let bytes = UuidBytes::from(ID);
    assert_eq!(bytes.0, ID_BYTES);
    assert_eq!(Uuid::from(bytes), ID);
    assert_eq!(uuid::Uuid::from_u128(ID).into_bytes(), ID_BYTES);
}

#[test]
fn opcodes_stand_for_their_bytes() {
    let all = [
        (Opcode::PingPayload, 0x01u8),
        (Opcode::PongPayload, 0x02),
        (Opcode::JSONRequestPayload, 0x03),
        (Opcode::JSONResponsePayload, 0x04),
        (Opcode::ClosePayload, 0x05),
        (Opcode::GameEventPayload, 0x06),
        (Opcode::PieceStatePayload, 0x07),
    ];
    for (op, code) in all {
        assert_eq!(op.code(), code);
        assert_eq!(Opcode::try_from(code), Ok(op));
    }
    assert_eq!(Opcode::try_from(0x00), Err(()));
    assert_eq!(Opcode::try_from(0x08), Err(()));
    assert_eq!(GameMessage::ClosePayload(ClosePayload {}).opcode(), Opcode::ClosePayload);
}

#[test]
fn wrapping_prepends_the_opcode() {
    assert_eq!(wrap_with_opcode(Opcode::JSONResponsePayload, vec![9, 8]), vec![4, 9, 8]);
    assert_eq!(wrap_with_opcode(Opcode::ClosePayload, vec![]), vec![5]);
}

#[test]
fn identifier_payloads_are_sixteen_bytes() {
    let ping = PingPayload { id: UuidBytes(ID_BYTES) };
    assert_eq!(ping.to_binary().expect("writes"), ID_BYTES.to_vec());
    let pong = PongPayload { id: UuidBytes(ID_BYTES) };
    assert_eq!(pong.to_binary().expect("writes"), ID_BYTES.to_vec());
    let mut long = ID_BYTES.to_vec();
    long.push(77);
    assert_eq!(PingPayload::from_binary(&long).expect("reads").id.0, ID_BYTES);
    assert!(PongPayload::from_binary(&ID_BYTES[..15]).is_err());
}

#[test]
fn text_payloads_are_length_prefixed() {
    let short = JSONResponsePayload { data: "hé".to_string() };
    assert_eq!(short.to_binary().expect("writes"), vec![3, b'h', 0xc3, 0xa9]);

    let edge = JSONRequestPayload { data: "x".repeat(250) };
    assert_eq!(edge.to_binary().expect("writes")[..2], [250, b'x']);

    let two = JSONRequestPayload { data: "x".repeat(251) }.to_binary().expect("writes");
    assert_eq!(two[..4], [251, 251, 0, b'x']);
    assert_eq!(two.len(), 3 + 251);

    let four = JSONRequestPayload { data: "x".repeat(65_536) }.to_binary().expect("writes");
    assert_eq!(four[..6], [252, 0, 0, 1, 0, b'x']);
    assert_eq!(four.len(), 5 + 65_536);
}

#[test]
fn text_payloads_have_a_limit() {
    let fits = JSONResponsePayload { data: "x".repeat(4_194_304) };
    let bytes = fits.to_binary().expect("writes");
    assert_eq!(bytes.len(), 5 + 4_194_304);
    let read = JSONRequestPayload::from_binary(&bytes).expect("reads");
    assert_eq!(read.data.len(), 4_194_304);
    let over = JSONResponsePayload { data: "x".repeat(4_194_305) };
    assert!(over.to_binary().is_err());
    let mut claimed = vec![252, 1, 0, 0x40, 0];
    claimed.resize(5 + 4_194_305, b'x');
    assert!(JSONRequestPayload::from_binary(&claimed).is_err());
}

#[test]
fn text_payloads_are_read_back() {
    for text in ["", "a", "日本語", &"x".repeat(300)] {
        let mut bytes = encoded_by_wincode(text);
        assert_eq!(JSONRequestPayload::from_binary(&bytes).expect("reads").data, text);
        bytes.push(1);
        assert_eq!(JSONRequestPayload::from_binary(&bytes).expect("reads").data, text);
    }
    assert_eq!(JSONRequestPayload::from_binary(&[251, 1, 0, b'a']).expect("reads").data, "a");
    assert_eq!(
        JSONRequestPayload::from_binary(&[253, 1, 0, 0, 0, 0, 0, 0, 0, b'a']).expect("reads").data,
        "a"
    );
    assert!(JSONRequestPayload::from_binary(&[]).is_err());
    assert!(JSONRequestPayload::from_binary(&[2, b'a']).is_err());
    assert!(JSONRequestPayload::from_binary(&[1, 0xff]).is_err());
    assert!(JSONRequestPayload::from_binary(&[251, 1]).is_err());
    assert!(JSONRequestPayload::from_binary(&[254, 0]).is_err());
    assert!(JSONRequestPayload::from_binary(&[255, 0]).is_err());
}

#[test]
fn byte_payloads_are_length_prefixed() {
    let event = GameEventPayload { data: vec![0xff, 0xfe] };
    assert_eq!(event.to_binary().expect("writes"), vec![2, 0xff, 0xfe]);
    let state = PieceStatePayload { data: vec![7; 300] };
    assert_eq!(state.to_binary().expect("writes")[..4], [251, 44, 1, 7]);
    assert!(GameEventPayload { data: vec![0; 4_194_305] }.to_binary().is_err());
    assert!(ClosePayload {}.to_binary().expect("writes").is_empty());
}

#[test]
fn response_frames_carry_json() {
    let bytes = JsonMessage::to_response_body(Ok("{}".to_string())).expect("writes");
    assert_eq!(bytes, vec![2, b'{', b'}']);
    let bytes = JsonMessage::to_response_frame(Ok("{}".to_string())).expect("writes");
    assert_eq!(bytes, vec![4, 2, b'{', b'}']);
    let broken = serde_json::from_str::<u8>("x").map(|n| n.to_string());
    assert!(matches!(
        JsonMessage::to_response_body(broken),
        Err(JsonPayloadError::Json(_))
    ));
    let broken = serde_json::from_str::<u8>("x").map(|n| n.to_string());
    assert!(matches!(
        JsonMessage::to_response_frame(broken),
        Err(JsonPayloadError::Json(_))
    ));
    assert!(matches!(
        JsonMessage::to_response_body(Ok("x".repeat(4_194_305))),
        Err(JsonPayloadError::Binary(_))
    ));
}

#[test]
fn relayed_frames_name_the_sender() {
    let out = relay_match_frame(&[0x21, 5, 6], &ID);
    assert_eq!(out[0], 0x21);
    assert_eq!(out[1..17], ID_BYTES);
    assert_eq!(out[17..], [5, 6]);
    assert_eq!(relay_match_frame(&[0x21], &ID).len(), 17);
    assert_ne!(relay_match_frame(&[0x21, 5], &ID), relay_match_frame(&[0x21, 5], &(ID + 1)));
}

#[test]
fn short_and_unknown_frames_are_dropped() {
    for kind in [ChannelKind::Reliable, ChannelKind::Unreliable] {
        assert!(matches!(read_frame(&[], &ID, kind), FrameAction::Ignore));
        assert!(matches!(read_frame(&[0x05], &ID, kind), FrameAction::Ignore));
        assert!(matches!(read_frame(&[0x1f, 0], &ID, kind), FrameAction::UnknownOpcode(0x1f)));
        assert!(matches!(read_frame(&[0x40, 0], &ID, kind), FrameAction::UnknownOpcode(0x40)));
        assert!(matches!(
            read_frame(&[0x01, 0], &ID, kind),
            FrameAction::Malformed(Opcode::PingPayload)
        ));
        assert!(matches!(
            read_frame(&[0x02, 0], &ID, kind),
            FrameAction::Malformed(Opcode::PongPayload)
        ));
        assert!(matches!(
            read_frame(&[0x04, 0], &ID, kind),
            FrameAction::Unhandled(Opcode::JSONResponsePayload)
        ));
    }
    assert!(matches!(
        read_frame(&[0x03, 9], &ID, ChannelKind::Reliable),
        FrameAction::Malformed(Opcode::JSONRequestPayload)
    ));
}

#[test]
fn match_frames_go_to_the_room() {
    for kind in [ChannelKind::Reliable, ChannelKind::Unreliable] {
        for code in [0x20u8, 0x3f] {
            match read_frame(&[code, 1], &ID, kind) {
                FrameAction::RelayToPeers(out) => {
                    assert_eq!(out, relay_match_frame(&[code, 1], &ID))
                }
                _ => panic!("match frames are relayed"),
            }
        }
    }
}

#[test]
fn game_events_and_piece_states_go_to_the_opponent_unchanged() {
    match read_frame(&[0x06, 1, 2], &ID, ChannelKind::Reliable) {
        FrameAction::RelayToOpponent(out) => assert_eq!(out, vec![0x06, 1, 2]),
        _ => panic!("game events are passed on"),
    }
    match read_frame(&[0x07, 1, 2], &ID, ChannelKind::Unreliable) {
        FrameAction::RelayToOpponent(out) => assert_eq!(out, vec![0x07, 1, 2]),
        _ => panic!("piece states are passed on"),
    }
    assert!(matches!(
        read_frame(&[0x06, 1], &ID, ChannelKind::Unreliable),
        FrameAction::Unhandled(Opcode::GameEventPayload)
    ));
    assert!(matches!(
        read_frame(&[0x07, 1], &ID, ChannelKind::Reliable),
        FrameAction::Unhandled(Opcode::PieceStatePayload)
    ));
}

#[test]
fn probes_are_answered_in_kind() {
    let mut ping = vec![0x01];
    ping.extend_from_slice(&ID_BYTES);
    let mut pong = vec![0x02];
    pong.extend_from_slice(&ID_BYTES);
    for kind in [ChannelKind::Reliable, ChannelKind::Unreliable] {
        match read_frame(&ping, &7, kind) {
            FrameAction::Answer(out) => assert_eq!(out, pong),
            _ => panic!("probes are answered"),
        }
        match read_frame(&pong, &7, kind) {
            FrameAction::PongReceived(id) => assert_eq!(id.0, ID_BYTES),
            _ => panic!("answers are noted"),
        }
    }
}

#[test]
fn requests_and_farewells_come_on_the_reliable_channel() {
    let body = JSONRequestPayload { data: "{\"a\":1}".to_string() }.to_binary().expect("writes");
    let request = wrap_with_opcode(Opcode::JSONRequestPayload, body);
    match read_frame(&request, &ID, ChannelKind::Reliable) {
        FrameAction::Request(text) => assert_eq!(text, "{\"a\":1}"),
        _ => panic!("requests are read"),
    }
    assert!(matches!(
        read_frame(&request, &ID, ChannelKind::Unreliable),
        FrameAction::Unhandled(Opcode::JSONRequestPayload)
    ));
    assert!(matches!(read_frame(&[0x05, 0], &ID, ChannelKind::Reliable), FrameAction::Close));
    assert!(matches!(
        read_frame(&[0x05, 0], &ID, ChannelKind::Unreliable),
        FrameAction::Unhandled(Opcode::ClosePayload)
    ));
}

#[test]
fn labels_tell_the_channels_apart() {
    assert_eq!(RELIABLE_CHANNEL_LABEL, "reliable-main");
    assert_eq!(UNRELIABLE_CHANNEL_LABEL, "unreliable-main");
    assert_eq!(
        ChannelKind::from_label(&"reliable-main".to_string()),
        Some(ChannelKind::Reliable)
    );
    assert_eq!(
        ChannelKind::from_label(&"unreliable-main".to_string()),
        Some(ChannelKind::Unreliable)
    );
    assert_eq!(ChannelKind::from_label(&"chat".to_string()), None);
}

#[test]
fn only_failed_and_closed_connections_are_lost() {
    assert!(PeerState::Failed.is_terminal());
    assert!(PeerState::Closed.is_terminal());
    assert!(!PeerState::Disconnected.is_terminal());
    assert!(!PeerState::Connected.is_terminal());
    assert!(!PeerState::New.is_terminal());
}

#[test]
fn lost_players_are_kept_for_three_seconds() {
    assert_eq!(RECONNECT_GRACE_SECS, 3);
}
