use tetra_server::config::{
    allowed_versions, fd_limit_target, ice_config, parse_versions, turn_request,
};
use tetra_server::game::{ConnectionState, Game};
use tetra_server::signaling::{
    auth_accepted, reject_version, OfferKind, SignalAction, SignalMessage, SignalSession,
};

fn text(s: &str) -> String {
    s.to_string()
}

fn offer(player_id: Option<u128>) -> SignalMessage {
    SignalMessage::Offer { sdp: text("sdp"), player_id }
}

fn auth(version: &str) -> SignalMessage {
    SignalMessage::Auth { version: text(version) }
}

fn authenticated(game: &mut Game<u32>) -> SignalSession {
    let mut session = SignalSession::new();
    let action = session.handle_signal(game, auth("1.0"), &vec![text("1.0")]);
    assert!(matches!(action, SignalAction::AcceptVersion));
    session
}

#[test]
fn nothing_works_before_authentication() {
    let mut game: Game<u32> = Game::default();
    let mut session = SignalSession::new();
    let allowed = vec![text("1.0")];
    assert!(!session.authenticated);
    assert_eq!((session.player_id >> 76) & 0xf, 4);
    assert!(matches!(
        session.handle_signal(&mut game, offer(None), &allowed),
        SignalAction::NotAuthenticated
    ));
    let candidate = SignalMessage::Candidate {
        candidate: text("c"),
        sdp_mid: None,
        sdp_m_line_index: None,
        user_id: 1,
    };
    assert!(matches!(
        session.handle_signal(&mut game, candidate, &allowed),
        SignalAction::NotAuthenticated
    ));
}

#[test]
fn unknown_version_is_rejected_with_the_allowed_ones() {
    let mut game: Game<u32> = Game::default();
    let mut session = SignalSession::new();
    let allowed = vec![text("1.0"), text("1.1")];
    match session.handle_signal(&mut game, auth("0.9"), &allowed) {
        SignalAction::RejectVersion(SignalMessage::AuthResult {
            success,
            message,
            rtc_peer_ice_config,
        }) => {
            assert!(!success);
            assert_eq!(
                message.as_deref(),
                Some(
                    "Unsupported client version: 0.9. Allowed versions: [\"1.0\", \"1.1\"]\nPlease reload or reopen the client to update to a supported version."
                )
            );
            assert_eq!(rtc_peer_ice_config, None);
        }
        _ => panic!("the version is not allowed"),
    }
    assert!(!session.authenticated);
    assert!(session.ended);
    assert!(matches!(
        session.handle_signal(&mut game, auth("1.0"), &allowed),
        SignalAction::SessionOver
    ));
    assert!(!session.authenticated);
    assert_eq!(
        reject_version(&text("v"), &text("[]")),
        "Unsupported client version: v. Allowed versions: []\nPlease reload or reopen the client to update to a supported version."
    );
}

#[test]
fn accepted_version_is_answered() {
    match auth_accepted(Some(text("ice"))) {
        SignalMessage::AuthResult { success, message, rtc_peer_ice_config } => {
            assert!(success);
            assert_eq!(message, None);
            assert_eq!(rtc_peer_ice_config, Some(text("ice")));
        }
        _ => panic!("it is an answer to Auth"),
    }
}

#[test]
fn offers_and_candidates_of_an_authenticated_client() {
    let mut game: Game<u32> = Game::default();
    let mut session = authenticated(&mut game);
    let before = session.player_id;
    let allowed = vec![];
    assert!(matches!(
        session.handle_signal(&mut game, offer(None), &allowed),
        SignalAction::AnswerOffer { sdp, kind: OfferKind::New } if sdp == "sdp"
    ));
    assert!(matches!(
        session.handle_signal(&mut game, offer(Some(5)), &allowed),
        SignalAction::AnswerOffer { kind: OfferKind::UnknownPlayer(5), .. }
    ));
    assert_eq!(session.player_id, before);
    let candidate = SignalMessage::Candidate {
        candidate: text("c"),
        sdp_mid: Some(text("0")),
        sdp_m_line_index: Some(1),
        user_id: 1,
    };
    assert!(matches!(
        session.handle_signal(&mut game, candidate, &allowed),
        SignalAction::AddCandidate { candidate, sdp_mid: Some(mid), sdp_m_line_index: Some(1) }
            if candidate == "c" && mid == "0"
    ));
    assert!(matches!(
        session.handle_signal(&mut game, SignalMessage::Answer { sdp: text("x") }, &allowed),
        SignalAction::Unexpected
    ));
    assert!(matches!(
        session.handle_signal(&mut game, auth_accepted(None), &allowed),
        SignalAction::Unexpected
    ));
}

#[test]
fn coming_back_within_the_grace_keeps_the_player() {
    let mut game: Game<u32> = Game::default();
    game.add_reliable_connection(5, 15);
    game.add_unreliable_connection(5, 25);
    assert!(game.begin_disconnect(5));
    let mut session = authenticated(&mut game);
    assert!(matches!(
        session.handle_signal(&mut game, offer(Some(5)), &vec![]),
        SignalAction::AnswerOffer { kind: OfferKind::Rebound(5), .. }
    ));
    assert_eq!(session.player_id, 5);
    assert_eq!(game.get_connection_state(&5), Some(ConnectionState::Establishing));
    assert!(game.finish_disconnect(5).is_none());
    assert_eq!(game.get_reliable_connection(&5), Some(&15));
}

#[test]
fn taking_over_a_connected_player_leaves_them_connected() {
    let mut game: Game<u32> = Game::default();
    game.add_reliable_connection(5, 15);
    game.add_unreliable_connection(5, 25);
    let mut session = authenticated(&mut game);
    session.handle_signal(&mut game, offer(Some(5)), &vec![]);
    assert_eq!(session.player_id, 5);
    assert_eq!(game.get_connection_state(&5), Some(ConnectionState::Connected));
}

#[test]
fn versions_are_split_and_trimmed() {
    assert_eq!(
        parse_versions(&text(" 1.0 ,1.1,\t2.0\u{3000},, x y ")),
        vec!["1.0", "1.1", "2.0", "", "x y"]
    );
    assert_eq!(parse_versions(&text("")), vec![""]);
    assert_eq!(allowed_versions(None), vec!["0.0.0"]);
    assert_eq!(allowed_versions(Some(text("1,2"))), vec!["1", "2"]);
    let hard = " a,\u{85}b\u{a0}, \u{2003}c\u{200b} ,\u{1f}d";
    let expected: Vec<String> = hard.split(',').map(|s| s.trim().to_string()).collect();
    assert_eq!(parse_versions(&text(hard)), expected);
}

#[test]
fn white_space_is_that_of_the_standard_library() {
    for code in 0..0x3100u32 {
        if let Some(c) = char::from_u32(code) {
            if c != ',' {
                let list: String = [c, 'a', c].iter().collect();
                assert_eq!(parse_versions(&list), vec![list.trim().to_string()]);
            }
        }
    }
}

#[test]
fn file_limit_is_raised_up_to_the_hard_limit() {
    assert_eq!(fd_limit_target(1024, 4096), Some(4096));
    assert_eq!(fd_limit_target(1024, 1_048_576), Some(65_536));
    assert_eq!(fd_limit_target(65_536, 1_048_576), None);
    assert_eq!(fd_limit_target(4096, 4096), None);
}

#[test]
fn relay_credentials_need_key_and_secret() {
    assert!(turn_request(None, Some(text("s"))).is_none());
    assert!(turn_request(Some(text("k")), None).is_none());
    let request = turn_request(Some(text("k")), Some(text("s"))).expect("both are there");
    assert_eq!(
        request.url,
        "https://rtc.live.cloudflare.com/v1/turn/keys/k/credentials/generate-ice-servers"
    );
    assert_eq!(request.authorization, "Bearer s");
    assert_eq!(request.ttl, 86400);
}

#[test]
fn rejection_ends_an_authenticated_session_too() {
    let mut game: Game<u32> = Game::default();
    let mut session = authenticated(&mut game);
    let rejected = session.handle_signal(&mut game, auth("0.9"), &vec![text("1.0")]);
    assert!(rejected.ends_session());
    let later = session.handle_signal(&mut game, offer(None), &vec![text("1.0")]);
    assert!(matches!(later, SignalAction::SessionOver));
    assert!(!SignalAction::AcceptVersion.ends_session());
    assert!(!SignalAction::Unexpected.ends_session());
}

#[test]
fn relay_addresses_come_from_a_successful_reply() {
    assert_eq!(ice_config(Some((true, Some(text("ice"))))), Some(text("ice")));
    assert_eq!(ice_config(Some((true, None))), None);
    assert_eq!(ice_config(Some((false, Some(text("error"))))), None);
    assert_eq!(ice_config(None), None);
}
