//! Signaling: what a client and the server say to each other before the data channels are up.

use vstd::prelude::*;
use vstd::string::*;

use crate::effects::only_connection_differs;
use crate::game::{ConnectionState, Game};
use crate::ids::{is_random_uuid, new_v4, Uuid};
use crate::model::GameView;
use crate::payload::json::text_view;

verus! {

/// A signaling message.
#[derive(Debug)]
pub enum SignalMessage {
    /// The client offers a connection. One who comes back names the player that they were.
    Offer { sdp: String, player_id: Option<Uuid> },
    /// The server accepts the offer.
    Answer { sdp: String },
    /// A network address at which the sender may be reached.
    Candidate {
        candidate: String,
        sdp_mid: Option<String>,
        sdp_m_line_index: Option<u16>,
        user_id: Uuid,
    },
    /// The client states its version.
    Auth { version: String },
    /// The server accepts or rejects the version.
    AuthResult {
        success: bool,
        message: Option<String>,
        rtc_peer_ice_config: Option<String>,
    },
}

/// What a list of texts stands for.
pub open spec fn texts_view(texts: Seq<String>) -> Seq<Seq<char>> {
    texts.map_values(|text: String| text@)
}

/// How std's `Debug` shows a list of texts. It quotes each and escapes by tables of Unicode.
pub uninterp spec fn debug_text(texts: Seq<Seq<char>>) -> Seq<char>;

/// Shows a list of texts with std's `Debug` formatting of `Vec<String>`, by the `format` macro.
///
/// What comes out depends on the texts alone; how they are quoted and escaped is left unsaid.
#[verifier::external_body]
fn debug_texts(texts: &Vec<String>) -> (shown: String)
    ensures
        shown@ == debug_text(texts_view(texts@)),
{
    format!("{:?}", texts)
}

/// What a client is told whose version is not allowed.
pub open spec fn rejection_text(version: Seq<char>, allowed: Seq<char>) -> Seq<char> {
    "Unsupported client version: "@ + version + ". Allowed versions: "@ + allowed
        + "\nPlease reload or reopen the client to update to a supported version."@
}

/// What a client is told whose version is not allowed. The allowed versions are given as shown.
pub fn reject_version(version: &String, allowed: &String) -> (text: String)
    ensures
        text@ == rejection_text(version@, allowed@),
{
    let mut text = "Unsupported client version: ".to_string();
    text.append(version.as_str());
    text.append(". Allowed versions: ");
    text.append(allowed.as_str());
    text.append("\nPlease reload or reopen the client to update to a supported version.");
    text
}

/// Whether a text is among a list of texts.
fn has_text(texts: &Vec<String>, text: &String) -> (found: bool)
    ensures
        found == texts_view(texts@).contains(text@),
{
    let mut i: usize = 0;
    while i < texts.len()
        invariant
            i <= texts@.len(),
            forall|j: int| 0 <= j < i ==> (#[trigger] texts@[j])@ != text@,
        decreases texts@.len() - i,
    {
        if texts[i] == *text {
            assert(texts_view(texts@)[i as int] == text@);
            return true;
        }
        i += 1;
    }
    false
}

/// Whose offer it is.
#[derive(Clone, Copy, Debug, PartialEq, Eq, Structural)]
pub enum OfferKind {
    /// The client names no player.
    New,
    /// The client comes back as a player that the server still has.
    Rebound(Uuid),
    /// The client names a player that the server does not have, and counts as new.
    UnknownPlayer(Uuid),
}

/// What a signaling message asks for.
pub enum SignalAction {
    /// Nothing: the client has not stated an allowed version.
    NotAuthenticated,
    /// The offer is to be answered.
    AnswerOffer { sdp: String, kind: OfferKind },
    /// The address is to be noted.
    AddCandidate { candidate: String, sdp_mid: Option<String>, sdp_m_line_index: Option<u16> },
    /// The version is allowed. The answer is what `auth_accepted` makes.
    AcceptVersion,
    /// The version is not allowed. The message goes to the client, and the session ends.
    RejectVersion(SignalMessage),
    /// Nothing: clients do not send such messages.
    Unexpected,
    /// Nothing: the session has ended.
    SessionOver,
}

impl SignalAction {
    /// Whether the session ends with the action. No message of the client is read after that.
    pub fn ends_session(&self) -> (ends: bool)
        ensures
            ends == (*self is RejectVersion),
    {
        match self {
            SignalAction::RejectVersion(_) => true,
            _ => false,
        }
    }
}

/// One client's signaling session.
pub struct SignalSession {
    /// Whether the client has stated an allowed version.
    pub authenticated: bool,
    /// The player that the client is.
    pub player_id: Uuid,
    /// Whether the session has ended, because the client stated a version that is not allowed.
    pub ended: bool,
}

impl<C> GameView<C> {
    /// Whose offer it is.
    pub open spec fn offer_kind(self, reconnect: Option<Uuid>) -> OfferKind {
        match reconnect {
            None => OfferKind::New,
            Some(id) => if self.connections.contains_key(id) {
                OfferKind::Rebound(id)
            } else {
                OfferKind::UnknownPlayer(id)
            },
        }
    }

    /// The state after an offer. A lost player who comes back is not lost any more.
    pub open spec fn after_offer(self, reconnect: Option<Uuid>) -> GameView<C> {
        match reconnect {
            Some(id) => if self.connection_state(id) == Some(ConnectionState::Disconnected) {
                self.with_connection_state(id, ConnectionState::Establishing)
            } else {
                self
            },
            None => self,
        }
    }
}

/// What a signaling message does: how session and state before it relate to those after it and to
/// the action. Nothing comes of messages after the session has ended.
pub open spec fn signal_effect<C>(
    session: SignalSession,
    pre: GameView<C>,
    message: SignalMessage,
    allowed: Seq<Seq<char>>,
    session_after: SignalSession,
    post: GameView<C>,
    action: SignalAction,
) -> bool {
    match message {
        _ if session.ended => {
            &&& action is SessionOver
            &&& session_after == session
            &&& post == pre
        },
        SignalMessage::Offer { sdp, player_id } => if !session.authenticated {
            &&& action is NotAuthenticated
            &&& session_after == session
            &&& post == pre
        } else {
            &&& action == SignalAction::AnswerOffer { sdp, kind: pre.offer_kind(player_id) }
            &&& session_after == SignalSession {
                player_id: match pre.offer_kind(player_id) {
                    OfferKind::Rebound(id) => id,
                    _ => session.player_id,
                },
                ..session
            }
            &&& post == pre.after_offer(player_id)
        },
        SignalMessage::Candidate { candidate, sdp_mid, sdp_m_line_index, user_id: _ } => {
            &&& session_after == session
            &&& post == pre
            &&& if session.authenticated {
                action == SignalAction::AddCandidate { candidate, sdp_mid, sdp_m_line_index }
            } else {
                action is NotAuthenticated
            }
        },
        SignalMessage::Auth { version } => {
            &&& post == pre
            &&& if allowed.contains(version@) {
                &&& action is AcceptVersion
                &&& session_after == SignalSession { authenticated: true, ..session }
            } else {
                &&& session_after == SignalSession { ended: true, ..session }
                &&& action matches SignalAction::RejectVersion(reply)
                &&& reply matches SignalMessage::AuthResult { success, message, rtc_peer_ice_config }
                &&& !success
                &&& text_view(message) == Some(rejection_text(version@, debug_text(allowed)))
                &&& rtc_peer_ice_config is None
            }
        },
        _ => {
            &&& action is Unexpected
            &&& session_after == session
            &&& post == pre
        },
    }
}

/// The answer to an allowed version, with the addresses of relay servers if there are any.
pub fn auth_accepted(ice_config: Option<String>) -> (reply: SignalMessage)
    ensures
        reply == (SignalMessage::AuthResult {
            success: true,
            message: None,
            rtc_peer_ice_config: ice_config,
        }),
{
    SignalMessage::AuthResult { success: true, message: None, rtc_peer_ice_config: ice_config }
}

impl SignalSession {
    /// A session with a client that has not said anything, under a random new identifier.
    pub fn new() -> (session: SignalSession)
        ensures
            !session.authenticated,
            !session.ended,
            is_random_uuid(session.player_id),
    {
        SignalSession { authenticated: false, player_id: new_v4(), ended: false }
    }

    /// Notes what an offer says about the player: one whom the server still has is taken over, and
    /// is not lost any more.
    fn rebind<C>(&mut self, game: &mut Game<C>, reconnect: Option<Uuid>) -> (kind: OfferKind)
        ensures
            kind == old(game)@.offer_kind(reconnect),
            final(game)@ == old(game)@.after_offer(reconnect),
            old(game)@.wf() ==> final(game)@.wf(),
            *final(self) == (SignalSession {
                player_id: match kind {
                    OfferKind::Rebound(id) => id,
                    _ => old(self).player_id,
                },
                ..*old(self)
            }),
    {
        match reconnect {
            None => OfferKind::New,
            Some(id) => match game.get_connection_state(&id) {
                None => OfferKind::UnknownPlayer(id),
                Some(state) => {
                    self.player_id = id;
                    if state == ConnectionState::Disconnected {
                        game.set_connection_state(&id, ConnectionState::Establishing);
                    }
                    OfferKind::Rebound(id)
                },
            },
        }
    }

    /// Handles a signaling message of the client.
    pub fn handle_signal<C>(
        &mut self,
        game: &mut Game<C>,
        message: SignalMessage,
        allow_versions: &Vec<String>,
    ) -> (action: SignalAction)
        ensures
            signal_effect(
                *old(self),
                old(game)@,
                message,
                texts_view(allow_versions@),
                *final(self),
                final(game)@,
                action,
            ),
            old(game)@.wf() ==> final(game)@.wf(),
    {
        if self.ended {
            return SignalAction::SessionOver;
        }
        match message {
            SignalMessage::Offer { sdp, player_id } => {
                if !self.authenticated {
                    return SignalAction::NotAuthenticated;
                }
                let kind = self.rebind(game, player_id);
                SignalAction::AnswerOffer { sdp, kind }
            },
            SignalMessage::Candidate { candidate, sdp_mid, sdp_m_line_index, user_id: _ } => {
                if !self.authenticated {
                    return SignalAction::NotAuthenticated;
                }
                SignalAction::AddCandidate { candidate, sdp_mid, sdp_m_line_index }
            },
            SignalMessage::Auth { version } => {
                if has_text(allow_versions, &version) {
                    self.authenticated = true;
                    SignalAction::AcceptVersion
                } else {
                    self.ended = true;
                    let allowed = debug_texts(allow_versions);
                    SignalAction::RejectVersion(
                        SignalMessage::AuthResult {
                            success: false,
                            message: Some(reject_version(&version, &allowed)),
                            rtc_peer_ice_config: None,
                        },
                    )
                }
            },
            _ => SignalAction::Unexpected,
        }
    }
}

/// Until a client has stated an allowed version, its offers and addresses come to nothing.
pub proof fn law_unauthenticated_client_is_ignored<C>(
    session: SignalSession,
    pre: GameView<C>,
    message: SignalMessage,
    allowed: Seq<Seq<char>>,
    session_after: SignalSession,
    post: GameView<C>,
    action: SignalAction,
)
    requires
        signal_effect(session, pre, message, allowed, session_after, post, action),
        !session.authenticated,
    ensures
        post == pre,
        !(action is AnswerOffer),
        !(action is AddCandidate),
        session_after.authenticated <==> (!session.ended && (message matches SignalMessage::Auth {
            version,
        } && allowed.contains(version@))),
{
}

/// An authenticated client stays authenticated.
pub proof fn law_authentication_lasts<C>(
    session: SignalSession,
    pre: GameView<C>,
    message: SignalMessage,
    allowed: Seq<Seq<char>>,
    session_after: SignalSession,
    post: GameView<C>,
    action: SignalAction,
)
    requires
        signal_effect(session, pre, message, allowed, session_after, post, action),
        session.authenticated,
    ensures
        session_after.authenticated,
{
}

/// A session ends with the first version that is not allowed, and only so. Nothing comes of any
/// message after that.
pub proof fn law_rejection_ends_the_session<C>(
    session: SignalSession,
    pre: GameView<C>,
    message: SignalMessage,
    allowed: Seq<Seq<char>>,
    session_after: SignalSession,
    post: GameView<C>,
    action: SignalAction,
)
    requires
        signal_effect(session, pre, message, allowed, session_after, post, action),
    ensures
        session.ended ==> {
            &&& action is SessionOver
            &&& session_after == session
            &&& post == pre
        },
        !session.ended ==> (session_after.ended <==> action is RejectVersion),
        !session.ended ==> (action is RejectVersion <==> (message matches SignalMessage::Auth {
            version,
        } && !allowed.contains(version@))),
{
}

/// A client takes over a player only by naming one whom the server still has; otherwise it stays who
/// it is.
pub proof fn law_only_known_players_come_back<C>(
    session: SignalSession,
    pre: GameView<C>,
    message: SignalMessage,
    allowed: Seq<Seq<char>>,
    session_after: SignalSession,
    post: GameView<C>,
    action: SignalAction,
)
    requires
        signal_effect(session, pre, message, allowed, session_after, post, action),
        session_after.player_id != session.player_id,
    ensures
        session.authenticated,
        pre.connections.contains_key(session_after.player_id),
        !post.is_lost(session_after.player_id),
{
}

/// What comes of each signaling message.
pub proof fn law_signal_outcome<C>(
    session: SignalSession,
    pre: GameView<C>,
    message: SignalMessage,
    allowed: Seq<Seq<char>>,
    session_after: SignalSession,
    post: GameView<C>,
    action: SignalAction,
)
    requires
        signal_effect(session, pre, message, allowed, session_after, post, action),
        !session.ended,
    ensures
        match message {
            SignalMessage::Offer { sdp, player_id } => if !session.authenticated {
                action is NotAuthenticated && session_after == session && post == pre
            } else {
                &&& action matches SignalAction::AnswerOffer { sdp: offered, kind }
                &&& offered == sdp
                &&& session_after.authenticated
                &&& !session_after.ended
                &&& match player_id {
                    None => {
                        &&& kind == OfferKind::New
                        &&& session_after.player_id == session.player_id
                        &&& post == pre
                    },
                    Some(id) => if !pre.connections.contains_key(id) {
                        &&& kind == OfferKind::UnknownPlayer(id)
                        &&& session_after.player_id == session.player_id
                        &&& post == pre
                    } else {
                        &&& kind == OfferKind::Rebound(id)
                        &&& session_after.player_id == id
                        &&& only_connection_differs(pre, post, id)
                        &&& post.connections.contains_key(id)
                        &&& post.connections[id].reliable == pre.connections[id].reliable
                        &&& post.connections[id].unreliable == pre.connections[id].unreliable
                        &&& post.connections[id].state == (if pre.connections[id].state
                            == ConnectionState::Disconnected {
                            ConnectionState::Establishing
                        } else {
                            pre.connections[id].state
                        })
                    },
                }
            },
            SignalMessage::Candidate { candidate, sdp_mid, sdp_m_line_index, user_id: _ } => {
                &&& session_after == session
                &&& post == pre
                &&& if session.authenticated {
                    &&& action matches SignalAction::AddCandidate {
                        candidate: noted,
                        sdp_mid: mid,
                        sdp_m_line_index: index,
                    }
                    &&& noted == candidate
                    &&& mid == sdp_mid
                    &&& index == sdp_m_line_index
                } else {
                    action is NotAuthenticated
                }
            },
            SignalMessage::Auth { version } => {
                &&& post == pre
                &&& session_after.player_id == session.player_id
                &&& if exists|i: int| 0 <= i < allowed.len() && #[trigger] allowed[i] == version@ {
                    action is AcceptVersion && session_after.authenticated && !session_after.ended
                } else {
                    &&& session_after.authenticated == session.authenticated
                    &&& session_after.ended
                    &&& action matches SignalAction::RejectVersion(reply)
                    &&& reply matches SignalMessage::AuthResult {
                        success,
                        message: Some(text),
                        rtc_peer_ice_config,
                    }
                    &&& !success
                    &&& rtc_peer_ice_config is None
                    &&& text@ == "Unsupported client version: "@ + version@
                        + ". Allowed versions: "@ + debug_text(allowed)
                        + "\nPlease reload or reopen the client to update to a supported version."@
                }
            },
            _ => action is Unexpected && session_after == session && post == pre,
        },
{
}

/// A list of texts stands for its texts, one for one.
pub proof fn law_texts_view(texts: Seq<String>, i: int)
    requires
        0 <= i < texts.len(),
    ensures
        texts_view(texts).len() == texts.len(),
        texts_view(texts)[i] == texts[i]@,
{
}

} // verus!
