//! Rooms: who sits in one, who owns it, and how a match starts and ends in it.

use vstd::prelude::*;
use vstd::string::*;

use std::collections::HashMap;

use crate::ids::Uuid;
use crate::lists::{drop_id, drop_player, has_id, has_player};
use crate::lists::{
    player_ids, player_view, players_view, players_without, without, PlayerView,
};

verus! {

broadcast use vstd::std_specs::hash::group_hash_axioms;

/// What kind of match a room is for.
#[derive(Clone, Copy, Debug, PartialEq, Eq, Structural)]
pub enum RoomTag {
    PuyoTet,
    PuyoOnly,
    TetOnly,
    Casual,
    Competitive,
}

impl RoomTag {
    /// The number that stands for the tag in messages.
    pub open spec fn spec_code(self) -> u32 {
        match self {
            RoomTag::PuyoTet => 0,
            RoomTag::PuyoOnly => 1,
            RoomTag::TetOnly => 2,
            RoomTag::Casual => 3,
            RoomTag::Competitive => 4,
        }
    }

    /// The tag that a number stands for; a number that stands for none means `Casual`.
    pub open spec fn spec_from_code(code: u32) -> RoomTag {
        if code == 0 {
            RoomTag::PuyoTet
        } else if code == 1 {
            RoomTag::PuyoOnly
        } else if code == 2 {
            RoomTag::TetOnly
        } else if code == 4 {
            RoomTag::Competitive
        } else {
            RoomTag::Casual
        }
    }

    /// The number that stands for the tag in messages.
    pub fn code(self) -> (code: u32)
        ensures
            code == self.spec_code(),
    {
        match self {
            RoomTag::PuyoTet => 0,
            RoomTag::PuyoOnly => 1,
            RoomTag::TetOnly => 2,
            RoomTag::Casual => 3,
            RoomTag::Competitive => 4,
        }
    }

    /// The tag that a number stands for; a number that stands for none means `Casual`.
    pub fn from_code(code: u32) -> (tag: RoomTag)
        ensures
            tag == RoomTag::spec_from_code(code),
    {
        match code {
            0 => RoomTag::PuyoTet,
            1 => RoomTag::PuyoOnly,
            2 => RoomTag::TetOnly,
            3 => RoomTag::Casual,
            4 => RoomTag::Competitive,
            _ => RoomTag::Casual,
        }
    }
}

/// The tags that a list of numbers stands for.
pub open spec fn tags_of_codes(codes: Seq<u32>) -> Seq<RoomTag> {
    codes.map_values(|code: u32| RoomTag::spec_from_code(code))
}

/// The numbers that stand for a list of tags.
pub open spec fn codes_of_tags(tags: Seq<RoomTag>) -> Seq<u32> {
    tags.map_values(|tag: RoomTag| tag.spec_code())
}

/// The tags that a list of numbers stands for.
pub fn tags_from_codes(codes: &Vec<u32>) -> (tags: Vec<RoomTag>)
    ensures
        tags@ == tags_of_codes(codes@),
{
    let mut tags: Vec<RoomTag> = Vec::new();
    let mut i: usize = 0;
    while i < codes.len()
        invariant
            i <= codes@.len(),
            tags@ == tags_of_codes(codes@.take(i as int)),
        decreases codes@.len() - i,
    {
        tags.push(RoomTag::from_code(codes[i]));
        i += 1;
        assert(tags@ =~= tags_of_codes(codes@.take(i as int)));
    }
    assert(codes@.take(i as int) =~= codes@);
    tags
}

/// The numbers that stand for a list of tags.
pub fn tags_to_codes(tags: &Vec<RoomTag>) -> (codes: Vec<u32>)
    ensures
        codes@ == codes_of_tags(tags@),
{
    let mut codes: Vec<u32> = Vec::new();
    let mut i: usize = 0;
    while i < tags.len()
        invariant
            i <= tags@.len(),
            codes@ == codes_of_tags(tags@.take(i as int)),
        decreases tags@.len() - i,
    {
        codes.push(tags[i].code());
        i += 1;
        assert(codes@ =~= codes_of_tags(tags@.take(i as int)));
    }
    assert(tags@.take(i as int) =~= tags@);
    codes
}

/// A tag is read back from the number that stands for it.
pub proof fn law_tag_round_trip(tag: RoomTag)
    ensures
        RoomTag::spec_from_code(tag.spec_code()) == tag,
{
}

/// Whether a room is open for players or has a match running.
#[derive(Clone, Copy, Debug, PartialEq, Eq, Structural)]
pub enum RoomStatus {
    Waiting,
    Playing,
}

/// What the death of a player means for the match.
#[derive(Clone, Copy, Debug, PartialEq, Eq, Structural)]
pub enum WinnerStatus {
    /// Nothing is decided by it.
    MatchContinues,
    /// The player lived longest and has won.
    Winner(Uuid),
    /// Nobody has won. No match ends so.
    Draw,
}

/// A room of the lobby.
#[derive(Clone)]
pub struct Room {
    /// Whether a match is running.
    pub status: RoomStatus,
    /// The player who owns the room.
    pub owner: Uuid,
    /// The players: identifier, name and rule (`"tet"` or `"puyo"`), in the order of arrival.
    pub players: Vec<(Uuid, String, String)>,
    /// The name shown in the room list.
    pub room_name: String,
    /// How many players fit.
    pub max_players: u8,
    /// Whether the room is listed; otherwise it can be joined by its code alone.
    pub is_public: bool,
    /// What kind of match the room is for.
    pub tags: Vec<RoomTag>,
    /// The short code that friends join by.
    pub code: String,
    /// The settings of the match, as JSON text. `"{}"` at first.
    pub match_setting: String,
    /// The players still alive in the running match.
    pub alive_players: Vec<Uuid>,
    /// The players who declared themselves ready.
    pub ready_players: Vec<Uuid>,
    /// The round-trip times in milliseconds that the players reported.
    pub pings: HashMap<Uuid, u32>,
}

/// What a room stands for.
#[verifier::ext_equal]
pub struct RoomView {
    pub status: RoomStatus,
    pub owner: Uuid,
    pub players: Seq<PlayerView>,
    pub room_name: Seq<char>,
    pub max_players: u8,
    pub is_public: bool,
    pub tags: Seq<RoomTag>,
    pub code: Seq<char>,
    pub match_setting: Seq<char>,
    pub alive_players: Seq<Uuid>,
    pub ready_players: Seq<Uuid>,
    pub pings: Map<Uuid, u32>,
}

impl View for Room {
    type V = RoomView;

    open spec fn view(&self) -> RoomView {
        RoomView {
            status: self.status,
            owner: self.owner,
            players: players_view(self.players@),
            room_name: self.room_name@,
            max_players: self.max_players,
            is_public: self.is_public,
            tags: self.tags@,
            code: self.code@,
            match_setting: self.match_setting@,
            alive_players: self.alive_players@,
            ready_players: self.ready_players@,
            pings: self.pings@,
        }
    }
}

/// Names separated by a comma and a space.
pub open spec fn comma_separated(names: Seq<Seq<char>>) -> Seq<char>
    decreases names.len(),
{
    if names.len() == 0 {
        Seq::empty()
    } else if names.len() == 1 {
        names[0]
    } else {
        comma_separated(names.drop_last()) + ", "@ + names.last()
    }
}

impl RoomView {
    /// Whether the player sits in the room.
    pub open spec fn has_player(self, id: Uuid) -> bool {
        player_ids(self.players).contains(id)
    }

    /// How many players sit in the room, as messages and limits count them: in one byte.
    pub open spec fn player_count(self) -> u8 {
        self.players.len() as u8
    }

    /// Whether the room list shows the room.
    pub open spec fn is_listed(self) -> bool {
        self.status == RoomStatus::Waiting && self.is_public
    }

    /// Why the player cannot join, if they cannot. One who already sits there can.
    pub open spec fn join_refusal(self, id: Uuid) -> Option<Seq<char>> {
        if self.status != RoomStatus::Waiting {
            Some("Game has already started"@)
        } else if !self.has_player(id) && self.player_count() >= self.max_players {
            Some("Room is full"@)
        } else {
            None
        }
    }

    /// The room with one more player, who is not ready.
    pub open spec fn joined(self, player: PlayerView) -> RoomView {
        RoomView {
            players: self.players.push(player),
            ready_players: without(self.ready_players, player.id),
            ..self
        }
    }

    /// The room without the player. If the owner left, the player who has been there longest owns it.
    pub open spec fn left(self, id: Uuid) -> RoomView {
        let rest = players_without(self.players, id);
        RoomView {
            players: rest,
            alive_players: without(self.alive_players, id),
            ready_players: without(self.ready_players, id),
            pings: self.pings.remove(id),
            owner: if self.owner == id && rest.len() > 0 {
                rest[0].id
            } else {
                self.owner
            },
            ..self
        }
    }

    /// The room with the rule of the player's first entry replaced.
    pub open spec fn with_rule(self, id: Uuid, rule: Seq<char>) -> RoomView {
        RoomView { players: players_with_rule(self.players, id, rule), ..self }
    }

    /// The room with the player ready, or not.
    pub open spec fn with_ready(self, id: Uuid, ready: bool) -> RoomView {
        let others = without(self.ready_players, id);
        RoomView {
            ready_players: if ready {
                others.push(id)
            } else {
                others
            },
            ..self
        }
    }

    /// The players who hold up the start: neither owner nor ready.
    pub open spec fn not_ready(self) -> Seq<PlayerView> {
        self.players.filter(self.holds_up())
    }

    /// The players who are neither the owner nor ready.
    pub open spec fn holds_up(self) -> spec_fn(PlayerView) -> bool {
        |p: PlayerView| p.id != self.owner && !self.ready_players.contains(p.id)
    }

    /// Why a match cannot start, if it cannot.
    pub open spec fn start_refusal(self) -> Option<Seq<char>> {
        if self.status != RoomStatus::Waiting {
            Some("Game already started"@)
        } else if self.players.len() < 2 {
            Some("Need at least 2 players"@)
        } else if self.not_ready().len() > 0 {
            Some("Not all players are ready: "@ + comma_separated(player_names(self.not_ready())))
        } else {
            None
        }
    }

    /// The room with a match begun: everybody alive, nobody ready.
    pub open spec fn started(self) -> RoomView {
        RoomView {
            status: RoomStatus::Playing,
            alive_players: player_ids(self.players),
            ready_players: Seq::empty(),
            ..self
        }
    }

    /// What the death of the player decides. Who lives longest wins: the only other one alive or,
    /// where nobody else is, the player who was alive until now.
    pub open spec fn decision(self, id: Uuid) -> WinnerStatus {
        let others = without(self.alive_players, id);
        if self.status != RoomStatus::Playing || others.len() > 1 {
            WinnerStatus::MatchContinues
        } else if others.len() == 1 {
            WinnerStatus::Winner(others[0])
        } else if self.alive_players.contains(id) {
            WinnerStatus::Winner(id)
        } else {
            WinnerStatus::MatchContinues
        }
    }

    /// The room after the death of the player. With at most one other alive the match is over, and
    /// the room waits again.
    pub open spec fn after_death(self, id: Uuid) -> RoomView {
        if self.status != RoomStatus::Playing {
            self
        } else if without(self.alive_players, id).len() > 1 {
            RoomView { alive_players: without(self.alive_players, id), ..self }
        } else {
            RoomView {
                status: RoomStatus::Waiting,
                alive_players: Seq::empty(),
                ready_players: Seq::empty(),
                ..self
            }
        }
    }
}

/// The names of a list of players, in order.
pub open spec fn player_names(players: Seq<PlayerView>) -> Seq<Seq<char>> {
    players.map_values(|p: PlayerView| p.name)
}

/// The players with the rule of the first one called `id` replaced.
pub open spec fn players_with_rule(players: Seq<PlayerView>, id: Uuid, rule: Seq<char>) -> Seq<
    PlayerView,
> {
    Seq::new(
        players.len(),
        |i: int|
            if players[i].id == id && (forall|j: int| 0 <= j < i ==> (#[trigger] players[j]).id != id) {
                PlayerView { rule, ..players[i] }
            } else {
                players[i]
            },
    )
}

impl Room {
    /// Whether the player sits in the room.
    pub fn has_player(&self, id: Uuid) -> (found: bool)
        ensures
            found == self@.has_player(id),
    {
        has_player(&self.players, id)
    }

    /// Adds a player, who is not ready.
    pub(crate) fn join(&mut self, id: Uuid, username: String, rule: String)
        ensures
            final(self)@ == old(self)@.joined(
                PlayerView { id, name: username@, rule: rule@ },
            ),
    {
        self.players.push((id, username, rule));
        drop_id(&mut self.ready_players, id);
        assert(self@.players =~= old(self)@.players.push(
            PlayerView { id, name: username@, rule: rule@ },
        ));
    }

    /// Takes the player out, and passes the room on if they owned it.
    pub(crate) fn leave(&mut self, id: Uuid)
        ensures
            final(self)@ == old(self)@.left(id),
    {
        drop_player(&mut self.players, id);
        drop_id(&mut self.alive_players, id);
        drop_id(&mut self.ready_players, id);
        let _ = self.pings.remove(&id);
        if self.owner == id {
            if self.players.len() > 0 {
                self.owner = self.players[0].0;
                assert(players_view(self.players@)[0].id == self.owner);
            }
        }
    }

    /// Replaces the rule of the player's first entry.
    pub(crate) fn set_rule(&mut self, id: Uuid, rule: String)
        ensures
            final(self)@ == old(self)@.with_rule(id, rule@),
    {
        let mut i: usize = 0;
        while i < self.players.len()
            invariant
                i <= self.players@.len(),
                *self == *old(self),
                forall|j: int| 0 <= j < i ==> (#[trigger] self.players@[j]).0 != id,
            decreases self.players@.len() - i,
        {
            if self.players[i].0 == id {
                let ghost before = players_view(self.players@);
                let entry = self.players.remove(i);
                self.players.insert(i, (entry.0, entry.1, rule));
                assert(players_view(self.players@) =~= players_with_rule(before, id, rule@)) by {
                    assert forall|j: int| 0 <= j < i implies (#[trigger] before[j]).id != id by {
                        assert(before[j] == player_view(old(self).players@[j]));
                    }
                    assert(before[i as int].id == id);
                }
                return;
            }
            i += 1;
        }
        assert(players_view(self.players@) =~= players_with_rule(
            players_view(self.players@),
            id,
            rule@,
        ));
    }

    /// Declares the player ready, or not.
    pub(crate) fn set_ready(&mut self, id: Uuid, ready: bool)
        ensures
            final(self)@ == old(self)@.with_ready(id, ready),
    {
        drop_id(&mut self.ready_players, id);
        if ready {
            self.ready_players.push(id);
        }
    }

    /// The names of those who hold up the start, separated by a comma and a space; `None` if
    /// nobody does.
    pub(crate) fn not_ready_names(&self) -> (names: Option<String>)
        ensures
            match names {
                Some(text) => {
                    &&& self@.not_ready().len() > 0
                    &&& text@ == comma_separated(player_names(self@.not_ready()))
                },
                None => self@.not_ready().len() == 0,
            },
    {
        let ghost players = self@.players;
        let ghost keep = self@.holds_up();
        let mut names: Option<String> = None;
        let mut i: usize = 0;
        proof {
            reveal(Seq::filter);
        }
        while i < self.players.len()
            invariant
                i <= self.players@.len(),
                players == self@.players,
                keep == self@.holds_up(),
                match names {
                    Some(text) => {
                        &&& players.take(i as int).filter(keep).len() > 0
                        &&& text@ == comma_separated(
                            player_names(players.take(i as int).filter(keep)),
                        )
                    },
                    None => players.take(i as int).filter(keep).len() == 0,
                },
            decreases self.players@.len() - i,
        {
            let ghost before = players.take(i as int).filter(keep);
            let ghost player = players[i as int];
            proof {
                players.lemma_take_succ_push(i as int);
                players.take(i as int).lemma_filter_push(player, keep);
            }
            if self.players[i].0 != self.owner && !has_id(&self.ready_players, self.players[i].0) {
                proof {
                    let after = before.push(player);
                    assert(player_names(after).drop_last() =~= player_names(before));
                    assert(player_names(after).last() == player.name);
                }
                names = match names {
                    Some(text) => {
                        let mut text = text;
                        text.append(", ");
                        text.append(self.players[i].1.as_str());
                        Some(text)
                    },
                    None => Some(self.players[i].1.clone()),
                };
            }
            i += 1;
        }
        assert(players.take(i as int) =~= players);
        names
    }

    /// Why a match cannot start, if it cannot.
    pub(crate) fn start_refusal(&self) -> (refusal: Option<String>)
        ensures
            match refusal {
                Some(text) => self@.start_refusal() == Some(text@),
                None => self@.start_refusal() is None,
            },
    {
        if self.status != RoomStatus::Waiting {
            return Some("Game already started".to_string());
        }
        if self.players.len() < 2 {
            return Some("Need at least 2 players".to_string());
        }
        match self.not_ready_names() {
            Some(names) => {
                let mut text = "Not all players are ready: ".to_string();
                text.append(names.as_str());
                Some(text)
            },
            None => None,
        }
    }

    /// Begins a match: everybody alive, nobody ready.
    pub(crate) fn start(&mut self)
        ensures
            final(self)@ == old(self)@.started(),
    {
        self.status = RoomStatus::Playing;
        let mut alive: Vec<Uuid> = Vec::new();
        let mut i: usize = 0;
        while i < self.players.len()
            invariant
                i <= self.players@.len(),
                alive@ == player_ids(players_view(self.players@)).take(i as int),
            decreases self.players@.len() - i,
        {
            alive.push(self.players[i].0);
            i += 1;
            assert(alive@ =~= player_ids(players_view(self.players@)).take(i as int));
        }
        assert(alive@ =~= player_ids(players_view(self.players@)));
        self.alive_players = alive;
        self.ready_players.clear();
    }

    /// Records the death of a player and says what it decides.
    pub(crate) fn record_death(&mut self, id: Uuid) -> (decision: WinnerStatus)
        ensures
            decision == old(self)@.decision(id),
            final(self)@ == old(self)@.after_death(id),
    {
        if self.status != RoomStatus::Playing {
            return WinnerStatus::MatchContinues;
        }
        let was_alive = has_id(&self.alive_players, id);
        drop_id(&mut self.alive_players, id);
        let others: usize = self.alive_players.len();
        if others > 1 {
            return WinnerStatus::MatchContinues;
        }
        let decision = if others == 1 {
            WinnerStatus::Winner(self.alive_players[0])
        } else if was_alive {
            WinnerStatus::Winner(id)
        } else {
            WinnerStatus::MatchContinues
        };
        self.status = RoomStatus::Waiting;
        self.alive_players.clear();
        self.ready_players.clear();
        decision
    }
}

/// A room stands for its fields.
pub proof fn law_room_view(room: Room, i: int)
    ensures
        room@.status == room.status,
        room@.owner == room.owner,
        room@.players.len() == room.players@.len(),
        0 <= i < room.players@.len() ==> {
            &&& room@.players[i].id == room.players@[i].0
            &&& room@.players[i].name == room.players@[i].1@
            &&& room@.players[i].rule == room.players@[i].2@
        },
        room@.room_name == room.room_name@,
        room@.max_players == room.max_players,
        room@.is_public == room.is_public,
        room@.tags == room.tags@,
        room@.code == room.code@,
        room@.match_setting == room.match_setting@,
        room@.alive_players == room.alive_players@,
        room@.ready_players == room.ready_players@,
        room@.pings == room.pings@,
{
}

} // verus!
