//! Removing one identifier from the lists that a room keeps.

use vstd::prelude::*;

use crate::ids::Uuid;

verus! {

/// A player as the lobby sees one: identifier, display name and rule.
#[verifier::ext_equal]
pub struct PlayerView {
    pub id: Uuid,
    pub name: Seq<char>,
    pub rule: Seq<char>,
}

/// What a stored `(id, name, rule)` entry stands for.
pub open spec fn player_view(entry: (Uuid, String, String)) -> PlayerView {
    PlayerView { id: entry.0, name: entry.1@, rule: entry.2@ }
}

/// What a list of stored entries stands for.
pub open spec fn players_view(entries: Seq<(Uuid, String, String)>) -> Seq<PlayerView> {
    entries.map_values(|entry: (Uuid, String, String)| player_view(entry))
}

/// The identifiers of a list of players, in order.
pub open spec fn player_ids(players: Seq<PlayerView>) -> Seq<Uuid> {
    players.map_values(|p: PlayerView| p.id)
}

/// The identifiers other than `id`.
pub open spec fn other_than(id: Uuid) -> spec_fn(Uuid) -> bool {
    |x: Uuid| x != id
}

/// The players whose identifier is not `id`.
pub open spec fn player_other_than(id: Uuid) -> spec_fn(PlayerView) -> bool {
    |p: PlayerView| p.id != id
}

/// A list of identifiers without any occurrence of `id`; the order of the rest stays.
pub open spec fn without(ids: Seq<Uuid>, id: Uuid) -> Seq<Uuid> {
    ids.filter(other_than(id))
}

/// A list of players without those whose identifier is `id`; the order of the rest stays.
pub open spec fn players_without(players: Seq<PlayerView>, id: Uuid) -> Seq<PlayerView> {
    players.filter(player_other_than(id))
}

/// Removing an element that a filter drops does not change the filtered sequence.
pub proof fn lemma_filter_remove<A>(s: Seq<A>, i: int, keep: spec_fn(A) -> bool)
    requires
        0 <= i < s.len(),
        !keep(s[i]),
    ensures
        s.remove(i).filter(keep) == s.filter(keep),
{
    let head = s.take(i);
    let tail = s.skip(i + 1);
    assert(s =~= head.push(s[i]) + tail);
    assert(s.remove(i) =~= head + tail);
    Seq::filter_distributes_over_add(head.push(s[i]), tail, keep);
    Seq::filter_distributes_over_add(head, tail, keep);
    head.lemma_filter_push(s[i], keep);
}

/// A filter that drops nothing leaves the sequence as it is.
pub proof fn lemma_filter_all<A>(s: Seq<A>, keep: spec_fn(A) -> bool)
    requires
        forall|i: int| 0 <= i < s.len() ==> keep(#[trigger] s[i]),
    ensures
        s.filter(keep) == s,
    decreases s.len(),
{
    reveal(Seq::filter);
    if s.len() > 0 {
        lemma_filter_all(s.drop_last(), keep);
        assert(s =~= s.drop_last().push(s.last()));
    }
}

/// A list without `id` holds the other identifiers of the list, each as often, and is no longer.
pub proof fn lemma_without(ids: Seq<Uuid>, id: Uuid)
    ensures
        forall|x: Uuid| #[trigger] without(ids, id).contains(x) <==> ids.contains(x) && x != id,
        ids.no_duplicates() ==> without(ids, id).no_duplicates(),
        without(ids, id).len() <= ids.len(),
        ids.contains(id) ==> without(ids, id).len() < ids.len(),
        !ids.contains(id) ==> without(ids, id) == ids,
    decreases ids.len(),
{
    reveal(Seq::filter);
    if ids.len() > 0 {
        let rest = ids.drop_last();
        let last = ids.last();
        lemma_without(rest, id);
        assert(ids =~= rest.push(last));
        assert forall|x: Uuid| #[trigger] ids.contains(x) <==> rest.contains(x) || x == last by {
            vstd::seq_lib::lemma_seq_contains_after_push(rest, last, x);
        }
        let kept = without(rest, id);
        if last != id {
            assert(without(ids, id) =~= kept.push(last));
            assert forall|x: Uuid| #[trigger]
                without(ids, id).contains(x) <==> kept.contains(x) || x == last by {
                vstd::seq_lib::lemma_seq_contains_after_push(kept, last, x);
            }
            if ids.no_duplicates() {
                assert(!rest.contains(last));
                assert(!kept.contains(last));
                assert forall|i: int, j: int| 0 <= i < j < kept.push(last).len() implies kept.push(
                    last,
                )[i] != kept.push(last)[j] by {
                    assert(kept.contains(kept[i]));
                }
            }
        } else {
            assert(ids[ids.len() - 1] == id);
        }
    } else {
        assert(without(ids, id) =~= ids);
    }
}

/// Taking a member out of a list without repetitions makes it shorter by one.
pub proof fn lemma_without_member(ids: Seq<Uuid>, id: Uuid)
    requires
        ids.no_duplicates(),
        ids.contains(id),
    ensures
        without(ids, id).len() == ids.len() - 1,
{
    let i = ids.index_of(id);
    let rest = ids.remove(i);
    lemma_filter_remove(ids, i, other_than(id));
    assert forall|j: int| 0 <= j < rest.len() implies other_than(id)(#[trigger] rest[j]) by {
        assert(rest[j] == ids[if j < i {
            j
        } else {
            j + 1
        }]);
    }
    lemma_filter_all(rest, other_than(id));
}

/// Taking a player out of a list takes their identifier out of the identifiers.
pub proof fn lemma_players_without(players: Seq<PlayerView>, id: Uuid)
    ensures
        player_ids(players_without(players, id)) == without(player_ids(players), id),
    decreases players.len(),
{
    reveal(Seq::filter);
    if players.len() > 0 {
        lemma_players_without(players.drop_last(), id);
        assert(player_ids(players).drop_last() =~= player_ids(players.drop_last()));
    }
    assert(player_ids(players_without(players, id)) =~= without(player_ids(players), id));
}

/// Drops every occurrence of `id` from a list of identifiers.
pub(crate) fn drop_id(ids: &mut Vec<Uuid>, id: Uuid)
    ensures
        final(ids)@ == without(old(ids)@, id),
{
    let mut i: usize = 0;
    while i < ids.len()
        invariant
            i <= ids@.len(),
            forall|j: int| 0 <= j < i ==> ids@[j] != id,
            without(ids@, id) == without(old(ids)@, id),
        decreases ids@.len() - i,
    {
        if ids[i] == id {
            proof {
                lemma_filter_remove(ids@, i as int, other_than(id));
            }
            let _ = ids.remove(i);
        } else {
            i += 1;
        }
    }
    proof {
        lemma_filter_all(ids@, other_than(id));
    }
}

/// Drops every entry whose identifier is `id` from a list of players.
pub(crate) fn drop_player(entries: &mut Vec<(Uuid, String, String)>, id: Uuid)
    ensures
        players_view(final(entries)@) == players_without(players_view(old(entries)@), id),
{
    let mut i: usize = 0;
    while i < entries.len()
        invariant
            i <= entries@.len(),
            forall|j: int| 0 <= j < i ==> (#[trigger] entries@[j]).0 != id,
            players_without(players_view(entries@), id) == players_without(
                players_view(old(entries)@),
                id,
            ),
        decreases entries@.len() - i,
    {
        if entries[i].0 == id {
            let ghost before = players_view(entries@);
            let _ = entries.remove(i);
            proof {
                lemma_filter_remove(before, i as int, player_other_than(id));
                assert(players_view(entries@) =~= before.remove(i as int));
            }
        } else {
            i += 1;
        }
    }
    proof {
        lemma_filter_all(players_view(entries@), player_other_than(id));
    }
}

/// Tells whether `id` is among a list of identifiers.
pub(crate) fn has_id(ids: &Vec<Uuid>, id: Uuid) -> (found: bool)
    ensures
        found == ids@.contains(id),
{
    let mut i: usize = 0;
    while i < ids.len()
        invariant
            i <= ids@.len(),
            forall|j: int| 0 <= j < i ==> ids@[j] != id,
        decreases ids@.len() - i,
    {
        if ids[i] == id {
            return true;
        }
        i += 1;
    }
    false
}

/// Tells whether a player with identifier `id` is among the entries.
pub(crate) fn has_player(entries: &Vec<(Uuid, String, String)>, id: Uuid) -> (found: bool)
    ensures
        found == player_ids(players_view(entries@)).contains(id),
{
    let mut i: usize = 0;
    while i < entries.len()
        invariant
            i <= entries@.len(),
            forall|j: int| 0 <= j < i ==> (#[trigger] entries@[j]).0 != id,
        decreases entries@.len() - i,
    {
        if entries[i].0 == id {
            assert(player_ids(players_view(entries@))[i as int] == id);
            return true;
        }
        i += 1;
    }
    false
}

} // verus!
