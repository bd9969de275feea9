//! What the environment of the server is turned into.

use vstd::prelude::*;
use vstd::string::*;

use crate::signaling::texts_view;

verus! {

/// The most files that the server asks to be allowed to open.
pub const FD_LIMIT: u64 = 65536;

/// Whether a limit is asked for only where it raises the present one, is the highest that is allowed up
/// to 65536, and is left alone only where nothing higher is allowed or wanted.
pub open spec fn is_fd_target(current: u64, hard: u64, target: Option<u64>) -> bool {
    match target {
        Some(limit) => {
            &&& current < limit
            &&& limit <= hard
            &&& limit <= 65536
            &&& limit == hard || limit == 65536
        },
        None => current >= hard || current >= 65536,
    }
}

/// The soft limit of open files to ask for, given the present one and the hard limit: as many as
/// the hard limit allows up to `FD_LIMIT`. `None` if there are as many already.
pub fn fd_limit_target(current: u64, hard: u64) -> (target: Option<u64>)
    ensures
        ({
            let wanted = if hard < FD_LIMIT {
                hard
            } else {
                FD_LIMIT
            };
            target == (if current < wanted {
                Some(wanted)
            } else {
                None
            })
        }),
        is_fd_target(current, hard, target),
{
    let wanted: u64 = if hard < FD_LIMIT {
        hard
    } else {
        FD_LIMIT
    };
    if current < wanted {
        Some(wanted)
    } else {
        None
    }
}

/// Whether Unicode counts a character as white space.
pub open spec fn is_white_space(c: char) -> bool {
    let code = c as u32;
    ||| 0x09 <= code <= 0x0d
    ||| code == 0x20
    ||| code == 0x85
    ||| code == 0xa0
    ||| code == 0x1680
    ||| 0x2000 <= code <= 0x200a
    ||| code == 0x2028
    ||| code == 0x2029
    ||| code == 0x202f
    ||| code == 0x205f
    ||| code == 0x3000
}

/// A text without the white space at both ends.
pub open spec fn trimmed(text: Seq<char>) -> Seq<char>
    decreases text.len(),
{
    if text.len() > 0 && is_white_space(text[0]) {
        trimmed(text.drop_first())
    } else if text.len() > 0 && is_white_space(text.last()) {
        trimmed(text.drop_last())
    } else {
        text
    }
}

/// The pieces of a text between its commas.
pub open spec fn comma_pieces(text: Seq<char>) -> Seq<Seq<char>>
    decreases text.len(),
{
    if text.len() == 0 {
        seq![Seq::empty()]
    } else {
        let pieces = comma_pieces(text.drop_last());
        if text.last() == ',' {
            pieces.push(Seq::empty())
        } else {
            pieces.drop_last().push(pieces.last().push(text.last()))
        }
    }
}

/// The versions that a comma-separated list names: its pieces, without white space at their ends.
pub open spec fn listed_versions(list: Seq<char>) -> Seq<Seq<char>> {
    comma_pieces(list).map_values(|piece: Seq<char>| trimmed(piece))
}

/// Whether Unicode counts a character as white space.
fn white_space(c: char) -> (white: bool)
    ensures
        white == is_white_space(c),
{
    let code: u32 = c as u32;
    (code >= 0x09 && code <= 0x0d) || code == 0x20 || code == 0x85 || code == 0xa0 || code == 0x1680
        || (code >= 0x2000 && code <= 0x200a) || code == 0x2028 || code == 0x2029 || code == 0x202f
        || code == 0x205f || code == 0x3000
}

/// The part of a text between two positions, without the white space at its ends.
fn trimmed_part(text: &str, from: usize, to: usize) -> (part: String)
    requires
        from <= to <= text@.len(),
    ensures
        part@ == trimmed(text@.subrange(from as int, to as int)),
{
    let mut start: usize = from;
    let mut end: usize = to;
    let ghost whole = trimmed(text@.subrange(from as int, to as int));
    while start < end && white_space(text.get_char(start))
        invariant
            from <= start <= end,
            end == to,
            to <= text@.len(),
            trimmed(text@.subrange(start as int, end as int)) == whole,
        decreases end - start,
    {
        assert(text@.subrange(start as int, end as int).drop_first() =~= text@.subrange(
            start + 1,
            end as int,
        ));
        start += 1;
    }
    while start < end && white_space(text.get_char(end - 1))
        invariant
            from <= start <= end <= to,
            to <= text@.len(),
            start < end ==> !is_white_space(text@[start as int]),
            trimmed(text@.subrange(start as int, end as int)) == whole,
        decreases end - start,
    {
        assert(text@.subrange(start as int, end as int).drop_last() =~= text@.subrange(
            start as int,
            end - 1,
        ));
        end -= 1;
    }
    assert(text@.subrange(start as int, end as int) == whole);
    text.substring_char(start, end).to_owned()
}

/// The versions that a comma-separated list names.
pub fn parse_versions(list: &String) -> (versions: Vec<String>)
    ensures
        texts_view(versions@) == listed_versions(list@),
{
    let text = list.as_str();
    let len: usize = text.unicode_len();
    let mut versions: Vec<String> = Vec::new();
    let mut start: usize = 0;
    let mut i: usize = 0;
    let ghost mut pieces: Seq<Seq<char>> = Seq::empty();
    assert(text@.take(0) =~= Seq::<char>::empty());
    assert(comma_pieces(text@.take(0)) =~= pieces.push(text@.subrange(0, 0)));
    while i < len
        invariant
            start <= i <= len,
            len == text@.len(),
            comma_pieces(text@.take(i as int)) == pieces.push(
                text@.subrange(start as int, i as int),
            ),
            texts_view(versions@) == pieces.map_values(|piece: Seq<char>| trimmed(piece)),
        decreases len - i,
    {
        let ghost last = text@.subrange(start as int, i as int);
        assert(text@.take(i + 1).drop_last() =~= text@.take(i as int));
        assert(pieces.push(last).drop_last() =~= pieces);
        if text.get_char(i) == ',' {
            let ghost before = versions@;
            versions.push(trimmed_part(text, start, i));
            proof {
                assert(texts_view(versions@) =~= texts_view(before).push(trimmed(last)));
                pieces = pieces.push(last);
                assert(texts_view(versions@) =~= pieces.map_values(
                    |piece: Seq<char>| trimmed(piece),
                ));
            }
            start = i + 1;
            assert(text@.subrange(i + 1, i + 1) =~= Seq::<char>::empty());
        } else {
            assert(text@.subrange(start as int, i + 1) =~= last.push(text@[i as int]));
        }
        i += 1;
    }
    let ghost last = text@.subrange(start as int, i as int);
    let ghost before = versions@;
    versions.push(trimmed_part(text, start, len));
    assert(text@.take(i as int) =~= text@);
    assert(texts_view(versions@) =~= texts_view(before).push(trimmed(last)));
    assert(texts_view(versions@) =~= listed_versions(list@));
    versions
}

/// The versions that clients may have: those of the list, or `0.0.0` alone where none is given.
pub fn allowed_versions(list: Option<String>) -> (versions: Vec<String>)
    ensures
        texts_view(versions@) == listed_versions(
            match list {
                Some(list) => list@,
                None => "0.0.0"@,
            },
        ),
{
    match list {
        Some(list) => parse_versions(&list),
        None => parse_versions(&"0.0.0".to_string()),
    }
}

/// For how long credentials for relay servers are asked for, in seconds.
pub const TURN_TTL_SECS: i32 = 86400;

/// What is asked for when credentials for relay servers are wanted.
pub struct TurnRequest {
    /// Where they are asked for.
    pub url: String,
    /// The authorization header.
    pub authorization: String,
    /// For how long they are to be valid, in seconds.
    pub ttl: i32,
}

/// How credentials for relay servers are asked for, given the key and its secret. Without either of
/// them they are not.
pub fn turn_request(token_id: Option<String>, secret: Option<String>) -> (request: Option<
    TurnRequest,
>)
    ensures
        match (token_id, secret) {
            (Some(id), Some(secret)) => {
                &&& request matches Some(request)
                &&& request.url@ == "https://rtc.live.cloudflare.com/v1/turn/keys/"@ + id@
                    + "/credentials/generate-ice-servers"@
                &&& request.authorization@ == "Bearer "@ + secret@
                &&& request.ttl == TURN_TTL_SECS
            },
            _ => request is None,
        },
{
    match (token_id, secret) {
        (Some(id), Some(secret)) => {
            let mut url = "https://rtc.live.cloudflare.com/v1/turn/keys/".to_string();
            url.append(id.as_str());
            url.append("/credentials/generate-ice-servers");
            let mut authorization = "Bearer ".to_string();
            authorization.append(secret.as_str());
            Some(TurnRequest { url, authorization, ttl: TURN_TTL_SECS })
        },
        _ => None,
    }
}

/// The addresses of relay servers to hand to a client, given what came of asking for them: whether
/// the reply reports success, and its text if it could be read. `None` stands for no reply.
pub fn ice_config(reply: Option<(bool, Option<String>)>) -> (config: Option<String>)
    ensures
        config == (match reply {
            Some((true, text)) => text,
            _ => None,
        }),
{
    match reply {
        Some((true, text)) => text,
        _ => None,
    }
}

/// Texts with a comma between each two.
pub open spec fn with_commas(pieces: Seq<Seq<char>>) -> Seq<char>
    decreases pieces.len(),
{
    if pieces.len() == 0 {
        Seq::empty()
    } else if pieces.len() == 1 {
        pieces[0]
    } else {
        with_commas(pieces.drop_last()).push(',') + pieces.last()
    }
}

/// The pieces of a text hold no comma, and with commas between them they are the text.
pub proof fn law_pieces(text: Seq<char>)
    ensures
        comma_pieces(text).len() > 0,
        with_commas(comma_pieces(text)) == text,
        forall|i: int|
            0 <= i < comma_pieces(text).len() ==> !(#[trigger] comma_pieces(text)[i]).contains(','),
    decreases text.len(),
{
    let all = comma_pieces(text);
    if text.len() == 0 {
        assert(with_commas(all) =~= text);
    } else {
        let rest = text.drop_last();
        let pieces = comma_pieces(rest);
        law_pieces(rest);
        assert(text =~= rest.push(text.last()));
        if text.last() == ',' {
            assert(all.drop_last() =~= pieces);
            assert(with_commas(all) =~= text);
        } else {
            assert(all.drop_last() =~= pieces.drop_last());
            assert(with_commas(all) =~= text);
            let grown = pieces.last().push(text.last());
            assert forall|i: int| 0 <= i < all.len() implies !(#[trigger] all[i]).contains(',') by {
                if i == all.len() - 1 {
                    assert(all[i] == grown);
                    assert(!pieces[pieces.len() - 1].contains(','));
                    if grown.contains(',') {
                        let k = grown.index_of(',');
                        assert(pieces.last()[k] == ',');
                    }
                } else {
                    assert(all[i] == pieces[i]);
                }
            }
        }
    }
}

/// Whether the part of the text between two places has no white space at its ends, and there is nothing
/// but white space before and behind it.
pub open spec fn is_core(text: Seq<char>, from: int, to: int) -> bool {
    &&& 0 <= from <= to <= text.len()
    &&& from < to ==> !is_white_space(text[from]) && !is_white_space(text[to - 1])
    &&& forall|i: int| 0 <= i < from ==> is_white_space(#[trigger] text[i])
    &&& forall|i: int| to <= i < text.len() ==> is_white_space(#[trigger] text[i])
}

/// A trimmed text is the text without the white space at its ends, and without anything else.
pub proof fn law_trimmed(text: Seq<char>) -> (ends: (int, int))
    ensures
        is_core(text, ends.0, ends.1),
        trimmed(text) == text.subrange(ends.0, ends.1),
    decreases text.len(),
{
    if text.len() > 0 && is_white_space(text[0]) {
        let rest = text.drop_first();
        let (from, to) = law_trimmed(rest);
        assert(text.subrange(from + 1, to + 1) =~= rest.subrange(from, to));
        assert forall|i: int| 0 <= i < from + 1 implies is_white_space(#[trigger] text[i]) by {
            if i > 0 {
                assert(rest[i - 1] == text[i]);
            }
        }
        assert forall|i: int| to + 1 <= i < text.len() implies is_white_space(
            #[trigger] text[i],
        ) by {
            assert(rest[i - 1] == text[i]);
        }
        (from + 1, to + 1)
    } else if text.len() > 0 && is_white_space(text.last()) {
        let rest = text.drop_last();
        let (from, to) = law_trimmed(rest);
        assert(text.subrange(from, to) =~= rest.subrange(from, to));
        assert forall|i: int| 0 <= i < from implies is_white_space(#[trigger] text[i]) by {
            assert(rest[i] == text[i]);
        }
        assert forall|i: int| to <= i < text.len() implies is_white_space(#[trigger] text[i]) by {
            if i < rest.len() {
                assert(rest[i] == text[i]);
            }
        }
        (from, to)
    } else {
        assert(text.subrange(0, text.len() as int) =~= text);
        (0, text.len() as int)
    }
}

/// The versions of a list are its pieces, one for one, each trimmed.
pub proof fn law_versions(list: Seq<char>, i: int)
    requires
        0 <= i < comma_pieces(list).len(),
    ensures
        listed_versions(list).len() == comma_pieces(list).len(),
        listed_versions(list)[i] == trimmed(comma_pieces(list)[i]),
{
}

} // verus!
