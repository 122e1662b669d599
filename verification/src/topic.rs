//! The three-segment topic convention: a topic is `role/id/plugName`.
//!
//! `split_slash` is the mathematical model of splitting a string on `/`;
//! the parse functions recover one segment each and yield `None` on any
//! string with fewer than three segments, so that foreign topics on the
//! bus never abort aggregation.

use vstd::prelude::*;

verus! {

/// No character of `s` is the `/` separator.
pub open spec fn no_slash(s: Seq<char>) -> bool {
    forall|i: int| 0 <= i < s.len() ==> s[i] != '/'
}

/// The segments of `t`, split on `/`; there is always at least one segment,
/// and empty segments are kept (`a//b` has three segments).
pub open spec fn split_slash(t: Seq<char>) -> Seq<Seq<char>>
    decreases t.len(),
{
    if t.len() == 0 {
        seq![Seq::<char>::empty()]
    } else if t[0] == '/' {
        seq![Seq::<char>::empty()] + split_slash(t.drop_first())
    } else {
        let rest = split_slash(t.drop_first());
        seq![seq![t[0]] + rest[0]] + rest.drop_first()
    }
}

/// How many segments `t` has.
pub open spec fn num_segments(t: Seq<char>) -> nat {
    split_slash(t).len()
}

/// Segment `k` of a topic that follows the convention (at least three
/// segments), or `None` for a malformed topic.
pub open spec fn parse_part(t: Seq<char>, k: int) -> Option<Seq<char>>
    recommends
        0 <= k < 3,
{
    if num_segments(t) >= 3 {
        Some(split_slash(t)[k])
    } else {
        None
    }
}

/// The topic string `role/id/plugName`.
pub open spec fn topic_of(role: Seq<char>, id: Seq<char>, plug_name: Seq<char>) -> Seq<char> {
    role + seq!['/'] + id + seq!['/'] + plug_name
}

pub proof fn lemma_split_slash_len(t: Seq<char>)
    ensures
        split_slash(t).len() >= 1,
    decreases t.len(),
{
    if t.len() == 0 {
    } else {
        lemma_split_slash_len(t.drop_first())
    }
}

/// Splitting at the first separator: if no `/` occurs before position `i`,
/// the first segment runs up to `i`, and the remaining segments are those
/// of the text after position `i`.
pub proof fn lemma_split_at_slash(t: Seq<char>, i: int)
    requires
        0 <= i <= t.len(),
        forall|k: int| 0 <= k < i ==> t[k] != '/',
        i < t.len() ==> t[i] == '/',
    ensures
        i == t.len() ==> split_slash(t) == seq![t],
        i < t.len() ==> split_slash(t) == seq![t.take(i)] + split_slash(t.skip(i + 1)),
    decreases i,
{
    lemma_split_slash_len(t.drop_first());
    if i == 0 {
        if t.len() == 0 {
            assert(t =~= Seq::<char>::empty());
            assert(split_slash(t) =~= seq![t]);
        } else {
            assert(t.take(0) =~= Seq::<char>::empty());
            assert(t.skip(1) =~= t.drop_first());
            assert(split_slash(t) =~= seq![t.take(0)] + split_slash(t.skip(1)));
        }
    } else {
        let rest = t.drop_first();
        lemma_split_at_slash(rest, i - 1);
        let parts = split_slash(rest);
        if i == t.len() {
            assert(parts == seq![rest]);
            assert(seq![t[0]] + parts[0] =~= t);
            assert(split_slash(t) =~= seq![t]);
        } else {
            assert(rest.take(i - 1) =~= t.take(i).drop_first());
            assert(parts == seq![rest.take(i - 1)] + split_slash(rest.skip(i)));
            assert(parts[0] == rest.take(i - 1));
            assert(seq![t[0]] + parts[0] =~= t.take(i));
            assert(parts.drop_first() =~= split_slash(rest.skip(i)));
            assert(rest.skip(i) =~= t.skip(i + 1));
            assert(split_slash(t) =~= seq![t.take(i)] + split_slash(t.skip(i + 1)));
        }
    }
}

/// Joining three slash-free segments and parsing them back returns exactly
/// the original role, id and plug name.
pub proof fn lemma_topic_round_trip(role: Seq<char>, id: Seq<char>, plug_name: Seq<char>)
    requires
        no_slash(role),
        no_slash(id),
        no_slash(plug_name),
    ensures
        parse_part(topic_of(role, id, plug_name), 0) == Some(role),
        parse_part(topic_of(role, id, plug_name), 1) == Some(id),
        parse_part(topic_of(role, id, plug_name), 2) == Some(plug_name),
{
    let t = topic_of(role, id, plug_name);
    assert(forall|k: int| 0 <= k < role.len() ==> t[k] != '/');
    assert(t[role.len() as int] == '/');
    lemma_split_at_slash(t, role.len() as int);
    let rest1 = t.skip(role.len() as int + 1);
    assert(rest1 =~= id + seq!['/'] + plug_name);
    assert(forall|k: int| 0 <= k < id.len() ==> rest1[k] != '/');
    assert(rest1[id.len() as int] == '/');
    lemma_split_at_slash(rest1, id.len() as int);
    let rest2 = rest1.skip(id.len() as int + 1);
    assert(rest2 =~= plug_name);
    lemma_split_at_slash(rest2, rest2.len() as int);
    assert(t.take(role.len() as int) =~= role);
    assert(rest1.take(id.len() as int) =~= id);
    assert(split_slash(t) =~= seq![role, id, plug_name]);
}

/// A string with fewer than three segments parses to `None` in every
/// position: malformed topics are reported, never mis-read.
pub proof fn lemma_malformed_topic_rejected(t: Seq<char>)
    requires
        num_segments(t) < 3,
    ensures
        parse_part(t, 0) is None,
        parse_part(t, 1) is None,
        parse_part(t, 2) is None,
{
}

/// Index of the first `/` at or after `from`, or the character length of
/// `topic` if there is none.
fn find_slash(topic: &str, from: usize) -> (r: usize)
    requires
        from as int <= topic@.len(),
    ensures
        from <= r <= topic@.len(),
        forall|k: int| from <= k < r ==> topic@[k] != '/',
        r < topic@.len() ==> topic@[r as int] == '/',
{
    let len = topic.unicode_len();
    let mut i = from;
    while i < len
        invariant
            from <= i <= len,
            len == topic@.len(),
            forall|k: int| from <= k < i ==> topic@[k] != '/',
        decreases len - i,
    {
        if topic.get_char(i) == '/' {
            return i;
        }
        i = i + 1;
    }
    i
}

/// The first two separator positions of `topic`, or `None` if it has fewer
/// than three segments; the proof connects them to `split_slash`.
fn find_two_slashes(topic: &str) -> (r: Option<(usize, usize)>)
    ensures
        match r {
            Some((s1, s2)) => {
                &&& 0 <= s1 < s2 < topic@.len()
                &&& topic@[s1 as int] == '/'
                &&& topic@[s2 as int] == '/'
                &&& forall|k: int| 0 <= k < s1 ==> topic@[k] != '/'
                &&& forall|k: int| s1 < k < s2 ==> topic@[k] != '/'
                &&& num_segments(topic@) >= 3
                &&& split_slash(topic@)[0] == topic@.subrange(0, s1 as int)
                &&& split_slash(topic@)[1] == topic@.subrange(s1 + 1, s2 as int)
            },
            None => num_segments(topic@) < 3,
        },
{
    let ghost t = topic@;
    let len = topic.unicode_len();
    let s1 = find_slash(topic, 0);
    proof {
        lemma_split_at_slash(t, s1 as int);
    }
    if s1 == len {
        return None;
    }
    let s2 = find_slash(topic, s1 + 1);
    let ghost rest1 = t.skip(s1 + 1);
    proof {
        assert(forall|k: int| 0 <= k < (s2 - s1 - 1) ==> rest1[k] != '/');
        lemma_split_at_slash(rest1, s2 - s1 - 1);
    }
    if s2 == len {
        return None;
    }
    proof {
        lemma_split_slash_len(rest1.skip(s2 - s1));
        assert(split_slash(t)[0] == t.take(s1 as int));
        assert(t.take(s1 as int) =~= t.subrange(0, s1 as int));
        assert(split_slash(t)[1] == rest1.take(s2 - s1 - 1));
        assert(rest1.take(s2 - s1 - 1) =~= t.subrange(s1 + 1, s2 as int));
    }
    Some((s1, s2))
}

/// The `role` segment of `topic`, or `None` if the topic has fewer than
/// three segments.
pub fn parse_agent_role(topic: &str) -> (r: Option<String>)
    ensures
        match parse_part(topic@, 0) {
            Some(seg) => r matches Some(s) && s@ == seg,
            None => r is None,
        },
{
    match find_two_slashes(topic) {
        Some((s1, _s2)) => {
            let seg = topic.substring_char(0, s1);
            Some(String::from_str(seg))
        },
        None => None,
    }
}

/// The `id` segment of `topic`, or `None` if the topic has fewer than
/// three segments.
pub fn parse_agent_id(topic: &str) -> (r: Option<String>)
    ensures
        match parse_part(topic@, 1) {
            Some(seg) => r matches Some(s) && s@ == seg,
            None => r is None,
        },
{
    match find_two_slashes(topic) {
        Some((s1, s2)) => {
            let seg = topic.substring_char(s1 + 1, s2);
            Some(String::from_str(seg))
        },
        None => None,
    }
}

/// The `plugName` segment of `topic`, or `None` if the topic has fewer
/// than three segments; on a topic with more than three segments this is
/// the third segment, not the whole remainder.
pub fn parse_plug_name(topic: &str) -> (r: Option<String>)
    ensures
        match parse_part(topic@, 2) {
            Some(seg) => r matches Some(s) && s@ == seg,
            None => r is None,
        },
{
    let ghost t = topic@;
    let len = topic.unicode_len();
    match find_two_slashes(topic) {
        Some((s1, s2)) => {
            let s3 = find_slash(topic, s2 + 1);
            proof {
                let rest1 = t.skip(s1 + 1);
                let rest2 = rest1.skip(s2 - s1);
                lemma_split_at_slash(t, s1 as int);
                lemma_split_at_slash(rest1, s2 - s1 - 1);
                assert(rest2 =~= t.skip(s2 + 1));
                assert(forall|k: int| 0 <= k < (s3 - s2 - 1) ==> #[trigger] t.skip(s2 + 1)[k]
                    != '/');
                lemma_split_at_slash(t.skip(s2 + 1), s3 - s2 - 1);
                lemma_split_slash_len(t.skip(s2 + 1));
                if (s3 as int) < t.len() {
                    lemma_split_slash_len(t.skip(s2 + 1).skip(s3 - s2));
                    assert(split_slash(t.skip(s2 + 1))[0] == t.skip(s2 + 1).take(s3 - s2 - 1));
                } else {
                    assert(split_slash(t.skip(s2 + 1)) == seq![t.skip(s2 + 1)]);
                }
                assert(split_slash(t)[2] == split_slash(t.skip(s2 + 1))[0]);
                assert(split_slash(t.skip(s2 + 1))[0] =~= t.subrange(s2 + 1, s3 as int));
            }
            let seg = topic.substring_char(s2 + 1, s3);
            Some(String::from_str(seg))
        },
        None => None,
    }
}

/// The topic string `role/id/plugName`.
pub fn build_topic(role: &str, id: &str, plug_name: &str) -> (r: String)
    ensures
        r@ == topic_of(role@, id@, plug_name@),
{
    proof {
        reveal_strlit("/");
        assert("/"@ =~= seq!['/']);
    }
    let mut out = String::from_str(role);
    out.append("/");
    out.append(id);
    out.append("/");
    out.append(plug_name);
    proof {
        assert(out@ =~= topic_of(role@, id@, plug_name@));
    }
    out
}

/// The plug name a drained message is routed under: the third segment of
/// a topic with exactly three segments, and a marker for anything else,
/// so that foreign traffic is visibly set apart instead of mis-routed.
pub fn incoming_plug_name(topic: &str) -> (r: String)
    ensures
        num_segments(topic@) == 3 ==> Some(r@) == parse_part(topic@, 2),
        num_segments(topic@) != 3 ==> r@ == "INVALID_TETHER_TOPIC!"@,
{
    let ghost t = topic@;
    let len = topic.unicode_len();
    match find_two_slashes(topic) {
        Some((s1, s2)) => {
            let s3 = find_slash(topic, s2 + 1);
            proof {
                let rest1 = t.skip(s1 + 1);
                let rest2 = rest1.skip(s2 - s1);
                lemma_split_at_slash(t, s1 as int);
                lemma_split_at_slash(rest1, s2 - s1 - 1);
                assert(rest2 =~= t.skip(s2 + 1));
                assert(forall|k: int| 0 <= k < (s3 - s2 - 1) ==> #[trigger] t.skip(s2 + 1)[k]
                    != '/');
                lemma_split_at_slash(t.skip(s2 + 1), s3 - s2 - 1);
                if (s3 as int) < t.len() {
                    lemma_split_slash_len(t.skip(s2 + 1).skip(s3 - s2));
                } else {
                    assert(split_slash(t.skip(s2 + 1)) == seq![t.skip(s2 + 1)]);
                    assert(t.skip(s2 + 1) =~= t.subrange(s2 + 1, len as int));
                }
            }
            if s3 == len {
                let seg = topic.substring_char(s2 + 1, len);
                String::from_str(seg)
            } else {
                String::from_str("INVALID_TETHER_TOPIC!")
            }
        },
        None => String::from_str("INVALID_TETHER_TOPIC!"),
    }
}

/// True exactly when `pattern` is the bare multi-level wildcard `#`, the
/// catch-all monitor subscription; a literal three-segment topic is never
/// mistaken for it.
pub fn is_catchall_pattern(pattern: &str) -> (r: bool)
    ensures
        r == (pattern@ =~= seq!['#']),
{
    let len = pattern.unicode_len();
    if len != 1 {
        return false;
    }
    pattern.get_char(0) == '#'
}

} // verus!
