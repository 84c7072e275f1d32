//! The mathematical model of topic names: what makes a string a legal
//! publisher or subscriber topic, and when a publish topic matches a
//! subscribe pattern. The executable functions in `topics` are specified
//! against these definitions.

use vstd::prelude::*;

verus! {

/// A character legal in a publisher topic: anything except the null
/// character and the two wildcard characters.
pub open spec fn pub_char_ok(c: char) -> bool {
    c != '\0' && c != '#' && c != '+'
}

/// A legal publisher topic: 1 to 65535 characters, with no null character
/// and no wildcard anywhere.
pub open spec fn pub_topic_valid(s: Seq<char>) -> bool {
    &&& 1 <= s.len() <= 65535
    &&& forall|i: int| 0 <= i < s.len() ==> pub_char_ok(s[i])
}

/// The placement rules at position `i` of a subscriber topic: no null
/// character; `#` only as the last character of the whole string; `+` only
/// immediately after a `/`, immediately before a `/`, and with at least one
/// character after that `/`.
pub open spec fn sub_char_ok(s: Seq<char>, i: int) -> bool {
    &&& s[i] != '\0'
    &&& (s[i] == '#' ==> i == s.len() - 1)
    &&& (s[i] == '+' ==> 0 < i && s[i - 1] == '/' && i + 2 < s.len() && s[i + 1] == '/')
}

/// A legal subscriber topic: 1 to 65535 characters, every position
/// satisfying the placement rules.
pub open spec fn sub_topic_valid(s: Seq<char>) -> bool {
    &&& 1 <= s.len() <= 65535
    &&& forall|i: int| 0 <= i < s.len() ==> sub_char_ok(s, i)
}

/// Whether the string contains a wildcard character at all.
pub open spec fn has_wildcard(s: Seq<char>) -> bool {
    exists|i: int| 0 <= i < s.len() && (s[i] == '#' || s[i] == '+')
}

/// The levels of a topic string: the (possibly empty) chunks between `/`
/// separators. The empty string has one empty level, and every `/` adds a
/// level, so the result is never empty.
pub open spec fn split_levels(s: Seq<char>) -> Seq<Seq<char>>
    decreases s.len(),
{
    if s.len() == 0 {
        seq![Seq::<char>::empty()]
    } else if s.last() == '/' {
        split_levels(s.drop_last()).push(Seq::<char>::empty())
    } else {
        let rest = split_levels(s.drop_last());
        rest.update(rest.len() - 1, rest.last().push(s.last()))
    }
}

/// The level walk: subscribe levels are consumed left to right in lockstep
/// with publish levels. A `#` level accepts everything that remains
/// (including nothing); a `+` level accepts exactly one publish level; any
/// other level must equal the corresponding publish level. Running out of
/// publish levels while a non-`#` subscribe level remains is a failure;
/// running out of subscribe levels is a success, whether or not publish
/// levels remain.
pub open spec fn levels_match(pub_levels: Seq<Seq<char>>, sub_levels: Seq<Seq<char>>) -> bool
    decreases sub_levels.len(),
{
    if sub_levels.len() == 0 {
        true
    } else if sub_levels[0] == seq!['#'] {
        true
    } else if pub_levels.len() == 0 {
        false
    } else if sub_levels[0] == seq!['+'] || sub_levels[0] == pub_levels[0] {
        levels_match(
            pub_levels.subrange(1, pub_levels.len() as int),
            sub_levels.subrange(1, sub_levels.len() as int),
        )
    } else {
        false
    }
}

/// When a publish topic matches a subscribe pattern (both are assumed valid
/// for their role): either the two strings are identical, or the pattern
/// contains a wildcard and the level walk succeeds. A wildcard-free pattern
/// matches nothing but its own literal text.
pub open spec fn topics_match(publish: Seq<char>, subscribe: Seq<char>) -> bool {
    ||| publish == subscribe
    ||| has_wildcard(subscribe) && levels_match(split_levels(publish), split_levels(subscribe))
}

/// Every legal publisher topic is also a legal subscriber topic: it
/// contains no wildcard at all, so the placement rules hold vacuously.
pub proof fn lemma_publisher_valid_is_subscriber_valid(s: Seq<char>)
    requires
        pub_topic_valid(s),
    ensures
        sub_topic_valid(s),
{
    assert forall|i: int| 0 <= i < s.len() implies sub_char_ok(s, i) by {
        assert(pub_char_ok(s[i]));
    }
}

/// Matching is reflexive on topics valid in both roles: a topic always
/// matches itself, by literal equality.
pub proof fn lemma_match_reflexive(s: Seq<char>)
    requires
        pub_topic_valid(s),
        sub_topic_valid(s),
    ensures
        topics_match(s, s),
{
}

} // verus!
