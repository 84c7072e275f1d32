//! The executable topic operations: the two validators and the two
//! matching entry points, each specified against the model in `model`.

use vstd::prelude::*;
use vstd::string::StrSliceExecFns;

use crate::model::has_wildcard;
use crate::model::levels_match;
use crate::model::pub_char_ok;
use crate::model::pub_topic_valid;
use crate::model::split_levels;
use crate::model::sub_char_ok;
use crate::model::sub_topic_valid;
use crate::model::topics_match;

verus! {

/// The characters of `s`, in order, as a vector.
fn collect_chars(s: &str) -> (chars: Vec<char>)
    ensures
        chars@ == s@,
{
    let n: usize = s.unicode_len();
    let mut chars: Vec<char> = Vec::new();
    let mut i: usize = 0;
    proof {
        assert(chars@ =~= s@.subrange(0, 0));
    }
    while i < n
        invariant
            n == s@.len(),
            i <= n,
            chars@ == s@.subrange(0, i as int),
        decreases n - i,
    {
        let c = s.get_char(i);
        chars.push(c);
        i = i + 1;
        proof {
            assert(chars@ =~= s@.subrange(0, i as int));
        }
    }
    proof {
        assert(chars@ =~= s@);
    }
    chars
}

/// Checks that `topic` is a legal topic to publish to: 1 to 65535
/// characters, containing no null character and no `+` or `#` wildcard.
pub fn is_publisher_topic_valid(topic: &str) -> (valid: bool)
    ensures
        valid == pub_topic_valid(topic@),
{
    let chars = collect_chars(topic);
    let n: usize = chars.len();
    if n == 0 || n > 65535 {
        return false;
    }
    let mut i: usize = 0;
    while i < n
        invariant
            chars@ == topic@,
            n == topic@.len(),
            1 <= n <= 65535,
            i <= n,
            forall|j: int| 0 <= j < i ==> pub_char_ok(topic@[j]),
        decreases n - i,
    {
        let c = chars[i];
        if c == '\0' || c == '#' || c == '+' {
            proof {
                assert(!pub_char_ok(topic@[i as int]));
            }
            return false;
        }
        i = i + 1;
    }
    true
}

/// Checks that `topic` is a legal topic to subscribe to: 1 to 65535
/// characters, no null character, `#` only as the very last character, and
/// `+` only as a complete level that is followed by a `/` with at least one
/// character after it. Positions are counted in characters, not bytes, so
/// multi-byte characters are handled correctly.
pub fn is_subscriber_topic_valid(topic: &str) -> (valid: bool)
    ensures
        valid == sub_topic_valid(topic@),
{
    let chars = collect_chars(topic);
    let n: usize = chars.len();
    if n == 0 || n > 65535 {
        return false;
    }
    let mut i: usize = 0;
    while i < n
        invariant
            chars@ == topic@,
            n == topic@.len(),
            1 <= n <= 65535,
            i <= n,
            forall|j: int| 0 <= j < i ==> sub_char_ok(topic@, j),
        decreases n - i,
    {
        let c = chars[i];
        if c == '\0' {
            proof {
                assert(!sub_char_ok(topic@, i as int));
            }
            return false;
        }
        if c == '#' && i != n - 1 {
            proof {
                assert(!sub_char_ok(topic@, i as int));
            }
            return false;
        }
        if c == '+' {
            if i == 0 || chars[i - 1] != '/' {
                proof {
                    assert(!sub_char_ok(topic@, i as int));
                }
                return false;
            }
            if i + 1 >= n - 1 {
                proof {
                    assert(!sub_char_ok(topic@, i as int));
                }
                return false;
            }
            if chars[i + 1] != '/' {
                proof {
                    assert(!sub_char_ok(topic@, i as int));
                }
                return false;
            }
        }
        proof {
            assert(sub_char_ok(topic@, i as int));
        }
        i = i + 1;
    }
    true
}

/// Character-for-character equality of two character vectors.
fn eq_char_vecs(a: &Vec<char>, b: &Vec<char>) -> (eq: bool)
    ensures
        eq == (a@ == b@),
{
    if a.len() != b.len() {
        return false;
    }
    let n: usize = a.len();
    let mut i: usize = 0;
    while i < n
        invariant
            n == a@.len(),
            n == b@.len(),
            i <= n,
            forall|j: int| 0 <= j < i ==> a@[j] == b@[j],
        decreases n - i,
    {
        if a[i] != b[i] {
            return false;
        }
        i = i + 1;
    }
    proof {
        assert(a@ =~= b@);
    }
    true
}

/// Whether the characters contain a `#` or `+` wildcard anywhere.
fn contains_wildcard_chars(chars: &Vec<char>) -> (found: bool)
    ensures
        found == has_wildcard(chars@),
{
    let n: usize = chars.len();
    let mut i: usize = 0;
    while i < n
        invariant
            n == chars@.len(),
            i <= n,
            forall|j: int| 0 <= j < i ==> chars@[j] != '#' && chars@[j] != '+',
        decreases n - i,
    {
        let c = chars[i];
        if c == '#' || c == '+' {
            proof {
                assert(has_wildcard(chars@));
            }
            return true;
        }
        i = i + 1;
    }
    false
}

/// The views of a sequence of character vectors.
spec fn views_of(levels: Seq<Vec<char>>) -> Seq<Seq<char>> {
    levels.map_values(|level: Vec<char>| level@)
}

/// Splits the characters into levels at each `/`, matching `split_levels`
/// on the view.
fn split_into_levels(chars: &Vec<char>) -> (levels: Vec<Vec<char>>)
    ensures
        views_of(levels@) == split_levels(chars@),
{
    let n: usize = chars.len();
    let mut levels: Vec<Vec<char>> = Vec::new();
    let mut current: Vec<char> = Vec::new();
    let mut i: usize = 0;
    proof {
        assert(views_of(levels@).push(current@) =~~= split_levels(chars@.subrange(0, 0)));
    }
    while i < n
        invariant
            n == chars@.len(),
            i <= n,
            views_of(levels@).push(current@) == split_levels(chars@.subrange(0, i as int)),
        decreases n - i,
    {
        let c = chars[i];
        proof {
            assert(chars@.subrange(0, i as int + 1).drop_last() =~= chars@.subrange(0, i as int));
            assert(chars@.subrange(0, i as int + 1).last() == chars@[i as int]);
        }
        if c == '/' {
            levels.push(current);
            current = Vec::new();
            proof {
                assert(views_of(levels@).push(current@) =~~= split_levels(
                    chars@.subrange(0, i as int + 1),
                ));
            }
        } else {
            current.push(c);
            proof {
                assert(views_of(levels@).push(current@) =~~= split_levels(
                    chars@.subrange(0, i as int + 1),
                ));
            }
        }
        i = i + 1;
    }
    levels.push(current);
    proof {
        assert(chars@.subrange(0, n as int) =~= chars@);
        assert(views_of(levels@) =~~= split_levels(chars@));
    }
    levels
}

/// Checks whether a publish topic matches a subscribe pattern, assuming
/// both are already valid for their role. The result is exactly
/// `topics_match` on the two views: identical strings match; otherwise a
/// wildcard-free pattern never matches, and a pattern with wildcards
/// matches when the level walk succeeds.
pub fn does_valid_topic_match(publish: &str, subscribe: &str) -> (matched: bool)
    ensures
        matched == topics_match(publish@, subscribe@),
{
    let pub_chars = collect_chars(publish);
    let sub_chars = collect_chars(subscribe);
    if eq_char_vecs(&pub_chars, &sub_chars) {
        return true;
    }
    if !contains_wildcard_chars(&sub_chars) {
        return false;
    }
    let pub_levels = split_into_levels(&pub_chars);
    let sub_levels = split_into_levels(&sub_chars);
    let ghost ps = split_levels(publish@);
    let ghost ss = split_levels(subscribe@);
    let np: usize = pub_levels.len();
    let ns: usize = sub_levels.len();
    let mut i: usize = 0;
    proof {
        assert(ps.subrange(0, np as int) =~= ps);
        assert(ss.subrange(0, ns as int) =~= ss);
    }
    while i < ns
        invariant
            views_of(pub_levels@) == ps,
            views_of(sub_levels@) == ss,
            np == pub_levels@.len(),
            ns == sub_levels@.len(),
            np == ps.len(),
            ns == ss.len(),
            i <= ns,
            i <= np,
            has_wildcard(subscribe@),
            ps == split_levels(publish@),
            ss == split_levels(subscribe@),
            levels_match(ps, ss) == levels_match(
                ps.subrange(i as int, np as int),
                ss.subrange(i as int, ns as int),
            ),
        decreases ns - i,
    {
        let sub_level = &sub_levels[i];
        proof {
            assert(sub_level@ == ss[i as int]);
            assert(ss.subrange(i as int, ns as int)[0] == ss[i as int]);
        }
        if sub_level.len() == 1 && sub_level[0] == '#' {
            proof {
                assert(ss[i as int] =~= seq!['#']);
            }
            return true;
        }
        proof {
            assert(ss[i as int] != seq!['#']) by {
                if ss[i as int] == seq!['#'] {
                    assert(ss[i as int].len() == 1 && ss[i as int][0] == '#');
                }
            }
        }
        if i >= np {
            proof {
                assert(ps.subrange(i as int, np as int).len() == 0);
            }
            return false;
        }
        let is_plus = sub_level.len() == 1 && sub_level[0] == '+';
        proof {
            assert(is_plus == (ss[i as int] == seq!['+'])) by {
                if ss[i as int] == seq!['+'] {
                    assert(ss[i as int].len() == 1 && ss[i as int][0] == '+');
                }
                if is_plus {
                    assert(ss[i as int] =~= seq!['+']);
                }
            }
        }
        if !is_plus {
            let pub_level = &pub_levels[i];
            proof {
                assert(pub_level@ == ps[i as int]);
                assert(ps.subrange(i as int, np as int)[0] == ps[i as int]);
            }
            if !eq_char_vecs(pub_level, sub_level) {
                return false;
            }
        }
        proof {
            assert(ps.subrange(i as int, np as int).subrange(
                1,
                ps.subrange(i as int, np as int).len() as int,
            ) =~= ps.subrange(i as int + 1, np as int));
            assert(ss.subrange(i as int, ns as int).subrange(
                1,
                ss.subrange(i as int, ns as int).len() as int,
            ) =~= ss.subrange(i as int + 1, ns as int));
        }
        i = i + 1;
    }
    proof {
        assert(ss.subrange(ns as int, ns as int).len() == 0);
    }
    true
}

/// Validates both topics and then compares them: `None` when the publish
/// topic fails publisher validation or the subscribe pattern fails
/// subscriber validation, otherwise `Some` of the match result.
pub fn does_topic_match(publish: &str, subscribe: &str) -> (matched: Option<bool>)
    ensures
        matched == (if pub_topic_valid(publish@) && sub_topic_valid(subscribe@) {
            Some(topics_match(publish@, subscribe@))
        } else {
            None::<bool>
        }),
{
    if !is_publisher_topic_valid(publish) || !is_subscriber_topic_valid(subscribe) {
        return None;
    }
    Some(does_valid_topic_match(publish, subscribe))
}

} // verus!
