//! Paths as lists of segments, and what matching means on them.

use crate::path_matcher::is_wildcard;
use crate::path_matcher::pattern_matches;
use crate::path_matcher::SEPARATOR;
use crate::path_matcher::WILDCARD;
use vstd::prelude::*;

verus! {

/// The segments of a path: the pieces that its separators part, in their order.
/// A path with `n` separators has `n + 1` segments, some of them empty where
/// separators stand side by side or at an end.
pub open spec fn segments(path: Seq<char>) -> Seq<Seq<char>>
    decreases path.len(),
{
    if path.len() == 0 {
        seq![Seq::<char>::empty()]
    } else {
        let before = segments(path.drop_last());
        if path.last() == SEPARATOR {
            before.push(Seq::<char>::empty())
        } else {
            before.drop_last().push(before.last().push(path.last()))
        }
    }
}

/// The path that is made of the given segments, with a separator between each
/// two.
pub open spec fn join(parts: Seq<Seq<char>>) -> Seq<char>
    decreases parts.len(),
{
    if parts.len() == 0 {
        Seq::<char>::empty()
    } else if parts.len() == 1 {
        parts[0]
    } else {
        join(parts.drop_last()).push(SEPARATOR) + parts.last()
    }
}

/// Every path has at least one segment.
pub proof fn lemma_segments_nonempty(path: Seq<char>)
    ensures
        segments(path).len() >= 1,
    decreases path.len(),
{
    if path.len() > 0 {
        lemma_segments_nonempty(path.drop_last());
    }
}

/// The segments of two paths set one behind the other with a separator between
/// them are the segments of the first followed by those of the second.
pub proof fn lemma_segments_of_joined(head: Seq<char>, tail: Seq<char>)
    ensures
        segments(head.push(SEPARATOR) + tail) == segments(head) + segments(tail),
    decreases tail.len(),
{
    let whole = head.push(SEPARATOR) + tail;
    if tail.len() == 0 {
        assert(whole =~= head.push(SEPARATOR));
        assert(whole.drop_last() =~= head);
        assert(segments(head).push(Seq::<char>::empty()) =~= segments(head) + segments(tail));
    } else {
        let shorter = head.push(SEPARATOR) + tail.drop_last();
        assert(whole.drop_last() =~= shorter);
        assert(whole.last() == tail.last());
        lemma_segments_of_joined(head, tail.drop_last());
        lemma_segments_nonempty(tail.drop_last());
        let first = segments(head);
        let second = segments(tail.drop_last());
        let both = first + second;
        assert(segments(shorter) == both);
        if tail.last() == SEPARATOR {
            assert(both.push(Seq::<char>::empty()) =~= first + second.push(Seq::<char>::empty()));
        } else {
            assert(both.last() == second.last());
            assert(both.drop_last() =~= first + second.drop_last());
            assert(both.drop_last().push(both.last().push(tail.last())) =~= first
                + second.drop_last().push(second.last().push(tail.last())));
        }
    }
}

/// Adding a character to the last of some segments adds it to the path they make.
proof fn lemma_join_grows_with_last(parts: Seq<Seq<char>>, letter: char)
    requires
        parts.len() >= 1,
    ensures
        join(parts.drop_last().push(parts.last().push(letter))) == join(parts).push(letter),
{
    let grown = parts.drop_last().push(parts.last().push(letter));
    if parts.len() == 1 {
        assert(grown[0] == parts[0].push(letter));
    } else {
        assert(grown.drop_last() =~= parts.drop_last());
        assert(grown.last() == parts.last().push(letter));
        assert(join(parts.drop_last()).push(SEPARATOR) + parts.last().push(letter) =~= (join(
            parts.drop_last(),
        ).push(SEPARATOR) + parts.last()).push(letter));
    }
}

/// A path is made of its segments: joining them gives the path back.
pub proof fn lemma_join_of_segments(path: Seq<char>)
    ensures
        join(segments(path)) == path,
    decreases path.len(),
{
    if path.len() == 0 {
        assert(join(segments(path)) =~= path);
    } else {
        let before = segments(path.drop_last());
        lemma_join_of_segments(path.drop_last());
        lemma_segments_nonempty(path.drop_last());
        if path.last() == SEPARATOR {
            let all = before.push(Seq::<char>::empty());
            assert(all.drop_last() =~= before);
            assert(join(all) =~= path.drop_last().push(SEPARATOR));
            assert(path.drop_last().push(SEPARATOR) =~= path);
        } else {
            lemma_join_grows_with_last(before, path.last());
            assert(path.drop_last().push(path.last()) =~= path);
        }
    }
}

/// The path made of the first `count` of some segments, with a separator behind
/// it, begins the path made of all of them, as long as segments are left over.
proof fn lemma_join_of_leading(parts: Seq<Seq<char>>, count: int)
    requires
        1 <= count < parts.len(),
    ensures
        join(parts.take(count)).push(SEPARATOR).is_prefix_of(join(parts)),
    decreases parts.len(),
{
    let whole = join(parts);
    let most = join(parts.drop_last());
    assert(whole == most.push(SEPARATOR) + parts.last());
    assert(most.push(SEPARATOR) =~= whole.subrange(0, most.len() as int + 1));
    if count == parts.len() - 1 {
        assert(parts.take(count) =~= parts.drop_last());
    } else {
        lemma_join_of_leading(parts.drop_last(), count);
        assert(parts.drop_last().take(count) =~= parts.take(count));
        let lead = join(parts.take(count)).push(SEPARATOR);
        assert(lead =~= most.subrange(0, lead.len() as int));
        assert(lead =~= whole.subrange(0, lead.len() as int));
    }
}

/// A path continues another behind a separator exactly if its segments begin
/// with all the segments of the other and go on after them.
pub proof fn lemma_continuation_by_segments(start: Seq<char>, path: Seq<char>)
    ensures
        start.push(SEPARATOR).is_prefix_of(path) <==> segments(start).is_prefix_of(segments(path))
            && segments(start).len() < segments(path).len(),
{
    let lead = start.push(SEPARATOR);
    if lead.is_prefix_of(path) {
        let rest = path.skip(lead.len() as int);
        assert(path =~= lead + rest);
        lemma_segments_of_joined(start, rest);
        lemma_segments_nonempty(rest);
        assert(segments(start) =~= segments(path).subrange(0, segments(start).len() as int));
    }
    if segments(start).is_prefix_of(segments(path)) && segments(start).len() < segments(path).len() {
        lemma_segments_nonempty(start);
        let count = segments(start).len() as int;
        assert(segments(path).take(count) =~= segments(start));
        lemma_join_of_leading(segments(path), count);
        lemma_join_of_segments(start);
        lemma_join_of_segments(path);
    }
}

/// The last segment of a path is empty exactly if the path is empty or ends in a
/// separator.
proof fn lemma_last_segment_empty(path: Seq<char>)
    ensures
        segments(path).last().len() == 0 <==> path.len() == 0 || path.last() == SEPARATOR,
{
    if path.len() > 0 {
        lemma_segments_nonempty(path.drop_last());
    }
}

/// Matching goes by whole segments.
///
/// A pattern whose last segment is not the wildcard matches a path exactly if the
/// path's segments begin with the pattern's, each equal character for character. A
/// pattern is a wildcard pattern exactly if its last segment is the lone wildcard;
/// it matches a path exactly if the path's segments begin with the pattern's
/// segments before the wildcard, and the path has a segment, of whatever
/// content, where the pattern has the wildcard.
pub proof fn lemma_matching_goes_by_segments(pattern: Seq<char>, path: Seq<char>)
    ensures
        is_wildcard(pattern) <==> segments(pattern).last() == seq![WILDCARD],
        !is_wildcard(pattern) ==> (pattern_matches(pattern, path) <==> segments(pattern).is_prefix_of(
            segments(path),
        )),
        is_wildcard(pattern) ==> (pattern_matches(pattern, path) <==> segments(
            pattern,
        ).drop_last().is_prefix_of(segments(path)) && segments(pattern).len() <= segments(path).len()),
{
    lemma_segments_nonempty(pattern);
    lemma_segments_nonempty(path);
    if pattern.len() > 0 {
        let stem = pattern.drop_last();
        lemma_segments_nonempty(stem);
        lemma_last_segment_empty(stem);
        if pattern.last() != SEPARATOR {
            let last = segments(stem).last().push(pattern.last());
            assert(segments(pattern).last() == last);
            assert(last.last() == pattern.last());
            if last == seq![WILDCARD] {
                assert(last.len() == 1);
            }
            if segments(stem).last().len() == 0 && pattern.last() == WILDCARD {
                assert(last =~= seq![WILDCARD]);
            }
        } else {
            assert(segments(pattern).last().len() == 0);
            assert(seq![WILDCARD].len() == 1);
        }
    } else {
        assert(segments(pattern).last().len() == 0);
        assert(seq![WILDCARD].len() == 1);
    }
    if is_wildcard(pattern) {
        let stem = pattern.drop_last();
        if stem.len() == 0 {
            assert(segments(pattern).drop_last().len() == 0);
            assert(stem.is_prefix_of(path));
            assert(segments(pattern).drop_last() =~= segments(path).subrange(0, 0));
        } else {
            let start = stem.drop_last();
            assert(stem =~= start.push(SEPARATOR));
            assert(pattern =~= start.push(SEPARATOR) + seq![WILDCARD]);
            lemma_segments_of_joined(start, seq![WILDCARD]);
            assert(segments(seq![WILDCARD]).len() == 1) by {
                assert(seq![WILDCARD].drop_last() =~= Seq::<char>::empty());
                assert(segments(seq![WILDCARD].drop_last()).len() == 1);
            }
            assert(segments(pattern).drop_last() =~= segments(start));
            lemma_continuation_by_segments(start, path);
        }
    } else {
        lemma_continuation_by_segments(pattern, path);
        if pattern == path {
            assert(segments(pattern) =~= segments(path).subrange(0, segments(pattern).len() as int));
        }
        if segments(pattern).is_prefix_of(segments(path)) && segments(pattern).len() == segments(
            path,
        ).len() {
            assert(segments(pattern) =~= segments(path));
            lemma_join_of_segments(pattern);
            lemma_join_of_segments(path);
        }
    }
}

} // verus!
