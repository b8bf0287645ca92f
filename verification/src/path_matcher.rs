//! Path patterns, and the list of them that tells guarded paths from open ones.

use crate::path_bytes::bytes_match;
use crate::path_bytes::lemma_bytes_match_as_text;
use vstd::prelude::*;

verus! {

/// The character that parts the segments of a path.
pub const SEPARATOR: char = '/';

/// The character that, alone in a pattern's last segment, stands for any rest.
pub const WILDCARD: char = '*';

/// Whether a pattern's last segment is the wildcard.
pub open spec fn is_wildcard(pattern: Seq<char>) -> bool {
    &&& pattern.len() >= 1
    &&& pattern.last() == WILDCARD
    &&& pattern.len() >= 2 ==> pattern[pattern.len() - 2] == SEPARATOR
}

/// Whether a pattern matches a path.
///
/// A pattern matches the paths whose segments begin with its own: the path that
/// equals it, and every path that continues it behind a separator. Segments are
/// compared character for character. A pattern whose last segment is the wildcard
/// matches every path that begins with what stands before the wildcard.
pub open spec fn pattern_matches(pattern: Seq<char>, path: Seq<char>) -> bool {
    if is_wildcard(pattern) {
        pattern.drop_last().is_prefix_of(path)
    } else {
        pattern == path || pattern.push(SEPARATOR).is_prefix_of(path)
    }
}

/// Whether the pattern `pattern` matches the path `path`.
pub fn matches_path(pattern: &str, path: &str) -> (r: bool)
    ensures
        r == pattern_matches(pattern@, path@),
{
    proof {
        lemma_bytes_match_as_text(pattern@, path@);
    }
    bytes_match(pattern.as_bytes(), path.as_bytes())
}

/// A [`PathMatcher`] as contracts see it: the patterns in the order in which they
/// were given, and the mode.
pub struct PathMatcherView {
    pub patterns: Seq<Seq<char>>,
    pub invert: bool,
}

impl PathMatcherView {
    /// Whether at least one of the patterns matches `path`.
    pub open spec fn matches_some(self, path: Seq<char>) -> bool {
        exists|i: int| 0 <= i < self.patterns.len() && pattern_matches(#[trigger] self.patterns[i], path)
    }

    /// Whether a request for `path` has to be authenticated: with `invert` off,
    /// the paths that some pattern matches; with `invert` on, all the others.
    pub open spec fn protects(self, path: Seq<char>) -> bool {
        if self.invert {
            !self.matches_some(path)
        } else {
            self.matches_some(path)
        }
    }
}

/// The list of path patterns that tells guarded paths from open ones.
pub struct PathMatcher {
    patterns: Vec<&'static str>,
    invert: bool,
}

impl View for PathMatcher {
    type V = PathMatcherView;

    closed spec fn view(&self) -> PathMatcherView {
        PathMatcherView {
            patterns: Seq::new(self.patterns@.len(), |i: int| self.patterns@[i]@),
            invert: self.invert,
        }
    }
}

impl PathMatcher {
    /// A matcher over `path_list`. With `invert` off the list names the guarded
    /// paths, with `invert` on it names the open ones.
    pub fn new(path_list: Vec<&'static str>, invert: bool) -> (matcher: Self)
        ensures
            matcher@.invert == invert,
            matcher@.patterns.len() == path_list@.len(),
            forall|i: int|
                0 <= i < path_list@.len() ==> #[trigger] matcher@.patterns[i] == path_list@[i]@,
    {
        PathMatcher { patterns: path_list, invert }
    }

    /// Whether some pattern of the list matches `path`.
    pub fn matches(&self, path: &str) -> (r: bool)
        ensures
            r == self@.matches_some(path@),
    {
        let mut i: usize = 0;
        while i < self.patterns.len()
            invariant
                i <= self.patterns@.len(),
                forall|k: int| 0 <= k < i ==> !pattern_matches(#[trigger] self@.patterns[k], path@),
            decreases self.patterns@.len() - i,
        {
            if matches_path(self.patterns[i], path) {
                assert(pattern_matches(self@.patterns[i as int], path@));
                return true;
            }
            i += 1;
        }
        false
    }

    /// Whether a request for `path` has to be authenticated.
    pub fn is_protected(&self, path: &str) -> (r: bool)
        ensures
            r == self@.protects(path@),
            !self@.invert ==> (r <==> self@.matches_some(path@)),
            self@.invert ==> (r <==> !self@.matches_some(path@)),
    {
        let matched = self.matches(path);
        if self.invert {
            !matched
        } else {
            matched
        }
    }
}

impl Default for PathMatcher {
    /// The matcher that guards every path: nothing is listed as open.
    fn default() -> (matcher: Self)
        ensures
            matcher@.invert,
            matcher@.patterns.len() == 0,
    {
        PathMatcher { patterns: Vec::new(), invert: true }
    }
}

/// Whether a path is guarded depends on which patterns are listed, not on their
/// order nor on how often one is listed: a path that any pattern matches counts
/// as matched.
pub proof fn lemma_pattern_order_is_irrelevant(a: PathMatcherView, b: PathMatcherView, path: Seq<char>)
    requires
        a.invert == b.invert,
        a.patterns.to_set() == b.patterns.to_set(),
    ensures
        a.matches_some(path) == b.matches_some(path),
        a.protects(path) == b.protects(path),
{
    lemma_matched_by_listed(a, b, path);
    lemma_matched_by_listed(b, a, path);
}

/// A path that some pattern of `a` matches is matched by some pattern of `b`, if
/// `b` lists every pattern of `a`.
proof fn lemma_matched_by_listed(a: PathMatcherView, b: PathMatcherView, path: Seq<char>)
    requires
        a.patterns.to_set().subset_of(b.patterns.to_set()),
    ensures
        a.matches_some(path) ==> b.matches_some(path),
{
    if a.matches_some(path) {
        let i = choose|i: int| 0 <= i < a.patterns.len() && pattern_matches(#[trigger] a.patterns[i], path);
        assert(a.patterns.contains(a.patterns[i]));
        assert(a.patterns.to_set().contains(a.patterns[i]));
        assert(b.patterns.to_set().contains(a.patterns[i]));
        assert(b.patterns.contains(a.patterns[i]));
        let j = choose|j: int| 0 <= j < b.patterns.len() && b.patterns[j] == a.patterns[i];
        assert(pattern_matches(b.patterns[j], path));
    }
}

} // verus!
