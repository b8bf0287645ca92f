use authfix::path_bytes::bytes_match;
use authfix::path_matcher::matches_path;
use authfix::middleware::AuthMiddleware;
use authfix::middleware::PathMatcher;
use authfix::middleware::RequestState;

#[test]
fn listed_paths_are_protected_when_not_inverted() {
    let matcher = PathMatcher::new(vec!["/admin", "/account/*"], false);
    assert!(matcher.is_protected("/admin"));
    assert!(matcher.is_protected("/admin/users"));
    assert!(matcher.is_protected("/account/settings"));
    assert!(!matcher.is_protected("/"));
    assert!(!matcher.is_protected("/public"));
    assert!(!matcher.is_protected("/administrator"));
}

#[test]
fn listed_paths_are_exempt_when_inverted() {
    let matcher = PathMatcher::new(vec!["/login", "/unsecure/*"], true);
    assert!(!matcher.is_protected("/login"));
    assert!(!matcher.is_protected("/login/mfa"));
    assert!(!matcher.is_protected("/unsecure/manipulate-session"));
    assert!(matcher.is_protected("/secured-route"));
    assert!(matcher.is_protected("/logout"));
    assert!(matcher.is_protected("/"));
}

#[test]
fn is_protected_is_matches_or_its_negation() {
    let patterns = vec!["/a", "/b/*", "*.css"];
    let plain = PathMatcher::new(patterns.clone(), false);
    let inverted = PathMatcher::new(patterns, true);
    for path in ["/a", "/a/x", "/ab", "/b", "/b/", "/b/x/y", "/c", "", "*.css", "x.css"] {
        assert_eq!(plain.is_protected(path), plain.matches(path));
        assert_eq!(inverted.is_protected(path), !inverted.matches(path));
        assert_eq!(plain.matches(path), inverted.matches(path));
    }
}

#[test]
fn a_pattern_matches_whole_segments_only() {
    assert!(matches_path("/login", "/login"));
    assert!(matches_path("/login", "/login/"));
    assert!(matches_path("/login", "/login/mfa"));
    assert!(matches_path("/login", "/login/mfa/again"));
    assert!(!matches_path("/login", "/loginx"));
    assert!(!matches_path("/login", "/log"));
    assert!(!matches_path("/login", "/logout"));
    assert!(!matches_path("/login", "/"));
    assert!(!matches_path("/login", ""));
    assert!(!matches_path("/login", "x/login"));
}

#[test]
fn matching_is_case_sensitive() {
    assert!(!matches_path("/login", "/Login"));
    assert!(!matches_path("/Login", "/login"));
    assert!(!matches_path("/unsecure/*", "/Unsecure/x"));
    assert!(matches_path("/Login", "/Login"));
}

#[test]
fn a_trailing_wildcard_matches_any_rest() {
    assert!(matches_path("/unsecure/*", "/unsecure/manipulate-session"));
    assert!(matches_path("/unsecure/*", "/unsecure/a/b/c"));
    assert!(matches_path("/unsecure/*", "/unsecure/"));
    assert!(matches_path("/unsecure/*", "/unsecure/*"));
    assert!(!matches_path("/unsecure/*", "/unsecure"));
    assert!(!matches_path("/unsecure/*", "/unsecured/x"));
    assert!(!matches_path("/unsecure/*", "/secure/x"));
    assert!(matches_path("/*", "/"));
    assert!(matches_path("/*", "/anything/at/all"));
    assert!(!matches_path("/*", ""));
    assert!(!matches_path("/*", "relative"));
    assert!(matches_path("*", ""));
    assert!(matches_path("*", "/anything"));
    assert!(matches_path("*", "relative"));
}

#[test]
fn a_star_elsewhere_is_an_ordinary_byte() {
    assert!(matches_path("/a*", "/a*"));
    assert!(matches_path("/a*", "/a*/b"));
    assert!(!matches_path("/a*", "/ab"));
    assert!(!matches_path("/a*", "/a"));
    assert!(matches_path("/*/b", "/*/b"));
    assert!(!matches_path("/*/b", "/a/b"));
}

#[test]
fn the_empty_pattern_matches_the_empty_path_and_rooted_paths() {
    assert!(matches_path("", ""));
    assert!(matches_path("", "/"));
    assert!(matches_path("", "/a"));
    assert!(!matches_path("", "a"));
}

#[test]
fn paths_beyond_ascii_are_matched_character_for_character() {
    assert!(matches_path("/caf\u{e9}", "/caf\u{e9}"));
    assert!(matches_path("/caf\u{e9}", "/caf\u{e9}/menu"));
    assert!(!matches_path("/caf\u{e9}", "/cafe"));
    assert!(matches_path("/caf\u{e9}/*", "/caf\u{e9}/\u{1f375}"));
    assert!(!matches_path("/caf\u{e9}", "/caf\u{e8}"));
    assert!(!matches_path("/caf\u{c3}", "/caf\u{e9}"));
    assert!(matches_path("/\u{1f375}", "/\u{1f375}/\u{1f375}"));
    assert!(!matches_path("/\u{1f375}", "/\u{1f376}"));
    assert!(matches_path("/\u{2f2a}", "/\u{2f2a}"));
    assert!(!matches_path("/\u{2f2a}", "/anything"));
}

#[test]
fn bytes_are_matched_as_they_come() {
    assert!(bytes_match(b"/login", b"/login"));
    assert!(bytes_match(b"/login", b"/login/mfa"));
    assert!(!bytes_match(b"/login", b"/loginx"));
    assert!(bytes_match(b"/unsecure/*", b"/unsecure/\xff\xfe"));
    assert!(!bytes_match(b"/unsecure/*", b"/unsecure"));
    assert!(bytes_match(b"*", b""));
    assert!(bytes_match(b"", b""));
    assert!(bytes_match(b"\xc3", b"\xc3/\xa9"));
    assert!(!bytes_match(b"\xc3", b"\xc3\xa9"));
}

#[test]
fn pattern_order_and_repetition_do_not_matter() {
    let one = PathMatcher::new(vec!["/a", "/b/*", "/c"], false);
    let other = PathMatcher::new(vec!["/c", "/a", "/b/*", "/a"], false);
    for path in ["/a", "/a/x", "/b", "/b/x", "/c", "/c/d", "/d", "/"] {
        assert_eq!(one.is_protected(path), other.is_protected(path));
    }
}

#[test]
fn an_empty_list_protects_nothing_or_everything() {
    let none = PathMatcher::new(vec![], false);
    let all = PathMatcher::new(vec![], true);
    for path in ["", "/", "/login", "/a/b"] {
        assert!(!none.is_protected(path));
        assert!(all.is_protected(path));
    }
}

#[test]
fn the_default_matcher_protects_every_path() {
    let matcher = PathMatcher::default();
    assert!(matcher.is_protected("/"));
    assert!(matcher.is_protected("/login"));
    assert!(matcher.is_protected(""));
    assert!(!matcher.matches("/login"));
}

#[test]
fn the_middleware_guards_what_its_matcher_protects() {
    let middleware = AuthMiddleware::new(PathMatcher::new(vec!["/login", "/unsecure/*"], true));
    assert!(!middleware.requires_authentication("/login"));
    assert!(!middleware.requires_authentication("/unsecure/x"));
    assert!(middleware.requires_authentication("/secured-route"));
}

#[test]
fn the_state_of_a_request_follows_path_principal_and_factor() {
    let plain = AuthMiddleware::new(PathMatcher::new(vec!["/login"], true));
    let with_factor = AuthMiddleware::new_with_factor(PathMatcher::new(vec!["/login"], true));
    for resolved in [false, true] {
        for satisfied in [false, true] {
            assert_eq!(plain.state("/login", resolved, satisfied), RequestState::Exempt);
            assert_eq!(with_factor.state("/login/mfa", resolved, satisfied), RequestState::Exempt);
        }
    }
    assert_eq!(plain.state("/secured", false, false), RequestState::Unauthenticated);
    assert_eq!(plain.state("/secured", false, true), RequestState::Unauthenticated);
    assert_eq!(plain.state("/secured", true, false), RequestState::Authenticated);
    assert_eq!(plain.state("/secured", true, true), RequestState::Authenticated);
    assert_eq!(with_factor.state("/secured", false, false), RequestState::Unauthenticated);
    assert_eq!(with_factor.state("/secured", false, true), RequestState::Unauthenticated);
    assert_eq!(with_factor.state("/secured", true, false), RequestState::AwaitingFactor);
    assert_eq!(with_factor.state("/secured", true, true), RequestState::Authenticated);
}
