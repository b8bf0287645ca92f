use authfix::middleware::Admission;
use authfix::middleware::AuthMiddleware;
use authfix::middleware::PathMatcher;
use authfix::AuthToken;
use authfix::RequestContext;
use authfix::UnauthorizedError;

#[derive(Debug, PartialEq)]
struct User {
    email: String,
}

fn anna() -> User {
    User { email: "anna@example.org".to_owned() }
}

fn bob() -> User {
    User { email: "bob@example.org".to_owned() }
}

#[test]
fn a_new_token_is_valid_and_yields_its_user() {
    let mut ctx = RequestContext::new();
    let token = AuthToken::new(anna(), &mut ctx);
    assert!(token.is_valid(&ctx));
    assert_eq!(token.get_authenticated_user(&ctx), Some(&anna()));
}

#[test]
fn invalidating_one_handle_invalidates_every_handle_of_the_resolution() {
    let mut ctx = RequestContext::new();
    let first = AuthToken::new(anna(), &mut ctx);
    let second = AuthToken::from_ref(&first);
    let third = AuthToken::from_ref(&second);
    assert!(first.is_valid(&ctx) && second.is_valid(&ctx) && third.is_valid(&ctx));
    second.invalidate(&mut ctx);
    assert!(!first.is_valid(&ctx));
    assert!(!second.is_valid(&ctx));
    assert!(!third.is_valid(&ctx));
    assert!(!AuthToken::from_ref(&first).is_valid(&ctx));
}

#[test]
fn invalidity_is_never_reversed() {
    let mut ctx = RequestContext::new();
    let token = AuthToken::new(anna(), &mut ctx);
    token.invalidate(&mut ctx);
    token.invalidate(&mut ctx);
    assert!(!token.is_valid(&ctx));
    let later = AuthToken::new(bob(), &mut ctx);
    ctx.inject(&later);
    assert!(later.is_valid(&ctx));
    assert!(!token.is_valid(&ctx));
    later.invalidate(&mut ctx);
    assert!(!token.is_valid(&ctx));
    assert!(!later.is_valid(&ctx));
}

#[test]
fn invalidating_one_resolution_spares_the_others() {
    let mut ctx = RequestContext::new();
    let for_anna = AuthToken::new(anna(), &mut ctx);
    let for_bob = AuthToken::new(bob(), &mut ctx);
    for_anna.invalidate(&mut ctx);
    assert!(!for_anna.is_valid(&ctx));
    assert!(for_bob.is_valid(&ctx));
    assert_eq!(for_bob.get_authenticated_user(&ctx), Some(&bob()));
}

#[test]
fn an_invalidated_token_still_names_its_user() {
    let mut ctx = RequestContext::new();
    let token = AuthToken::new(anna(), &mut ctx);
    token.invalidate(&mut ctx);
    assert_eq!(token.get_authenticated_user(&ctx), Some(&anna()));
}

#[test]
fn a_token_of_another_request_counts_for_nothing() {
    let mut ctx = RequestContext::new();
    let token = AuthToken::new(anna(), &mut ctx);
    let mut other: RequestContext<User> = RequestContext::new();
    assert!(!token.is_valid(&other));
    assert_eq!(token.get_authenticated_user(&other), None);
    token.invalidate(&mut other);
    assert!(token.is_valid(&ctx));
}

#[test]
fn a_token_goes_by_its_place_in_whatever_context_it_is_given() {
    let mut own = RequestContext::new();
    let token = AuthToken::new(anna(), &mut own);
    let mut other = RequestContext::new();
    let _theirs = AuthToken::new(bob(), &mut other);
    assert_eq!(token.get_authenticated_user(&own), Some(&anna()));
    assert_eq!(token.get_authenticated_user(&other), Some(&bob()));
    assert!(token.is_valid(&other));
    token.invalidate(&mut other);
    assert!(!token.is_valid(&other));
    assert!(token.is_valid(&own));
}

#[test]
fn extraction_without_an_injected_token_is_refused() {
    let ctx: RequestContext<User> = RequestContext::new();
    match ctx.extract() {
        Ok(_) => panic!("nothing was injected"),
        Err(e) => {
            assert_eq!(e.message(), "Not authorized");
            assert_eq!(e.status_code(), 401);
        }
    }
}

#[test]
fn extraction_yields_a_handle_on_the_injected_resolution() {
    let mut ctx = RequestContext::new();
    let _earlier = AuthToken::new(anna(), &mut ctx);
    let token = AuthToken::new(bob(), &mut ctx);
    ctx.inject(&token);
    let extracted = ctx.extract().ok().expect("a token was injected");
    assert_eq!(extracted.get_authenticated_user(&ctx), Some(&bob()));
    extracted.invalidate(&mut ctx);
    assert!(!token.is_valid(&ctx));
    let again = ctx.extract().ok().expect("the token stays injected");
    assert!(!again.is_valid(&ctx));
}

#[test]
fn a_context_is_revoked_once_its_injected_principal_is_invalidated() {
    let mut ctx = RequestContext::new();
    assert!(!ctx.is_revoked());
    let other = AuthToken::new(anna(), &mut ctx);
    let token = AuthToken::new(bob(), &mut ctx);
    ctx.inject(&token);
    assert!(!ctx.is_revoked());
    other.invalidate(&mut ctx);
    assert!(!ctx.is_revoked());
    AuthToken::from_ref(&token).invalidate(&mut ctx);
    assert!(ctx.is_revoked());
    let _later = AuthToken::new(anna(), &mut ctx);
    assert!(ctx.is_revoked());
}

#[test]
fn unauthorized_error_carries_its_message() {
    let e = UnauthorizedError::new("No session");
    assert_eq!(e.message(), "No session");
    assert_eq!(e.status_code(), 401);
    let d = UnauthorizedError::default();
    assert_eq!(d.message(), "Not authorized");
    assert_eq!(d.status_code(), 401);
    assert_eq!(UnauthorizedError::new("").message(), "");
}

#[test]
fn the_middleware_refuses_a_request_without_principal() {
    let middleware = AuthMiddleware::new(PathMatcher::default());
    let mut ctx: RequestContext<User> = RequestContext::new();
    match middleware.authorize(Err(UnauthorizedError::new("No user in session")), true, &mut ctx) {
        Admission::Granted(_) => panic!("there is no principal"),
        Admission::Denied(e) => assert_eq!(e.message(), "No user in session"),
    }
    assert!(ctx.extract().is_err());
}

#[test]
fn the_middleware_grants_a_principal_when_no_factor_is_configured() {
    let middleware = AuthMiddleware::new(PathMatcher::default());
    for satisfied in [false, true] {
        let mut ctx = RequestContext::new();
        match middleware.authorize(Ok(anna()), satisfied, &mut ctx) {
            Admission::Granted(token) => {
                assert!(token.is_valid(&ctx));
                assert_eq!(token.get_authenticated_user(&ctx), Some(&anna()));
            }
            Admission::Denied(_) => panic!("anna is authenticated"),
        }
        let extracted = ctx.extract().ok().expect("the token was injected");
        assert_eq!(extracted.get_authenticated_user(&ctx), Some(&anna()));
    }
}

#[test]
fn the_middleware_refuses_a_principal_that_owes_the_factor() {
    let middleware = AuthMiddleware::new_with_factor(PathMatcher::default());
    let mut ctx = RequestContext::new();
    match middleware.authorize(Ok(anna()), false, &mut ctx) {
        Admission::Granted(_) => panic!("the factor is still owed"),
        Admission::Denied(e) => {
            assert_eq!(e.message(), "Not authorized");
            assert_eq!(e.status_code(), 401);
        }
    }
    assert!(ctx.extract().is_err());
    match middleware.authorize(Ok(anna()), true, &mut ctx) {
        Admission::Granted(token) => assert!(token.is_valid(&ctx)),
        Admission::Denied(_) => panic!("the factor was answered"),
    }
}

#[test]
fn the_middleware_refuses_a_missing_principal_whatever_the_factor() {
    let middleware = AuthMiddleware::new_with_factor(PathMatcher::default());
    for satisfied in [false, true] {
        let mut ctx: RequestContext<User> = RequestContext::new();
        match middleware.authorize(Err(UnauthorizedError::default()), satisfied, &mut ctx) {
            Admission::Granted(_) => panic!("there is no principal"),
            Admission::Denied(e) => assert_eq!(e.message(), "Not authorized"),
        }
    }
}
