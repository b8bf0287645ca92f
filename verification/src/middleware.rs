//! What the middleware decides for a request.

pub use crate::path_matcher::PathMatcher;

use crate::path_matcher::PathMatcherView;
use crate::token::AuthToken;
use crate::token::RequestContext;
use crate::token::Resolution;
use crate::unauthorized::UnauthorizedError;
use vstd::prelude::*;

verus! {

/// Where a request stands with the middleware.
#[derive(Clone, Copy, Debug, PartialEq, Eq, Structural)]
pub enum RequestState {
    /// The path is open: the request passes as it came.
    Exempt,
    /// The path is guarded, and no principal was found for the request.
    Unauthenticated,
    /// A principal was found, but the second factor is still owed.
    AwaitingFactor,
    /// A principal was found, and no second factor is owed.
    Authenticated,
}

/// The state of a request: by whether its path is guarded, whether a principal was
/// found for it, whether a second factor is configured and whether the session
/// has answered it.
pub open spec fn request_state(
    guarded: bool,
    resolved: bool,
    factor_configured: bool,
    factor_satisfied: bool,
) -> RequestState {
    if !guarded {
        RequestState::Exempt
    } else if !resolved {
        RequestState::Unauthenticated
    } else if factor_configured && !factor_satisfied {
        RequestState::AwaitingFactor
    } else {
        RequestState::Authenticated
    }
}

/// What the middleware decides for a request on a guarded path.
pub enum Admission<U> {
    /// The request goes on to its handler, with this token injected.
    Granted(AuthToken<U>),
    /// The request is answered with this refusal.
    Denied(UnauthorizedError),
}

/// The deciding part of the middleware: the paths it guards, and whether it asks
/// for a second factor.
pub struct AuthMiddleware {
    path_matcher: PathMatcher,
    factor_configured: bool,
}

impl AuthMiddleware {
    /// The paths that the middleware guards.
    pub closed spec fn matcher(&self) -> PathMatcherView {
        self.path_matcher@
    }

    /// Whether the middleware asks for a second factor.
    pub closed spec fn asks_for_factor(&self) -> bool {
        self.factor_configured
    }

    /// The state of a request for `path`, as this middleware sees it.
    pub open spec fn state_of(&self, path: Seq<char>, resolved: bool, factor_satisfied: bool) -> RequestState {
        request_state(
            self.matcher().protects(path),
            resolved,
            self.asks_for_factor(),
            factor_satisfied,
        )
    }

    /// A middleware without a second factor.
    pub fn new(path_matcher: PathMatcher) -> (middleware: Self)
        ensures
            middleware.matcher() == path_matcher@,
            !middleware.asks_for_factor(),
    {
        AuthMiddleware { path_matcher, factor_configured: false }
    }

    /// A middleware that lets a session through only once it has answered the second
    /// factor.
    pub fn new_with_factor(path_matcher: PathMatcher) -> (middleware: Self)
        ensures
            middleware.matcher() == path_matcher@,
            middleware.asks_for_factor(),
    {
        AuthMiddleware { path_matcher, factor_configured: true }
    }

    /// Whether a request for `path` has to be authenticated before it goes on. A
    /// request for any other path goes on as it came, with no token injected.
    pub fn requires_authentication(&self, path: &str) -> (guarded: bool)
        ensures
            guarded == self.matcher().protects(path@),
            !guarded <==> self.state_of(path@, true, true) is Exempt,
    {
        self.path_matcher.is_protected(path)
    }

    /// The state of a request for `path`.
    pub fn state(&self, path: &str, resolved: bool, factor_satisfied: bool) -> (state: RequestState)
        ensures
            state == self.state_of(path@, resolved, factor_satisfied),
    {
        if !self.path_matcher.is_protected(path) {
            RequestState::Exempt
        } else if !resolved {
            RequestState::Unauthenticated
        } else if self.factor_configured && !factor_satisfied {
            RequestState::AwaitingFactor
        } else {
            RequestState::Authenticated
        }
    }

    /// Decides a request on a guarded path, given what the provider resolved for
    /// it and whether its session has answered the second factor.
    ///
    /// Without a principal the request is refused with the provider's own error.
    /// With a principal but the factor still owed it is refused as well. Else the
    /// principal is recorded in the context and its token injected.
    pub fn authorize<U>(
        &self,
        resolved: Result<U, UnauthorizedError>,
        factor_satisfied: bool,
        ctx: &mut RequestContext<U>,
    ) -> (res: Admission<U>)
        ensures
            admitted(
                request_state(true, resolved is Ok, self.asks_for_factor(), factor_satisfied),
                resolved,
                *old(ctx),
                *final(ctx),
                res,
            ),
            final(ctx)@.follows(old(ctx)@),
    {
        match resolved {
            Err(refusal) => Admission::Denied(refusal),
            Ok(user) => {
                if self.factor_configured && !factor_satisfied {
                    Admission::Denied(UnauthorizedError::default())
                } else {
                    let token = AuthToken::new(user, ctx);
                    ctx.inject(&token);
                    Admission::Granted(token)
                }
            },
        }
    }
}

/// What [`AuthMiddleware::authorize`] does in each state of a request.
pub open spec fn admitted<U>(
    state: RequestState,
    resolved: Result<U, UnauthorizedError>,
    before: RequestContext<U>,
    after: RequestContext<U>,
    res: Admission<U>,
) -> bool {
    match state {
        RequestState::Exempt => false,
        RequestState::Unauthenticated => {
            &&& resolved matches Err(refusal)
            &&& res == Admission::<U>::Denied(refusal)
            &&& after == before
        },
        RequestState::AwaitingFactor => {
            &&& res matches Admission::Denied(refusal)
            &&& refusal@ == "Not authorized"@
            &&& after == before
        },
        RequestState::Authenticated => {
            &&& resolved matches Ok(user)
            &&& res matches Admission::Granted(token)
            &&& after@.resolutions == before@.resolutions.push(Resolution { user, is_valid: true })
            &&& after@.injected == Some(token.slot())
            &&& after@.valid(token)
            &&& after@.user(token) == user
        },
    }
}

} // verus!
