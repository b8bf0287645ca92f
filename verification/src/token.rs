//! The principal of a request, and the tokens through which handlers reach it.

use crate::unauthorized::UnauthorizedError;
use std::marker::PhantomData;
use vstd::prelude::*;

verus! {

/// One resolved principal of a request and whether it still counts.
pub struct Resolution<U> {
    pub user: U,
    pub is_valid: bool,
}

/// What a request carries along on its way to the handlers: every principal that
/// was resolved for it, and the token that the middleware injected, if it did.
pub struct RequestContext<U> {
    resolutions: Vec<Resolution<U>>,
    injected: Option<usize>,
}

/// A [`RequestContext`] as contracts see it.
pub struct RequestContextView<U> {
    pub resolutions: Seq<Resolution<U>>,
    pub injected: Option<usize>,
}

/// A handle on one resolved principal of a request.
///
/// Any number of tokens may stand for the same resolution. None of them owns it:
/// the [`RequestContext`] does, and a token reads and invalidates it there.
///
/// A token names its resolution by the place that the resolution has in its
/// context, and by nothing else. It is meant for the context that issued it, and
/// every function that takes a token together with a context goes by the place
/// alone: handed the context of another request, a token stands for whatever
/// that context holds in the same place, or for nothing. Keep a token with the
/// context of its own request.
pub struct AuthToken<U> {
    slot: usize,
    principal: PhantomData<U>,
}

impl<U> View for RequestContext<U> {
    type V = RequestContextView<U>;

    closed spec fn view(&self) -> RequestContextView<U> {
        RequestContextView { resolutions: self.resolutions@, injected: self.injected }
    }
}

impl<U> RequestContextView<U> {
    /// Whether the token stands for a resolution of this context.
    pub open spec fn holds(self, token: AuthToken<U>) -> bool {
        token.slot() < self.resolutions.len()
    }

    /// Whether the token stands for a resolution that still counts.
    pub open spec fn valid(self, token: AuthToken<U>) -> bool {
        self.holds(token) && self.resolutions[token.slot() as int].is_valid
    }

    /// The principal that the token stands for.
    pub open spec fn user(self, token: AuthToken<U>) -> U
        recommends
            self.holds(token),
    {
        self.resolutions[token.slot() as int].user
    }

    /// Whether the context may have come to this state from `earlier`: every
    /// resolution of `earlier` is still there with its principal, and none that
    /// had been invalidated counts again.
    pub open spec fn follows(self, earlier: RequestContextView<U>) -> bool {
        &&& earlier.resolutions.len() <= self.resolutions.len()
        &&& forall|i: int|
            0 <= i < earlier.resolutions.len() ==> (#[trigger] self.resolutions[i]).user
                == earlier.resolutions[i].user
        &&& forall|i: int|
            0 <= i < earlier.resolutions.len() && !earlier.resolutions[i].is_valid ==> !(
            #[trigger] self.resolutions[i]).is_valid
    }

    /// Whether a token was injected whose resolution no longer counts.
    pub open spec fn revoked(self) -> bool {
        match self.injected {
            Some(slot) => slot < self.resolutions.len() && !self.resolutions[slot as int].is_valid,
            None => false,
        }
    }

    /// The state after the resolution in `slot` has been invalidated.
    pub open spec fn invalidated(self, slot: usize) -> RequestContextView<U> {
        if slot < self.resolutions.len() {
            RequestContextView {
                resolutions: self.resolutions.update(
                    slot as int,
                    Resolution { user: self.resolutions[slot as int].user, is_valid: false },
                ),
                injected: self.injected,
            }
        } else {
            self
        }
    }
}

impl<U> RequestContext<U> {
    /// The context of a request for which nothing has been resolved yet.
    pub fn new() -> (ctx: Self)
        ensures
            ctx@.resolutions.len() == 0,
            ctx@.injected is None,
    {
        RequestContext { resolutions: Vec::new(), injected: None }
    }

    /// Makes `token` the one that handlers get when they ask for the principal.
    pub fn inject(&mut self, token: &AuthToken<U>)
        ensures
            final(self)@.resolutions == old(self)@.resolutions,
            final(self)@.injected == Some(token.slot()),
            final(self)@.follows(old(self)@),
    {
        self.injected = Some(token.slot);
    }

    /// Whether the principal that was injected has been invalidated since. Once the
    /// handlers are done, this tells whether the session's authentication has to
    /// end with the request.
    pub fn is_revoked(&self) -> (revoked: bool)
        ensures
            revoked == self@.revoked(),
    {
        match self.injected {
            Some(slot) => slot < self.resolutions.len() && !self.resolutions[slot].is_valid,
            None => false,
        }
    }

    /// The token for a handler that asks for the principal: another handle on the
    /// resolution that the middleware injected. Where it injected none, because
    /// the path is open or the request was turned away, the handler is refused.
    pub fn extract(&self) -> (res: Result<AuthToken<U>, UnauthorizedError>)
        ensures
            self@.injected matches Some(slot) ==> (res matches Ok(token) && token.slot() == slot),
            self@.injected is None ==> (res matches Err(e) && e@ == "Not authorized"@),
    {
        match self.injected {
            Some(slot) => Ok(AuthToken { slot, principal: PhantomData }),
            None => Err(UnauthorizedError::default()),
        }
    }
}

impl<U> AuthToken<U> {
    /// The place of the token's resolution in its context.
    pub closed spec fn slot(self) -> usize {
        self.slot
    }

    /// Whether two tokens stand for the same resolution.
    pub open spec fn shares_with(self, other: AuthToken<U>) -> bool {
        self.slot() == other.slot()
    }

    /// Records `user` in the context as a newly resolved principal and hands out
    /// the first token for it. The resolution counts from the start.
    pub fn new(user: U, ctx: &mut RequestContext<U>) -> (token: Self)
        ensures
            token.slot() == old(ctx)@.resolutions.len(),
            final(ctx)@.resolutions == old(ctx)@.resolutions.push(Resolution { user, is_valid: true }),
            final(ctx)@.injected == old(ctx)@.injected,
            final(ctx)@.valid(token),
            final(ctx)@.user(token) == user,
            final(ctx)@.follows(old(ctx)@),
    {
        let slot = ctx.resolutions.len();
        ctx.resolutions.push(Resolution { user, is_valid: true });
        AuthToken { slot, principal: PhantomData }
    }

    /// Another token for the resolution that `token` stands for.
    pub fn from_ref(token: &AuthToken<U>) -> (other: Self)
        ensures
            other.shares_with(*token),
    {
        AuthToken { slot: token.slot, principal: PhantomData }
    }

    /// The principal, for as long as the context is not changed. A token that the
    /// context does not hold gets nothing. `ctx` has to be the context that issued
    /// the token: in any other, the token yields the principal that stands in the
    /// same place there.
    pub fn get_authenticated_user<'a>(&self, ctx: &'a RequestContext<U>) -> (user: Option<&'a U>)
        ensures
            ctx@.holds(*self) ==> user == Some(&ctx@.user(*self)),
            !ctx@.holds(*self) ==> user is None,
    {
        if self.slot < ctx.resolutions.len() {
            Some(&ctx.resolutions[self.slot].user)
        } else {
            None
        }
    }

    /// Whether the resolution still counts. `ctx` has to be the context that issued
    /// the token: in any other, the answer is that of the resolution in the same
    /// place there, and `false` where there is none.
    pub fn is_valid(&self, ctx: &RequestContext<U>) -> (valid: bool)
        ensures
            valid == ctx@.valid(*self),
    {
        self.slot < ctx.resolutions.len() && ctx.resolutions[self.slot].is_valid
    }

    /// Ends the resolution's validity, for this token and for every other that
    /// stands for the same resolution. Nothing else changes. `ctx` has to be the
    /// context that issued the token: in any other, the resolution in the same
    /// place there is the one that ends, and nothing happens where there is none.
    pub fn invalidate(&self, ctx: &mut RequestContext<U>)
        ensures
            final(ctx)@ == old(ctx)@.invalidated(self.slot()),
            final(ctx)@.follows(old(ctx)@),
            forall|other: AuthToken<U>| #[trigger] other.shares_with(*self) ==> !final(ctx)@.valid(other),
    {
        if self.slot < ctx.resolutions.len() {
            ctx.resolutions[self.slot].is_valid = false;
        }
    }
}

/// Invalidating through one token is seen through every token that stands for the
/// same resolution: after it, none of them is valid.
pub proof fn lemma_invalidation_is_shared<U>(
    ctx: RequestContextView<U>,
    used: AuthToken<U>,
    other: AuthToken<U>,
)
    requires
        other.shares_with(used),
    ensures
        !ctx.invalidated(used.slot()).valid(other),
{
}

/// Invalidating one resolution leaves every other resolution as it was: a token
/// for another resolution is valid afterwards exactly if it was before, and its
/// principal is the same.
pub proof fn lemma_invalidation_is_confined<U>(
    ctx: RequestContextView<U>,
    used: AuthToken<U>,
    other: AuthToken<U>,
)
    requires
        !other.shares_with(used),
    ensures
        ctx.invalidated(used.slot()).valid(other) == ctx.valid(other),
        ctx.invalidated(used.slot()).holds(other) == ctx.holds(other),
        ctx.holds(other) ==> ctx.invalidated(used.slot()).user(other) == ctx.user(other),
{
}

/// Invalidity is never reversed: a token that a context holds and that is not
/// valid there is not valid in any state that follows.
pub proof fn lemma_invalid_stays_invalid<U>(
    earlier: RequestContextView<U>,
    later: RequestContextView<U>,
    token: AuthToken<U>,
)
    requires
        later.follows(earlier),
        earlier.holds(token),
        !earlier.valid(token),
    ensures
        later.holds(token),
        !later.valid(token),
{
}

/// Once the injected principal has been invalidated, through whichever token, the
/// context reports it as revoked, and goes on to do so whatever is resolved or
/// invalidated after.
pub proof fn lemma_revocation_is_seen<U>(
    ctx: RequestContextView<U>,
    used: AuthToken<U>,
    later: RequestContextView<U>,
)
    requires
        ctx.injected == Some(used.slot()),
        ctx.holds(used),
        later.follows(ctx.invalidated(used.slot())),
        later.injected == ctx.injected,
    ensures
        ctx.invalidated(used.slot()).revoked(),
        later.revoked(),
{
}

/// A token keeps its principal in every state that follows.
pub proof fn lemma_principal_is_kept<U>(
    earlier: RequestContextView<U>,
    later: RequestContextView<U>,
    token: AuthToken<U>,
)
    requires
        later.follows(earlier),
        earlier.holds(token),
    ensures
        later.holds(token),
        later.user(token) == earlier.user(token),
{
}

/// States that follow one another follow the first: what holds from one change of
/// a context to the next holds over any number of changes.
pub proof fn lemma_follows_is_transitive<U>(
    first: RequestContextView<U>,
    second: RequestContextView<U>,
    third: RequestContextView<U>,
)
    requires
        second.follows(first),
        third.follows(second),
    ensures
        third.follows(first),
{
}

} // verus!
