//! Request-time authentication with an optional second-factor challenge.
//!
//! The crate holds the decisions of an authentication middleware, each with a
//! contract that Verus proves:
//!
//! - [`path_matcher`] tells guarded paths from open ones by a list of patterns;
//!   [`path_segments`] shows what its matching means segment by segment, and
//!   [`path_bytes`] that it may be done on the bytes of a path.
//! - [`middleware`] decides, for a request on a guarded path, between a token for
//!   the handlers and a refusal.
//! - [`token`] keeps the principal of a request and the tokens that stand for it,
//!   any of which can end its validity for all.
//! - [`multifactor`] issues a one-time code into a session and checks a response
//!   against it, reading the time from [`clock`] and the session through
//!   [`session`].
//! - [`unauthorized`] is the refusal itself.
//!
//! Running the decisions inside a web server, awaiting the provider of principals
//! and turning refusals into responses is left to the application.

pub mod clock;
pub mod middleware;
pub mod multifactor;
pub mod path_bytes;
pub mod path_matcher;
pub mod path_segments;
pub mod session;
pub mod token;
pub mod unauthorized;

pub use crate::token::AuthToken;
pub use crate::token::RequestContext;
pub use crate::unauthorized::UnauthorizedError;
