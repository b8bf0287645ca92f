//! Second factors: a challenge that a session has to answer after the primary
//! login, before the middleware lets it through.

use actix_session::Session;
use actix_session::SessionInsertError;
use vstd::prelude::*;

pub mod random_code_auth;

verus! {

/// Why a response to a challenge was turned down.
#[derive(Debug)]
pub enum CheckCodeError {
    /// The response differs from the pending code. The code stays in place, and
    /// another response may be tried while it has not expired.
    InvalidCode,
    /// The pending code has expired. It is gone; the challenge has to start anew.
    TimeIsUp(String),
    /// The session holds no readable code. Whatever it held is gone.
    UnknownError(String),
}

/// What kept a challenge from being issued.
#[derive(Debug)]
pub enum GenerateCodeCause<E> {
    /// The session did not take the code.
    Session(SessionInsertError),
    /// The sender did not deliver the code.
    Sender(E),
}

/// A challenge could not be issued. The session keeps no trace of the attempt.
#[derive(Debug)]
pub struct GenerateCodeError<E> {
    /// The step that failed, in words.
    pub message: String,
    /// The failure underneath.
    pub cause: GenerateCodeCause<E>,
}

impl<E> GenerateCodeError<E> {
    /// The error that says `message` and hands on `cause`.
    pub fn new_with_cause(message: &str, cause: GenerateCodeCause<E>) -> (e: Self)
        ensures
            e.message@ == message@,
            e.cause == cause,
    {
        GenerateCodeError { message: message.to_owned(), cause }
    }
}

/// A second factor: it issues a challenge into a session and checks a response
/// against it.
pub trait Factor {
    /// What the delivery of a challenge can fail with.
    type SendError;

    /// Issues a new challenge for the session.
    fn generate_code(&self, session: &mut Session) -> Result<
        (),
        GenerateCodeError<Self::SendError>,
    >;

    /// A name that tells this kind of factor from every other kind.
    fn get_unique_id(&self) -> String;

    /// Checks `code` against the challenge that is pending in the session.
    fn check_code(&self, code: &str, session: &mut Session) -> Result<(), CheckCodeError>;
}

} // verus!
