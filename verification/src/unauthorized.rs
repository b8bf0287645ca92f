//! The one refusal that the middleware knows.

use vstd::prelude::*;

verus! {

/// The status with which a refusal is answered.
pub const UNAUTHORIZED_STATUS: u16 = 401;

/// A request was turned away: it came without a valid principal for a guarded
/// path, or asked for a token where none was injected.
#[derive(Debug)]
pub struct UnauthorizedError {
    message: String,
}

impl View for UnauthorizedError {
    type V = Seq<char>;

    /// The message that the refusal carries.
    closed spec fn view(&self) -> Seq<char> {
        self.message@
    }
}

impl UnauthorizedError {
    /// A refusal with the given message.
    pub fn new(message: &str) -> (e: Self)
        ensures
            e@ == message@,
    {
        Self { message: message.to_owned() }
    }

    /// The message, which goes out as the body of the response.
    pub fn message(&self) -> (message: &str)
        ensures
            message@ == self@,
    {
        self.message.as_str()
    }

    /// The status of the response, whatever the message.
    pub fn status_code(&self) -> (status: u16)
        ensures
            status == UNAUTHORIZED_STATUS,
    {
        UNAUTHORIZED_STATUS
    }
}

impl Default for UnauthorizedError {
    /// The refusal with the message "Not authorized".
    fn default() -> (e: Self)
        ensures
            e@ == "Not authorized"@,
    {
        Self { message: "Not authorized".to_owned() }
    }
}

} // verus!
