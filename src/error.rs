use vstd::prelude::*;

use crate::session_value::SessionError;

verus! {

/// How an authentication step can fail outright.
#[derive(Debug, Clone, Copy, PartialEq, Eq, Structural)]
pub enum AuthError {
    /// The anti-forgery token is missing from the session or does not match.
    Forgery,
    /// A value the step reads from the session could not be decoded.
    Session(SessionError),
    /// An email address that mail would go to does not parse.
    InvalidEmail,
}

} // verus!
