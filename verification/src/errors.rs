use vstd::prelude::*;

verus! {

/// The externally visible error taxonomy.  Any lower-layer failure that does
/// not match a recognized domain condition collapses to `UnexpectedError`,
/// so no internal detail crosses the boundary.
#[derive(Clone, Copy, Debug, PartialEq, Eq, Structural)]
pub enum AuthAPIError {
    UserAlreadyExists,
    InvalidCredentials,
    IncorrectCredentials,
    InvalidToken,
    MissingToken,
    UnexpectedError,
}

impl AuthAPIError {
    /// The HTTP status code and body message a transport layer should report
    /// for this error.
    pub fn status_and_message(&self) -> (r: (u16, String))
        ensures
            *self == AuthAPIError::UserAlreadyExists ==> r.0 == 409 && r.1@
                == "User already exists"@,
            *self == AuthAPIError::InvalidCredentials ==> r.0 == 400 && r.1@
                == "Invalid credentials"@,
            *self == AuthAPIError::IncorrectCredentials ==> r.0 == 401 && r.1@
                == "Incorrect credentials"@,
            *self == AuthAPIError::MissingToken ==> r.0 == 400 && r.1@ == "Missing auth token"@,
            *self == AuthAPIError::InvalidToken ==> r.0 == 401 && r.1@ == "Invalid auth token"@,
            *self == AuthAPIError::UnexpectedError ==> r.0 == 500 && r.1@ == "Unexpected error"@,
    {
        match self {
            AuthAPIError::UserAlreadyExists => (409, String::from_str("User already exists")),
            AuthAPIError::InvalidCredentials => (400, String::from_str("Invalid credentials")),
            AuthAPIError::IncorrectCredentials => (
                401,
                String::from_str("Incorrect credentials"),
            ),
            AuthAPIError::MissingToken => (400, String::from_str("Missing auth token")),
            AuthAPIError::InvalidToken => (401, String::from_str("Invalid auth token")),
            AuthAPIError::UnexpectedError => (500, String::from_str("Unexpected error")),
        }
    }
}

/// Failures of the credential store capability.
#[derive(Clone, Copy, Debug, PartialEq, Eq, Structural)]
pub enum UserStoreError {
    UserAlreadyExists,
    UserNotFound,
    InvalidCredentials,
    UnexpectedError,
}

/// Failures of the revocation (banned token) store capability.
#[derive(Clone, Copy, Debug, PartialEq, Eq, Structural)]
pub enum BannedTokenStoreError {
    UnexpectedError,
}

/// Failures of the two-factor challenge store capability.
#[derive(Clone, Copy, Debug, PartialEq, Eq, Structural)]
pub enum TwoFACodeStoreError {
    LoginAttemptIdNotFound,
    UnexpectedError,
}

/// The JSON body shape a transport layer uses to report an error message.
pub struct ErrorResponse {
    pub error: String,
}

} // verus!
