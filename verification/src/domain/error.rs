use vstd::prelude::*;

verus! {

broadcast use vstd::string::group_string_axioms;

/// Why a request to the service failed.
#[derive(Debug, PartialEq, Eq)]
pub enum AuthAPIError {
    UserAlreadyExists,
    InvalidCredentials,
    IncorrectCredentials,
    MissingToken,
    InvalidToken,
    UnexpectedError,
}

/// What a handler returns: its answer, or why the request failed.
pub type AppResult<T> = Result<T, AuthAPIError>;

/// The body sent back with a failed request.
#[derive(Debug, PartialEq, Eq)]
pub struct ErrorResponse {
    pub error: String,
}

/// The HTTP status code that answers each error.
pub open spec fn error_status(e: AuthAPIError) -> u16 {
    match e {
        AuthAPIError::UserAlreadyExists => 409,
        AuthAPIError::InvalidCredentials => 400,
        AuthAPIError::IncorrectCredentials => 401,
        AuthAPIError::MissingToken => 400,
        AuthAPIError::InvalidToken => 401,
        AuthAPIError::UnexpectedError => 500,
    }
}

/// The message that explains each error to the client.
pub open spec fn error_message(e: AuthAPIError) -> Seq<char> {
    match e {
        AuthAPIError::UserAlreadyExists => "User already exists"@,
        AuthAPIError::InvalidCredentials => "Invalid credentials"@,
        AuthAPIError::IncorrectCredentials => "Incorrect credentials"@,
        AuthAPIError::MissingToken => "Missing token"@,
        AuthAPIError::InvalidToken => "Invalid auth token"@,
        AuthAPIError::UnexpectedError => "Unexpected error"@,
    }
}

impl AuthAPIError {
    /// The HTTP status code that answers this error.
    pub fn status_code(&self) -> (s: u16)
        ensures
            s == error_status(*self),
    {
        match self {
            AuthAPIError::UserAlreadyExists => 409,
            AuthAPIError::InvalidCredentials => 400,
            AuthAPIError::IncorrectCredentials => 401,
            AuthAPIError::MissingToken => 400,
            AuthAPIError::InvalidToken => 401,
            AuthAPIError::UnexpectedError => 500,
        }
    }

    /// The status code and body that answer this error.
    pub fn error_response(&self) -> (r: (u16, ErrorResponse))
        ensures
            r.0 == error_status(*self),
            r.1.error@ == error_message(*self),
    {
        let message = match self {
            AuthAPIError::UserAlreadyExists => "User already exists",
            AuthAPIError::InvalidCredentials => "Invalid credentials",
            AuthAPIError::IncorrectCredentials => "Incorrect credentials",
            AuthAPIError::MissingToken => "Missing token",
            AuthAPIError::InvalidToken => "Invalid auth token",
            AuthAPIError::UnexpectedError => "Unexpected error",
        };
        (self.status_code(), ErrorResponse { error: message.to_string() })
    }
}

} // verus!
