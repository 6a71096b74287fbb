use vstd::prelude::*;

verus! {

/// What a route answers when it refuses a request.
#[derive(Debug, PartialEq, Eq, Structural)]
pub enum AuthAPIError {
    UserAlreadyExists,
    InvalidCredentials,
    IncorrectCredentials,
    MissingToken,
    InvalidToken,
    UnexpectedError,
}

impl AuthAPIError {
    /// The HTTP status that answers the error.
    pub fn status_code(&self) -> (code: u16)
        ensures
            code == (match self {
                AuthAPIError::UserAlreadyExists => 409u16,
                AuthAPIError::InvalidCredentials => 400u16,
                AuthAPIError::IncorrectCredentials => 401u16,
                AuthAPIError::MissingToken => 400u16,
                AuthAPIError::InvalidToken => 401u16,
                AuthAPIError::UnexpectedError => 500u16,
            }),
    {
        match self {
            AuthAPIError::UserAlreadyExists => 409,
            AuthAPIError::InvalidCredentials => 400,
            AuthAPIError::IncorrectCredentials => 401,
            AuthAPIError::MissingToken => 400,
            AuthAPIError::InvalidToken => 401,
            AuthAPIError::UnexpectedError => 500,
        }
    }
}

/// Why an e-mail address or a password was refused.
#[derive(Debug, PartialEq, Eq, Structural)]
pub enum UserInfoError {
    InvalidEmail,
    InvalidPassword,
}

impl UserInfoError {
    /// The text of the error, as its `Debug` form writes it.
    pub fn to_string(&self) -> (s: String)
        ensures
            s@ == (match self {
                UserInfoError::InvalidEmail => "InvalidEmail"@,
                UserInfoError::InvalidPassword => "InvalidPassword"@,
            }),
    {
        match self {
            UserInfoError::InvalidEmail => String::from_str("InvalidEmail"),
            UserInfoError::InvalidPassword => String::from_str("InvalidPassword"),
        }
    }
}

} // verus!
