use vstd::prelude::*;

use crate::domain::data_stores::user_store_add;
use crate::domain::user::{is_valid_email, is_valid_password};
use crate::domain::{AuthAPIError, Email, Password, User, UserInfoError, UserModel, UserStore, UserStoreError};

verus! {

/// What a client sends to sign up.
pub struct SignupRequest {
    pub email: String,
    pub password: String,
    pub requires_2fa: bool,
}

/// What the service answers to a sign-up that succeeded.
#[derive(PartialEq, Eq, Debug)]
pub struct SignupResponse {
    pub message: String,
}

/// The HTTP status of a created user.
pub const STATUS_CREATED: u16 = 201;

impl User {
    /// Builds a user from a sign-up request: the address is checked first
    /// (`InvalidEmail`), then the password (`InvalidPassword`).
    pub fn try_from(value: SignupRequest) -> (r: Result<User, UserInfoError>)
        ensures
            match r {
                Ok(u) => is_valid_email(value.email@) && is_valid_password(value.password@) && u@
                    == (UserModel {
                    email: value.email@,
                    password: value.password@,
                    requires_2fa: value.requires_2fa,
                }),
                Err(e) => if !is_valid_email(value.email@) {
                    e == UserInfoError::InvalidEmail
                } else {
                    !is_valid_password(value.password@) && e == UserInfoError::InvalidPassword
                },
            },
    {
        let email = Email::new(value.email.as_str())?;
        let password = Password::new(value.password.as_str())?;
        User::new(email, password, value.requires_2fa)
    }
}

/// What signing up does to the users and answers: `InvalidCredentials` for
/// a bad address or password, `UserAlreadyExists` for a taken address,
/// 201 once the user is added.
pub open spec fn signup_step(
    users: Map<Seq<char>, UserModel>,
    email: Seq<char>,
    password: Seq<char>,
    requires_2fa: bool,
) -> (Map<Seq<char>, UserModel>, Result<u16, AuthAPIError>) {
    if !is_valid_email(email) || !is_valid_password(password) {
        (users, Err(AuthAPIError::InvalidCredentials))
    } else {
        let (after, added) = user_store_add(
            users,
            UserModel { email, password, requires_2fa },
        );
        match added {
            Ok(()) => (after, Ok(STATUS_CREATED)),
            Err(UserStoreError::UserAlreadyExists) => (after, Err(AuthAPIError::UserAlreadyExists)),
            Err(_) => (after, Err(AuthAPIError::UnexpectedError)),
        }
    }
}

/// Signs a user up.
pub fn signup_handler<S: UserStore>(user_store: &mut S, info: SignupRequest) -> (r: Result<
    (u16, SignupResponse),
    AuthAPIError,
>)
    requires
        old(user_store).well_formed(),
    ensures
        final(user_store).well_formed(),
        match r {
            Ok((status, response)) => signup_step(
                old(user_store).users(),
                info.email@,
                info.password@,
                info.requires_2fa,
            ) == (final(user_store).users(), Ok::<u16, AuthAPIError>(status))
                && response.message@ == "User created successfully!"@,
            Err(e) => signup_step(
                old(user_store).users(),
                info.email@,
                info.password@,
                info.requires_2fa,
            ) == (final(user_store).users(), Err::<u16, AuthAPIError>(e)),
        },
{
    let user = match User::try_from(info) {
        Ok(user) => user,
        Err(_) => {
            return Err(AuthAPIError::InvalidCredentials);
        },
    };
    match user_store.add_user(user) {
        Ok(()) => {},
        Err(UserStoreError::UserAlreadyExists) => {
            return Err(AuthAPIError::UserAlreadyExists);
        },
        Err(_) => {
            return Err(AuthAPIError::UnexpectedError);
        },
    }
    Ok((STATUS_CREATED, SignupResponse { message: String::from_str("User created successfully!") }))
}

} // verus!
