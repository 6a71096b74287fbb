use vstd::prelude::*;

use crate::domain::decimal::int_to_decimal;

use crate::domain::data_stores::{TWO_FA_CODE_MAX, TWO_FA_CODE_MIN, is_valid_two_fa_code, user_store_validate, uuid_text};
use crate::domain::{
    AuthAPIError, Email, LoginAttemptId, Password, TwoFACode, TwoFACodeStore, UserStore,
};

verus! {

/// What a client sends to log in.
pub struct LoginRequest {
    pub email: Email,
    pub password: Password,
}

/// What the service answers to a second-factor log-in that is under way.
#[derive(Debug)]
pub struct TwoFactorAuthResponse {
    pub message: String,
    pub login_attempt_id: String,
}

/// The two answers of a log-in that succeeded.
#[derive(Debug)]
pub enum LoginResponse {
    RegularAuth(String),
    TwoFactorAuth(TwoFactorAuthResponse),
}

/// What a log-in that passed the credential check asks the caller to do.
pub enum LoginStep {
    /// Issue the auth cookie for this address, then answer with
    /// `handle_no_2fa`.
    IssueAuthCookie(Email),
    /// E-mail this code to this address, then answer with `handle_2fa`;
    /// the attempt and code are already stored.
    SendTwoFACode(Email, LoginAttemptId, TwoFACode),
}

/// The HTTP status of a log-in without a second factor.
pub const STATUS_OK: u16 = 200;

/// The HTTP status of a log-in that waits for its second factor.
pub const STATUS_PARTIAL_CONTENT: u16 = 206;

/// Checks the credentials of a log-in. A refused log-in is answered with
/// `IncorrectCredentials` and changes nothing. A user without a second
/// factor gets a cookie; for one with a second factor a fresh attempt and
/// a fresh valid code are stored for the address (replacing any pending
/// one) and must be sent; the attempt is a fresh version-4 UUID and the
/// code the decimal text of a number in 100000..=999999.
pub fn login_handler<U: UserStore, T: TwoFACodeStore>(
    user_store: &U,
    two_fa_code_store: &mut T,
    info: &LoginRequest,
) -> (r: Result<LoginStep, AuthAPIError>)
    requires
        user_store.well_formed(),
        old(two_fa_code_store).well_formed(),
    ensures
        final(two_fa_code_store).well_formed(),
        match r {
            Err(e) => e == AuthAPIError::IncorrectCredentials && user_store_validate(
                user_store.users(),
                info.email@,
                info.password@,
            ) is Err && final(two_fa_code_store).codes() == old(two_fa_code_store).codes(),
            Ok(LoginStep::IssueAuthCookie(email)) => user_store_validate(
                user_store.users(),
                info.email@,
                info.password@,
            ) is Ok && !user_store.users()[info.email@].requires_2fa && email@ == info.email@
                && final(two_fa_code_store).codes() == old(two_fa_code_store).codes(),
            Ok(LoginStep::SendTwoFACode(email, login_attempt_id, code)) => user_store_validate(
                user_store.users(),
                info.email@,
                info.password@,
            ) is Ok && user_store.users()[info.email@].requires_2fa && email@ == info.email@
                && (login_attempt_id@ >> 76u128) & 0xfu128 == 4 && (login_attempt_id@ >> 62u128)
                & 0x3u128 == 2 && is_valid_two_fa_code(code@) && (exists|n: int|
                TWO_FA_CODE_MIN <= n <= TWO_FA_CODE_MAX && code@ == int_to_decimal(n)) && final(two_fa_code_store).codes() == old(
                two_fa_code_store,
            ).codes().insert(email@, (login_attempt_id@, code@)),
        },
{
    if user_store.validate_user(&info.email, &info.password).is_err() {
        return Err(AuthAPIError::IncorrectCredentials);
    }
    let user = match user_store.get_user(&info.email) {
        Ok(user) => user,
        Err(_) => {
            return Err(AuthAPIError::IncorrectCredentials);
        },
    };
    if user.requires_2fa() {
        let login_attempt_id = LoginAttemptId::default();
        let two_fa_code = TwoFACode::default();
        let email = user.email().duplicate();
        match two_fa_code_store.add_code(
            email.duplicate(),
            login_attempt_id.duplicate(),
            two_fa_code.duplicate(),
        ) {
            Ok(()) => Ok(LoginStep::SendTwoFACode(email, login_attempt_id, two_fa_code)),
            Err(_) => Err(AuthAPIError::UnexpectedError),
        }
    } else {
        Ok(LoginStep::IssueAuthCookie(user.email().duplicate()))
    }
}

/// Answers a second-factor log-in once the code was (or failed to be)
/// e-mailed: 206 with the attempt's identifier, or `UnexpectedError`.
pub fn handle_2fa(code_sent: bool, login_attempt_id: &LoginAttemptId) -> (r: Result<
    (u16, LoginResponse),
    AuthAPIError,
>)
    ensures
        code_sent ==> (r matches Ok((status, LoginResponse::TwoFactorAuth(body))) && status
            == STATUS_PARTIAL_CONTENT && body.message@ == "2FA required"@ && body.login_attempt_id@
            == uuid_text(login_attempt_id@)),
        !code_sent ==> r == Err::<(u16, LoginResponse), AuthAPIError>(
            AuthAPIError::UnexpectedError,
        ),
{
    if !code_sent {
        return Err(AuthAPIError::UnexpectedError);
    }
    let body = TwoFactorAuthResponse {
        message: String::from_str("2FA required"),
        login_attempt_id: login_attempt_id.to_string(),
    };
    Ok((STATUS_PARTIAL_CONTENT, LoginResponse::TwoFactorAuth(body)))
}

/// Answers a log-in without a second factor once the auth cookie was (or
/// failed to be) issued: 200 with `User logged in`, or `UnexpectedError`.
pub fn handle_no_2fa(cookie_issued: bool) -> (r: Result<(u16, LoginResponse), AuthAPIError>)
    ensures
        cookie_issued ==> (r matches Ok((status, LoginResponse::RegularAuth(text))) && status
            == STATUS_OK && text@ == "User logged in"@),
        !cookie_issued ==> r == Err::<(u16, LoginResponse), AuthAPIError>(
            AuthAPIError::UnexpectedError,
        ),
{
    if cookie_issued {
        Ok((STATUS_OK, LoginResponse::RegularAuth(String::from_str("User logged in"))))
    } else {
        Err(AuthAPIError::UnexpectedError)
    }
}

} // verus!
