use vstd::prelude::*;

use crate::domain::data_stores::{codes_get, codes_remove};
use crate::domain::{AuthAPIError, Email, LoginAttemptId, TwoFACode, TwoFACodeStore};

verus! {

/// What a client sends to complete a second-factor log-in.
pub struct Verify2FARequest {
    pub email: Email,
    pub login_attempt_id: LoginAttemptId,
    pub two_fa_code: TwoFACode,
}

/// The HTTP status of a verified second factor.
pub const STATUS_VERIFIED: u16 = 200;

/// The HTTP status when the pending code could not be dropped.
pub const STATUS_INTERNAL_SERVER_ERROR: u16 = 500;

/// What verifying a second factor does to the pending codes and answers:
/// `IncorrectCredentials` unless the attempt and the code are the ones
/// pending for the address; otherwise they are dropped, so that they serve
/// once, and the answer is 200 (the auth cookie is then issued).
pub open spec fn verify_2fa_step(
    codes: Map<Seq<char>, (u128, Seq<char>)>,
    email: Seq<char>,
    login_attempt_id: u128,
    code: Seq<char>,
) -> (Map<Seq<char>, (u128, Seq<char>)>, Result<u16, AuthAPIError>) {
    match codes_get(codes, email) {
        Err(_) => (codes, Err(AuthAPIError::IncorrectCredentials)),
        Ok((stored_id, stored_code)) => if stored_id == login_attempt_id && stored_code == code {
            let (after, removed) = codes_remove(codes, email);
            match removed {
                Ok(()) => (after, Ok(STATUS_VERIFIED)),
                Err(_) => (after, Ok(STATUS_INTERNAL_SERVER_ERROR)),
            }
        } else {
            (codes, Err(AuthAPIError::IncorrectCredentials))
        },
    }
}

/// Verifies the second factor of a log-in. On `Ok(200)` the caller issues
/// the auth cookie and answers with `cookie_response`.
pub fn verify_2fa_handler<T: TwoFACodeStore>(two_fa_code_store: &mut T, request: &Verify2FARequest) -> (r:
    Result<u16, AuthAPIError>)
    requires
        old(two_fa_code_store).well_formed(),
    ensures
        final(two_fa_code_store).well_formed(),
        (final(two_fa_code_store).codes(), r) == verify_2fa_step(
            old(two_fa_code_store).codes(),
            request.email@,
            request.login_attempt_id@,
            request.two_fa_code@,
        ),
{
    let code_from_store = match two_fa_code_store.get_code(&request.email) {
        Ok(pair) => pair,
        Err(_) => {
            return Err(AuthAPIError::IncorrectCredentials);
        },
    };
    let (stored_login_attempt_id, stored_code) = code_from_store;
    if stored_login_attempt_id.same_as(&request.login_attempt_id) && stored_code.same_as(
        &request.two_fa_code,
    ) {
        match two_fa_code_store.remove_code(&request.email) {
            Ok(()) => Ok(STATUS_VERIFIED),
            Err(_) => Ok(STATUS_INTERNAL_SERVER_ERROR),
        }
    } else {
        Err(AuthAPIError::IncorrectCredentials)
    }
}

/// The answer once the auth cookie was (or failed to be) issued: 200, or
/// `UnexpectedError`.
pub fn cookie_response(cookie_issued: bool) -> (r: Result<u16, AuthAPIError>)
    ensures
        r == (if cookie_issued {
            Ok::<u16, AuthAPIError>(STATUS_VERIFIED)
        } else {
            Err::<u16, AuthAPIError>(AuthAPIError::UnexpectedError)
        }),
{
    if cookie_issued {
        Ok(STATUS_VERIFIED)
    } else {
        Err(AuthAPIError::UnexpectedError)
    }
}

} // verus!
