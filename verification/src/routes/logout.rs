use vstd::prelude::*;

use super::verify_token::{token_accepted, token_is_accepted};
use crate::domain::{AuthAPIError, BannedTokenStore};

verus! {

/// The HTTP status of a log-out.
pub const STATUS_LOGGED_OUT: u16 = 200;

/// What logging out does to the banned tokens and answers: `MissingToken`
/// without a cookie, `InvalidToken` for a token that is not accepted,
/// otherwise the token is banned and the answer is 200.
pub open spec fn logout_step(banned: Set<Seq<char>>, token: Option<Seq<char>>, authentic: bool) -> (Set<
    Seq<char>,
>, Result<u16, AuthAPIError>) {
    match token {
        None => (banned, Err(AuthAPIError::MissingToken)),
        Some(t) => if !token_accepted(banned, t, authentic) {
            (banned, Err(AuthAPIError::InvalidToken))
        } else {
            (banned.insert(t), Ok(STATUS_LOGGED_OUT))
        },
    }
}

/// The view of an optional token.
pub open spec fn token_view(token: Option<String>) -> Option<Seq<char>> {
    match token {
        Some(t) => Some(t@),
        None => None,
    }
}

/// Logs out the holder of the cookie's token (`None` when the request
/// carried no auth cookie); `token_authentic` is the outcome of checking
/// the token's signature. The caller removes the cookie on success.
pub fn logout_handler<B: BannedTokenStore>(
    banned_token_store: &mut B,
    token: Option<String>,
    token_authentic: bool,
) -> (r: Result<u16, AuthAPIError>)
    requires
        old(banned_token_store).well_formed(),
    ensures
        final(banned_token_store).well_formed(),
        (final(banned_token_store).tokens(), r) == logout_step(
            old(banned_token_store).tokens(),
            token_view(token),
            token_authentic,
        ),
{
    let token = match token {
        Some(t) => t,
        None => {
            return Err(AuthAPIError::MissingToken);
        },
    };
    if !token_is_accepted(banned_token_store, token.as_str(), token_authentic) {
        return Err(AuthAPIError::InvalidToken);
    }
    let _ = banned_token_store.ban(token.as_str());
    Ok(STATUS_LOGGED_OUT)
}

} // verus!
