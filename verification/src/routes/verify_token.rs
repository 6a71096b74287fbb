use vstd::prelude::*;

use crate::domain::{AuthAPIError, BannedTokenStore};

verus! {

/// What a client sends to have a token checked.
pub struct VerifyTokenRequest {
    pub token: String,
}

/// The HTTP status of an accepted token.
pub const STATUS_TOKEN_OK: u16 = 200;

/// A token is accepted when it is not banned and its signature checks out.
pub open spec fn token_accepted(banned: Set<Seq<char>>, token: Seq<char>, authentic: bool) -> bool {
    !banned.contains(token) && authentic
}

/// Whether a token is accepted, given the store and the outcome of
/// checking its signature.
pub fn token_is_accepted<B: BannedTokenStore>(
    banned_token_store: &B,
    token: &str,
    authentic: bool,
) -> (b: bool)
    requires
        banned_token_store.well_formed(),
    ensures
        b == token_accepted(banned_token_store.tokens(), token@, authentic),
{
    match banned_token_store.is_banned(token) {
        Ok(true) => false,
        Ok(false) => authentic,
        Err(_) => false,
    }
}

/// Checks a token: 200 when it is accepted, `InvalidToken` otherwise.
pub fn verify_token_handler<B: BannedTokenStore>(
    banned_token_store: &B,
    info: &VerifyTokenRequest,
    token_authentic: bool,
) -> (r: Result<u16, AuthAPIError>)
    requires
        banned_token_store.well_formed(),
    ensures
        r == (if token_accepted(banned_token_store.tokens(), info.token@, token_authentic) {
            Ok::<u16, AuthAPIError>(STATUS_TOKEN_OK)
        } else {
            Err::<u16, AuthAPIError>(AuthAPIError::InvalidToken)
        }),
{
    if !token_is_accepted(banned_token_store, info.token.as_str(), token_authentic) {
        return Err(AuthAPIError::InvalidToken);
    }
    Ok(STATUS_TOKEN_OK)
}

} // verus!
