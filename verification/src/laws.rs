//! What holds across the operations of the stores and the routes.
use vstd::prelude::*;

use crate::domain::data_stores::{
    codes_get, codes_remove, user_store_add, user_store_get, user_store_validate,
};
use crate::domain::data_stores::{uuid_text, is_valid_two_fa_code, TWO_FA_CODE_MAX, TWO_FA_CODE_MIN};
use crate::domain::decimal::{int_to_decimal, lemma_parse_decimal_round_trip};
use crate::domain::user::{is_valid_email, is_valid_password};
use crate::domain::{AuthAPIError, TwoFACodeStoreError, UserModel, UserStoreError};
use crate::routes::logout::logout_step;
use crate::routes::signup::{signup_step, STATUS_CREATED};
use crate::routes::logout::STATUS_LOGGED_OUT;
use crate::routes::verify_2fa::{verify_2fa_step, STATUS_VERIFIED};
use crate::routes::verify_token::token_accepted;

verus! {

/// A user that was added is found under its address with the same
/// details, and its own address and password pass the log-in check.
pub proof fn law_added_user_is_found(users: Map<Seq<char>, UserModel>, user: UserModel)
    requires
        user_store_add(users, user).1 is Ok,
    ensures
        user_store_get(user_store_add(users, user).0, user.email) == Ok::<
            UserModel,
            UserStoreError,
        >(user),
        user_store_validate(user_store_add(users, user).0, user.email, user.password) is Ok,
{
}

/// Adding a user under a taken address is refused with `UserAlreadyExists`
/// and leaves the users as they were.
pub proof fn law_taken_address_is_refused(users: Map<Seq<char>, UserModel>, user: UserModel)
    requires
        users.contains_key(user.email),
    ensures
        user_store_add(users, user) == (users, Err::<(), UserStoreError>(
            UserStoreError::UserAlreadyExists,
        )),
{
}

/// Adding a user changes nothing that is filed under another address.
pub proof fn law_adding_keeps_other_users(
    users: Map<Seq<char>, UserModel>,
    user: UserModel,
    other: Seq<char>,
)
    requires
        other != user.email,
    ensures
        user_store_get(user_store_add(users, user).0, other) == user_store_get(users, other),
{
}

/// Once a user is added, a log-in with its address and another password
/// is refused with `InvalidCredentials`.
pub proof fn law_wrong_password_is_refused(
    users: Map<Seq<char>, UserModel>,
    user: UserModel,
    password: Seq<char>,
)
    requires
        user_store_add(users, user).1 is Ok,
        password != user.password,
    ensures
        user_store_validate(user_store_add(users, user).0, user.email, password) == Err::<
            (),
            UserStoreError,
        >(UserStoreError::InvalidCredentials),
{
}

/// A banned token is banned, and banning keeps every earlier ban.
pub proof fn law_ban_is_kept(banned: Set<Seq<char>>, token: Seq<char>, other: Seq<char>)
    ensures
        banned.insert(token).contains(token),
        banned.contains(other) ==> banned.insert(token).contains(other),
{
}

/// A code that was added for an address is what is pending for it.
pub proof fn law_added_code_is_found(
    codes: Map<Seq<char>, (u128, Seq<char>)>,
    email: Seq<char>,
    login_attempt_id: u128,
    code: Seq<char>,
)
    ensures
        codes_get(codes.insert(email, (login_attempt_id, code)), email) == Ok::<
            (u128, Seq<char>),
            TwoFACodeStoreError,
        >((login_attempt_id, code)),
{
}

/// After the pending code of an address is dropped nothing is pending for
/// it, and dropping it again is refused.
pub proof fn law_removed_code_is_gone(codes: Map<Seq<char>, (u128, Seq<char>)>, email: Seq<char>)
    ensures
        codes_get(codes_remove(codes, email).0, email) == Err::<
            (u128, Seq<char>),
            TwoFACodeStoreError,
        >(TwoFACodeStoreError::LoginAttemptIdNotFound),
        codes_remove(codes_remove(codes, email).0, email).1 == Err::<(), TwoFACodeStoreError>(
            TwoFACodeStoreError::LoginAttemptIdNotFound,
        ),
{
}

/// A user who signed up can log in with the same address and password,
/// with the second-factor setting given at sign-up; signing up again with
/// the same address is refused with `UserAlreadyExists` (or with
/// `InvalidCredentials` when the new password is not acceptable).
pub proof fn law_signed_up_user_can_log_in(
    users: Map<Seq<char>, UserModel>,
    email: Seq<char>,
    password: Seq<char>,
    requires_2fa: bool,
    other_password: Seq<char>,
    other_requires_2fa: bool,
)
    requires
        signup_step(users, email, password, requires_2fa).1 is Ok,
    ensures
        ({
            let after = signup_step(users, email, password, requires_2fa).0;
            &&& user_store_validate(after, email, password) is Ok
            &&& after[email].requires_2fa == requires_2fa
            &&& signup_step(after, email, other_password, other_requires_2fa).1 == Err::<
                u16,
                AuthAPIError,
            >(
                if is_valid_password(other_password) {
                    AuthAPIError::UserAlreadyExists
                } else {
                    AuthAPIError::InvalidCredentials
                },
            )
        }),
{
}

/// The attempt and code that a log-in stored verify, once: the first
/// verification answers 200 and the same request afterwards is refused
/// with `IncorrectCredentials`.
pub proof fn law_second_factor_serves_once(
    codes: Map<Seq<char>, (u128, Seq<char>)>,
    email: Seq<char>,
    login_attempt_id: u128,
    code: Seq<char>,
)
    ensures
        ({
            let stored = codes.insert(email, (login_attempt_id, code));
            let (after, first) = verify_2fa_step(stored, email, login_attempt_id, code);
            &&& first == Ok::<u16, AuthAPIError>(STATUS_VERIFIED)
            &&& verify_2fa_step(after, email, login_attempt_id, code) == (after, Err::<
                u16,
                AuthAPIError,
            >(AuthAPIError::IncorrectCredentials))
        }),
{
    let stored = codes.insert(email, (login_attempt_id, code));
    let after = stored.remove(email);
    assert(!after.contains_key(email));
}

/// A new log-in replaces the pending second factor: an attempt and code
/// other than the new ones are refused with `IncorrectCredentials` and
/// change nothing.
pub proof fn law_new_login_voids_old_code(
    codes: Map<Seq<char>, (u128, Seq<char>)>,
    email: Seq<char>,
    new_attempt: u128,
    new_code: Seq<char>,
    old_attempt: u128,
    old_code: Seq<char>,
)
    requires
        (old_attempt, old_code) != (new_attempt, new_code),
    ensures
        ({
            let stored = codes.insert(email, (new_attempt, new_code));
            verify_2fa_step(stored, email, old_attempt, old_code) == (stored, Err::<
                u16,
                AuthAPIError,
            >(AuthAPIError::IncorrectCredentials))
        }),
{
}

/// A token that was used to log out is banned: it is no longer accepted,
/// whatever its signature, and logging out with it again is refused with
/// `InvalidToken`.
pub proof fn law_logged_out_token_is_refused(
    banned: Set<Seq<char>>,
    token: Seq<char>,
    authentic: bool,
    authentic_later: bool,
)
    requires
        logout_step(banned, Some(token), authentic).1 is Ok,
    ensures
        ({
            let after = logout_step(banned, Some(token), authentic).0;
            &&& !token_accepted(after, token, authentic_later)
            &&& logout_step(after, Some(token), authentic_later) == (after, Err::<
                u16,
                AuthAPIError,
            >(AuthAPIError::InvalidToken))
        }),
{
}

/// A user whose address is not taken is always added, filed under its
/// address, whatever other users are stored.
pub proof fn law_new_address_is_added(users: Map<Seq<char>, UserModel>, user: UserModel)
    requires
        !users.contains_key(user.email),
    ensures
        user_store_add(users, user) == (users.insert(user.email, user), Ok::<(), UserStoreError>(())),
{
}

/// A lookup finds exactly what is filed under the address.
pub proof fn law_lookup_finds_what_is_filed(users: Map<Seq<char>, UserModel>, email: Seq<char>)
    ensures
        user_store_get(users, email) is Ok <==> users.contains_key(email),
        users.contains_key(email) ==> user_store_get(users, email) == Ok::<
            UserModel,
            UserStoreError,
        >(users[email]),
        !users.contains_key(email) ==> user_store_get(users, email) == Err::<
            UserModel,
            UserStoreError,
        >(UserStoreError::UserNotFound),
{
}

/// The log-in check passes exactly when a user is filed under the address
/// with that address and that password; an unknown address is
/// `UserNotFound`, a known one with other credentials `InvalidCredentials`.
pub proof fn law_login_check(users: Map<Seq<char>, UserModel>, email: Seq<char>, password: Seq<char>)
    ensures
        user_store_validate(users, email, password) is Ok <==> (users.contains_key(email)
            && users[email].email == email && users[email].password == password),
        !users.contains_key(email) ==> user_store_validate(users, email, password) == Err::<
            (),
            UserStoreError,
        >(UserStoreError::UserNotFound),
        users.contains_key(email) && !(users[email].email == email && users[email].password
            == password) ==> user_store_validate(users, email, password) == Err::<
            (),
            UserStoreError,
        >(UserStoreError::InvalidCredentials),
{
}

/// Sign-up succeeds only for an address that the e-mail validator accepts
/// and a password of acceptable length; any other request is answered
/// with `InvalidCredentials` and leaves the users unchanged. An acceptable
/// request for a free address stores exactly that user and answers 201.
pub proof fn law_signup_checks_its_input(
    users: Map<Seq<char>, UserModel>,
    email: Seq<char>,
    password: Seq<char>,
    requires_2fa: bool,
)
    ensures
        signup_step(users, email, password, requires_2fa).1 is Ok ==> is_valid_email(email)
            && is_valid_password(password),
        !is_valid_email(email) || !is_valid_password(password) ==> signup_step(
            users,
            email,
            password,
            requires_2fa,
        ) == (users, Err::<u16, AuthAPIError>(AuthAPIError::InvalidCredentials)),
        is_valid_email(email) && is_valid_password(password) && !users.contains_key(email)
            ==> signup_step(users, email, password, requires_2fa) == (users.insert(
            email,
            UserModel { email, password, requires_2fa },
        ), Ok::<u16, AuthAPIError>(STATUS_CREATED)),
        is_valid_email(email) && is_valid_password(password) && users.contains_key(email)
            ==> signup_step(users, email, password, requires_2fa) == (users, Err::<
            u16,
            AuthAPIError,
        >(AuthAPIError::UserAlreadyExists)),
{
}

/// A token is accepted exactly when that very token is not banned and its
/// signature checks out.
pub proof fn law_token_acceptance(banned: Set<Seq<char>>, token: Seq<char>, authentic: bool)
    ensures
        token_accepted(banned, token, authentic) <==> (!banned.contains(token) && authentic),
{
}

/// Log-out bans exactly the token it was given, whatever its length, and
/// nothing else; it refuses a token that is not accepted and a request
/// without one, changing nothing.
pub proof fn law_logout_bans_exactly_its_token(
    banned: Set<Seq<char>>,
    token: Seq<char>,
    authentic: bool,
)
    ensures
        !banned.contains(token) && authentic ==> logout_step(banned, Some(token), authentic) == (
        banned.insert(token), Ok::<u16, AuthAPIError>(STATUS_LOGGED_OUT)),
        banned.contains(token) || !authentic ==> logout_step(banned, Some(token), authentic) == (
        banned, Err::<u16, AuthAPIError>(AuthAPIError::InvalidToken)),
        logout_step(banned, None, authentic) == (banned, Err::<u16, AuthAPIError>(
            AuthAPIError::MissingToken,
        )),
{
}

/// One user's log-out leaves every other token that was not banned usable:
/// an authentic token other than the one logged out is still accepted.
pub proof fn law_logout_leaves_other_tokens_usable(
    banned: Set<Seq<char>>,
    token: Seq<char>,
    authentic: bool,
    other: Seq<char>,
)
    requires
        other != token,
        !banned.contains(other),
    ensures
        token_accepted(logout_step(banned, Some(token), authentic).0, other, true),
        logout_step(banned, Some(token), authentic).0.contains(other) == banned.contains(other),
{
}

/// Verifying a second factor succeeds exactly when the attempt and code
/// are the pair pending for the address; it then drops that pair and
/// nothing else, and otherwise changes nothing.
pub proof fn law_verify_2fa_exact(
    codes: Map<Seq<char>, (u128, Seq<char>)>,
    email: Seq<char>,
    login_attempt_id: u128,
    code: Seq<char>,
)
    ensures
        codes.contains_key(email) && codes[email] == (login_attempt_id, code) ==> verify_2fa_step(
            codes,
            email,
            login_attempt_id,
            code,
        ) == (codes.remove(email), Ok::<u16, AuthAPIError>(STATUS_VERIFIED)),
        !(codes.contains_key(email) && codes[email] == (login_attempt_id, code))
            ==> verify_2fa_step(codes, email, login_attempt_id, code) == (codes, Err::<
            u16,
            AuthAPIError,
        >(AuthAPIError::IncorrectCredentials)),
{
}

/// What is pending for an address is exactly what the codes hold for it.
pub proof fn law_pending_code_lookup(codes: Map<Seq<char>, (u128, Seq<char>)>, email: Seq<char>)
    ensures
        codes.contains_key(email) ==> codes_get(codes, email) == Ok::<
            (u128, Seq<char>),
            TwoFACodeStoreError,
        >(codes[email]),
        !codes.contains_key(email) ==> codes_get(codes, email) == Err::<
            (u128, Seq<char>),
            TwoFACodeStoreError,
        >(TwoFACodeStoreError::LoginAttemptIdNotFound),
        codes_remove(codes, email).0 == codes.remove(email),
        codes_remove(codes, email).1 is Ok <==> codes.contains_key(email),
{
    assert(!codes.contains_key(email) ==> codes.remove(email) =~= codes);
}

/// The decimal text of a non-negative number is an accepted 2FA code
/// exactly when the number lies in 100000..=999999.
pub proof fn law_decimal_code_validity(n: int)
    requires
        0 <= n <= i32::MAX,
    ensures
        is_valid_two_fa_code(int_to_decimal(n)) <==> TWO_FA_CODE_MIN <= n <= TWO_FA_CODE_MAX,
{
    lemma_parse_decimal_round_trip(n);
}

/// The text of a login attempt id has 36 characters: hyphens at
/// positions 8, 13, 18 and 23 and lower-case hexadecimal digits elsewhere.
pub proof fn law_attempt_id_text_shape(id: u128, j: int)
    requires
        0 <= j < 36,
    ensures
        uuid_text(id).len() == 36,
        (j == 8 || j == 13 || j == 18 || j == 23) ==> uuid_text(id)[j] == '-',
        !(j == 8 || j == 13 || j == 18 || j == 23) ==> ('0' <= uuid_text(id)[j] <= '9' || 'a'
            <= uuid_text(id)[j] <= 'f'),
{
}

} // verus!
