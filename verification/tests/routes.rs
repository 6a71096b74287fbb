use auth_service::domain::{
    AuthAPIError, BannedTokenStore, Email, LoginAttemptId, Password, TwoFACode, TwoFACodeStore,
    UserStore,
};
use auth_service::routes::{
    cookie_response, handle_2fa, handle_no_2fa, login_handler, logout_handler, signup_handler,
    verify_2fa_handler, verify_token_handler, LoginRequest, LoginResponse, LoginStep,
    SignupRequest, Verify2FARequest, VerifyTokenRequest,
};
use auth_service::services::{HashMapUserStore, HashmapTwoFACodeStore, HashsetBannedTokenStore};

fn signup(store: &mut HashMapUserStore, email: &str, password: &str, requires_2fa: bool) -> Result<u16, AuthAPIError> {
    signup_handler(
        store,
        SignupRequest { email: email.to_string(), password: password.to_string(), requires_2fa },
    )
    .map(|(status, _)| status)
}

fn login_request(email: &str, password: &str) -> LoginRequest {
    LoginRequest { email: Email::new(email).unwrap(), password: Password::new(password).unwrap() }
}

#[test]
fn signup_answers_201_with_the_message() {
    let mut users = HashMapUserStore::default();
    let (status, body) = signup_handler(
        &mut users,
        SignupRequest {
            email: "rhi@artis.works".to_string(),
            password: "password123".to_string(),
            requires_2fa: true,
        },
    )
    .unwrap();
    assert_eq!(status, 201);
    assert_eq!(body.message, "User created successfully!");
    assert!(users.get_user(&Email::new("rhi@artis.works").unwrap()).unwrap().requires_2fa());
}

#[test]
fn signup_refuses_bad_input_and_taken_addresses() {
    let mut users = HashMapUserStore::default();
    assert_eq!(signup(&mut users, "bad", "password123", false), Err(AuthAPIError::InvalidCredentials));
    assert_eq!(signup(&mut users, "rhi@artis.works", "short", false), Err(AuthAPIError::InvalidCredentials));
    assert_eq!(signup(&mut users, "rhi@artis.works", "password123", false), Ok(201));
    assert_eq!(signup(&mut users, "rhi@artis.works", "password456", true), Err(AuthAPIError::UserAlreadyExists));
}

#[test]
fn login_without_second_factor_issues_a_cookie() {
    let mut users = HashMapUserStore::default();
    let mut codes = HashmapTwoFACodeStore::default();
    assert_eq!(signup(&mut users, "rhi@artis.works", "password123", false), Ok(201));
    let step = login_handler(&users, &mut codes, &login_request("rhi@artis.works", "password123")).unwrap();
    match step {
        LoginStep::IssueAuthCookie(email) => assert_eq!(email.as_str(), "rhi@artis.works"),
        LoginStep::SendTwoFACode(..) => panic!("no second factor expected"),
    }
    match handle_no_2fa(true).unwrap() {
        (200, LoginResponse::RegularAuth(text)) => assert_eq!(text, "User logged in"),
        _ => panic!("unexpected answer"),
    }
    assert_eq!(handle_no_2fa(false).unwrap_err(), AuthAPIError::UnexpectedError);
}

#[test]
fn login_with_wrong_password_or_unknown_user_is_refused() {
    let mut users = HashMapUserStore::default();
    let mut codes = HashmapTwoFACodeStore::default();
    assert_eq!(signup(&mut users, "rhi@artis.works", "password123", true), Ok(201));
    assert_eq!(
        login_handler(&users, &mut codes, &login_request("rhi@artis.works", "bad_password")).err(),
        Some(AuthAPIError::IncorrectCredentials)
    );
    assert_eq!(
        login_handler(&users, &mut codes, &login_request("nouser@artis.works", "password123")).err(),
        Some(AuthAPIError::IncorrectCredentials)
    );
    assert!(codes.get_code(&Email::new("rhi@artis.works").unwrap()).is_err());
}

#[test]
fn second_factor_login_stores_the_attempt_and_answers_206() {
    let mut users = HashMapUserStore::default();
    let mut codes = HashmapTwoFACodeStore::default();
    assert_eq!(signup(&mut users, "rhi@artis.works", "password123", true), Ok(201));
    let step = login_handler(&users, &mut codes, &login_request("rhi@artis.works", "password123")).unwrap();
    let (email, attempt, code) = match step {
        LoginStep::SendTwoFACode(e, a, c) => (e, a, c),
        LoginStep::IssueAuthCookie(_) => panic!("second factor expected"),
    };
    assert_eq!(email.as_str(), "rhi@artis.works");
    assert!(TwoFACode::parse(code.as_str().to_string()).is_ok());
    let n: u32 = code.as_str().parse().unwrap();
    assert_eq!(n.to_string(), code.as_str());
    assert!((100000..=999999).contains(&n));
    assert_eq!((attempt.as_u128() >> 76) & 0xf, 4);
    assert_eq!(codes.get_code(&email), Ok((attempt.clone(), code)));
    match handle_2fa(true, &attempt).unwrap() {
        (206, LoginResponse::TwoFactorAuth(body)) => {
            assert_eq!(body.message, "2FA required");
            assert_eq!(body.login_attempt_id, attempt.to_string());
            assert_eq!(LoginAttemptId::parse(body.login_attempt_id).unwrap(), attempt);
        }
        _ => panic!("unexpected answer"),
    }
    assert_eq!(handle_2fa(false, &attempt).unwrap_err(), AuthAPIError::UnexpectedError);
}

fn login_2fa(users: &HashMapUserStore, codes: &mut HashmapTwoFACodeStore) -> (Email, LoginAttemptId, TwoFACode) {
    match login_handler(users, codes, &login_request("rhi@artis.works", "password123")).unwrap() {
        LoginStep::SendTwoFACode(e, a, c) => (e, a, c),
        LoginStep::IssueAuthCookie(_) => panic!("second factor expected"),
    }
}

#[test]
fn second_factor_verifies_once() {
    let mut users = HashMapUserStore::default();
    let mut codes = HashmapTwoFACodeStore::default();
    signup(&mut users, "rhi@artis.works", "password123", true).unwrap();
    let (email, attempt, code) = login_2fa(&users, &mut codes);
    let request = Verify2FARequest { email, login_attempt_id: attempt, two_fa_code: code };
    assert_eq!(verify_2fa_handler(&mut codes, &request), Ok(200));
    assert_eq!(cookie_response(true), Ok(200));
    assert_eq!(cookie_response(false), Err(AuthAPIError::UnexpectedError));
    assert_eq!(verify_2fa_handler(&mut codes, &request), Err(AuthAPIError::IncorrectCredentials));
}

#[test]
fn second_factor_with_wrong_attempt_or_code_is_refused() {
    let mut users = HashMapUserStore::default();
    let mut codes = HashmapTwoFACodeStore::default();
    signup(&mut users, "rhi@artis.works", "password123", true).unwrap();
    let (email, attempt, code) = login_2fa(&users, &mut codes);
    let wrong_attempt = Verify2FARequest {
        email: email.clone(),
        login_attempt_id: LoginAttemptId::default(),
        two_fa_code: code.clone(),
    };
    assert_eq!(verify_2fa_handler(&mut codes, &wrong_attempt), Err(AuthAPIError::IncorrectCredentials));
    let other = if code.as_str() == "123456" { "654321" } else { "123456" };
    let wrong_code = Verify2FARequest {
        email: email.clone(),
        login_attempt_id: attempt.clone(),
        two_fa_code: TwoFACode::parse(other.to_string()).unwrap(),
    };
    assert_eq!(verify_2fa_handler(&mut codes, &wrong_code), Err(AuthAPIError::IncorrectCredentials));
    // the pending attempt is still there
    assert_eq!(codes.get_code(&email), Ok((attempt, code)));
}

#[test]
fn a_new_login_voids_the_old_code() {
    let mut users = HashMapUserStore::default();
    let mut codes = HashmapTwoFACodeStore::default();
    signup(&mut users, "rhi@artis.works", "password123", true).unwrap();
    let (email, first_attempt, first_code) = login_2fa(&users, &mut codes);
    let (_, second_attempt, second_code) = login_2fa(&users, &mut codes);
    assert_ne!(first_attempt, second_attempt);
    let old = Verify2FARequest { email: email.clone(), login_attempt_id: first_attempt, two_fa_code: first_code };
    assert_eq!(verify_2fa_handler(&mut codes, &old), Err(AuthAPIError::IncorrectCredentials));
    let new = Verify2FARequest { email, login_attempt_id: second_attempt, two_fa_code: second_code };
    assert_eq!(verify_2fa_handler(&mut codes, &new), Ok(200));
}

#[test]
fn logout_bans_the_token_and_refuses_it_afterwards() {
    let mut banned = HashsetBannedTokenStore::default();
    assert_eq!(logout_handler(&mut banned, None, true), Err(AuthAPIError::MissingToken));
    assert_eq!(logout_handler(&mut banned, Some("tok".to_string()), false), Err(AuthAPIError::InvalidToken));
    assert_eq!(banned.is_banned("tok"), Ok(false));
    assert_eq!(logout_handler(&mut banned, Some("tok".to_string()), true), Ok(200));
    assert_eq!(banned.is_banned("tok"), Ok(true));
    assert_eq!(logout_handler(&mut banned, Some("tok".to_string()), true), Err(AuthAPIError::InvalidToken));
}

#[test]
fn verify_token_refuses_banned_and_forged_tokens() {
    let mut banned = HashsetBannedTokenStore::default();
    let request = VerifyTokenRequest { token: "banned".to_string() };
    assert_eq!(verify_token_handler(&banned, &request, true), Ok(200));
    assert_eq!(verify_token_handler(&banned, &request, false), Err(AuthAPIError::InvalidToken));
    banned.ban("banned").unwrap();
    assert_eq!(verify_token_handler(&banned, &request, true), Err(AuthAPIError::InvalidToken));
}

#[test]
fn errors_answer_with_their_status() {
    assert_eq!(AuthAPIError::UserAlreadyExists.status_code(), 409);
    assert_eq!(AuthAPIError::InvalidCredentials.status_code(), 400);
    assert_eq!(AuthAPIError::IncorrectCredentials.status_code(), 401);
    assert_eq!(AuthAPIError::MissingToken.status_code(), 400);
    assert_eq!(AuthAPIError::InvalidToken.status_code(), 401);
    assert_eq!(AuthAPIError::UnexpectedError.status_code(), 500);
}
