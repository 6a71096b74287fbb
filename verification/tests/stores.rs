use auth_service::domain::{
    BannedTokenStore, Email, LoginAttemptId, Password, TokenStoreError, TwoFACode,
    TwoFACodeStore, TwoFACodeStoreError, User, UserStore, UserStoreError,
};
use auth_service::services::{HashMapUserStore, HashmapTwoFACodeStore, HashsetBannedTokenStore};

#[test]
fn test_add_code() {
    let mut store = HashmapTwoFACodeStore::default();
    let email = Email::new("test@example.com").unwrap();
    let login_attempt_id = LoginAttemptId::default();
    let code = TwoFACode::default();

    let result = store.add_code(email.clone(), login_attempt_id.clone(), code.clone());

    assert!(result.is_ok());
    assert_eq!(store.get_code(&email), Ok((login_attempt_id, code)));
}

#[test]
fn test_remove_code() {
    let mut store = HashmapTwoFACodeStore::default();
    let email = Email::new("test@example.com").unwrap();
    let login_attempt_id = LoginAttemptId::default();
    let code = TwoFACode::default();

    store
        .add_code(email.clone(), login_attempt_id.clone(), code.clone())
        .unwrap();

    let result = store.remove_code(&email);

    assert!(result.is_ok());
    assert_eq!(
        store.get_code(&email),
        Err(TwoFACodeStoreError::LoginAttemptIdNotFound)
    );
}

#[test]
fn test_get_code() {
    let mut store = HashmapTwoFACodeStore::default();
    let email = Email::new("test@example.com").unwrap();
    let login_attempt_id = LoginAttemptId::default();
    let code = TwoFACode::default();
    store
        .add_code(email.clone(), login_attempt_id.clone(), code.clone())
        .unwrap();

    let result = store.get_code(&email);

    assert!(result.is_ok());
    assert_eq!(result.unwrap(), (login_attempt_id, code));
}

#[test]
fn test_get_code_not_found() {
    let store = HashmapTwoFACodeStore::default();
    let email = Email::new("test@example.com").unwrap();

    let result = store.get_code(&email);

    assert!(result.is_err());
    assert_eq!(
        result.unwrap_err(),
        TwoFACodeStoreError::LoginAttemptIdNotFound
    );
}

#[test]
fn test_add_user() {
    let mut store = HashMapUserStore::default();
    store
        .add_user(
            User::new(
                Email::new("rhi@artis.works").unwrap(),
                Password::new("password123").unwrap(),
                false,
            )
            .unwrap(),
        )
        .unwrap();

    assert!(store
        .add_user(
            User::new(
                Email::new("rhi@artis.works").unwrap(),
                Password::new("password123").unwrap(),
                true
            )
            .unwrap()
        )
        .is_err_and(|e| matches!(e, UserStoreError::UserAlreadyExists)));
}

#[test]
fn test_get_user() {
    let mut store = HashMapUserStore::default();
    assert!(store
        .get_user(&Email::new("rhi@artis.works").unwrap())
        .is_err_and(|e| matches!(e, UserStoreError::UserNotFound)));

    store
        .add_user(
            User::new(
                Email::new("rhi@artis.works").unwrap(),
                Password::new("password123").unwrap(),
                false,
            )
            .unwrap(),
        )
        .unwrap();
    assert!(store
        .get_user(&Email::new("rhi@artis.works").unwrap())
        .is_ok_and(|u| u.email == Email::new("rhi@artis.works").unwrap()));
}

#[test]
fn test_validate_user() {
    let mut store = HashMapUserStore::default();
    store
        .add_user(
            User::new(
                Email::new("rhi@artis.works").unwrap(),
                Password::new("password123").unwrap(),
                false,
            )
            .unwrap(),
        )
        .unwrap();

    assert!(store
        .validate_user(
            &Email::new("rhi@artis.works").unwrap(),
            &Password::new("password123").unwrap()
        )
        .is_ok());
    assert!(store
        .validate_user(
            &Email::new("nouser@artis.works").unwrap(),
            &Password::new("password123").unwrap()
        )
        .is_err_and(|e| matches!(e, UserStoreError::UserNotFound)));

    assert!(store
        .validate_user(
            &Email::new("rhi@artis.works").unwrap(),
            &Password::new("bad-pass-123").unwrap()
        )
        .is_err_and(|e| matches!(e, UserStoreError::InvalidCredentials)));
}

#[test]
fn test_ban_user() {
    let mut store = HashsetBannedTokenStore::default();
    let banned: Result<(), TokenStoreError> = store.ban("banned");
    assert!(banned.is_ok());

    assert!(store.is_banned("banned").unwrap());
}

#[test]
fn banning_keeps_earlier_bans_and_twice_is_harmless() {
    let mut store = HashsetBannedTokenStore::default();
    assert_eq!(store.is_banned("a"), Ok(false));
    store.ban("a").unwrap();
    store.ban("b").unwrap();
    store.ban("a").unwrap();
    assert_eq!(store.is_banned("a"), Ok(true));
    assert_eq!(store.is_banned("b"), Ok(true));
    assert_eq!(store.is_banned("c"), Ok(false));
}

#[test]
fn adding_a_code_twice_replaces_the_first() {
    let mut store = HashmapTwoFACodeStore::default();
    let email = Email::new("test@example.com").unwrap();
    let first = (LoginAttemptId::from_u128(1), TwoFACode::parse("123456".to_string()).unwrap());
    let second = (LoginAttemptId::from_u128(2), TwoFACode::parse("654321".to_string()).unwrap());
    assert!(store.add_code(email.clone(), first.0.clone(), first.1.clone()).is_ok());
    assert!(store.add_code(email.clone(), second.0.clone(), second.1.clone()).is_ok());
    assert_eq!(store.get_code(&email), Ok(second));
}

#[test]
fn removing_a_missing_code_is_refused() {
    let mut store = HashmapTwoFACodeStore::default();
    let email = Email::new("test@example.com").unwrap();
    assert_eq!(
        store.remove_code(&email),
        Err(TwoFACodeStoreError::LoginAttemptIdNotFound)
    );
}

#[test]
fn removing_one_code_keeps_the_others() {
    let mut store = HashmapTwoFACodeStore::default();
    let a = Email::new("a@example.com").unwrap();
    let b = Email::new("b@example.com").unwrap();
    let c = Email::new("c@example.com").unwrap();
    for (i, e) in [&a, &b, &c].iter().enumerate() {
        store
            .add_code(
                (*e).clone(),
                LoginAttemptId::from_u128(i as u128),
                TwoFACode::parse("111111".to_string()).unwrap(),
            )
            .unwrap();
    }
    store.remove_code(&b).unwrap();
    assert!(store.get_code(&a).is_ok());
    assert!(store.get_code(&b).is_err());
    assert_eq!(store.get_code(&c).unwrap().0, LoginAttemptId::from_u128(2));
}

#[test]
fn stored_user_keeps_its_details() {
    let mut store = HashMapUserStore::default();
    let user = User::new(
        Email::new("rhi@artis.works").unwrap(),
        Password::new("password123").unwrap(),
        true,
    )
    .unwrap();
    store.add_user(user).unwrap();
    let found = store.get_user(&Email::new("rhi@artis.works").unwrap()).unwrap();
    assert!(found.requires_2fa());
    assert!(found.validate(
        &Email::new("rhi@artis.works").unwrap(),
        &Password::new("password123").unwrap()
    ));
    assert!(!found.validate(
        &Email::new("rhi@artis.works").unwrap(),
        &Password::new("password124").unwrap()
    ));
}
