use auth_service::domain::decimal::{parse_i32_text, push_int_decimal, ParseIntErrorKind};
use auth_service::domain::{Email, LoginAttemptId, Password, TwoFACode, User, UserInfoError};

fn std_parse_error(text: &str) -> String {
    format!("{:?}", text.parse::<i32>().unwrap_err())
}

#[test]
fn email_is_checked_by_the_validator() {
    assert!(Email::new("rhi@artis.works").is_ok());
    assert_eq!(Email::new("rhi@artis.works").unwrap().as_str(), "rhi@artis.works");
    assert_eq!(Email::new("bad").unwrap_err(), UserInfoError::InvalidEmail);
    assert_eq!(
        Email::new("5d2c-example.com").unwrap_err(),
        UserInfoError::InvalidEmail
    );
    assert_eq!(Email::new("").unwrap_err(), UserInfoError::InvalidEmail);
    assert_eq!(Email::new("a@").unwrap_err(), UserInfoError::InvalidEmail);
}

#[test]
fn email_from_check_follows_the_verdict() {
    assert!(Email::from_check("anything", true).is_ok());
    assert_eq!(
        Email::from_check("rhi@artis.works", false).unwrap_err(),
        UserInfoError::InvalidEmail
    );
}

#[test]
fn password_length_is_counted_in_characters() {
    assert_eq!(Password::new("1234567").unwrap_err(), UserInfoError::InvalidPassword);
    assert!(Password::new("12345678").is_ok());
    assert!(Password::new(&"x".repeat(30)).is_ok());
    assert_eq!(
        Password::new(&"x".repeat(31)).unwrap_err(),
        UserInfoError::InvalidPassword
    );
    // seven two-byte characters: fourteen bytes, but only seven characters
    assert_eq!(Password::new("ééééééé").unwrap_err(), UserInfoError::InvalidPassword);
    // fifteen two-byte characters: thirty bytes and fifteen characters
    assert!(Password::new(&"é".repeat(15)).is_ok());
    assert_eq!(Password::new("password123").unwrap().as_str(), "password123");
}

#[test]
fn user_info_error_text() {
    assert_eq!(UserInfoError::InvalidEmail.to_string(), "InvalidEmail");
    assert_eq!(UserInfoError::InvalidPassword.to_string(), "InvalidPassword");
}

#[test]
fn user_validate_needs_both_address_and_password() {
    let user = User::new(
        Email::new("rhi@artis.works").unwrap(),
        Password::new("password123").unwrap(),
        false,
    )
    .unwrap();
    assert!(user.validate(
        &Email::new("rhi@artis.works").unwrap(),
        &Password::new("password123").unwrap()
    ));
    assert!(!user.validate(
        &Email::new("other@artis.works").unwrap(),
        &Password::new("password123").unwrap()
    ));
    assert!(!user.requires_2fa());
}

#[test]
fn two_fa_code_accepts_six_digit_numbers() {
    assert_eq!(TwoFACode::parse("123456".to_string()).unwrap().as_str(), "123456");
    assert!(TwoFACode::parse("100000".to_string()).is_ok());
    assert!(TwoFACode::parse("999999".to_string()).is_ok());
    assert_eq!(TwoFACode::parse("+123456".to_string()).unwrap().as_str(), "+123456");
}

#[test]
fn two_fa_code_out_of_range_names_the_number() {
    assert_eq!(TwoFACode::parse("1234".to_string()).unwrap_err(), "Bad 2FA code 1234");
    assert_eq!(TwoFACode::parse("99999".to_string()).unwrap_err(), "Bad 2FA code 99999");
    assert_eq!(TwoFACode::parse("099999".to_string()).unwrap_err(), "Bad 2FA code 99999");
    assert_eq!(TwoFACode::parse("1000000".to_string()).unwrap_err(), "Bad 2FA code 1000000");
    assert_eq!(TwoFACode::parse("-5".to_string()).unwrap_err(), "Bad 2FA code -5");
    assert_eq!(TwoFACode::parse("0".to_string()).unwrap_err(), "Bad 2FA code 0");
    assert_eq!(
        TwoFACode::parse("-2147483648".to_string()).unwrap_err(),
        "Bad 2FA code -2147483648"
    );
}

#[test]
fn two_fa_code_that_is_no_number_names_the_std_error() {
    for text in ["", "+", "-", "abc", "12a456", " 123456", "99999999999", "-99999999999", "1٣3456"] {
        assert_eq!(
            TwoFACode::parse(text.to_string()).unwrap_err(),
            format!("Cannot parse 2FA code {}", std_parse_error(text)),
            "for {text:?}"
        );
    }
}

#[test]
fn i32_reading_agrees_with_std() {
    let cases = [
        "0", "7", "-7", "+7", "2147483647", "2147483648", "-2147483648", "-2147483649", "", "+",
        "-", "+-1", "--1", "1_000", "00012", "-0", "99999999999x", "x99999999999",
    ];
    for text in cases {
        let ours = parse_i32_text(text);
        match text.parse::<i32>() {
            Ok(n) => assert_eq!(ours, Ok(n), "for {text:?}"),
            Err(e) => {
                let kind = match e.kind() {
                    std::num::IntErrorKind::Empty => ParseIntErrorKind::Empty,
                    std::num::IntErrorKind::InvalidDigit => ParseIntErrorKind::InvalidDigit,
                    std::num::IntErrorKind::PosOverflow => ParseIntErrorKind::PosOverflow,
                    std::num::IntErrorKind::NegOverflow => ParseIntErrorKind::NegOverflow,
                    _ => unreachable!(),
                };
                assert_eq!(ours, Err(kind), "for {text:?}");
            }
        }
    }
}

#[test]
fn decimal_writing_agrees_with_std() {
    for n in [0i64, 5, 10, 99, 100000, 999999, -1, -2147483648, 9223372036854775807] {
        let mut s = String::from("x");
        push_int_decimal(&mut s, n);
        assert_eq!(s, format!("x{n}"));
    }
}

#[test]
fn default_two_fa_code_is_a_valid_six_digit_code() {
    for _ in 0..50 {
        let code = TwoFACode::default();
        assert_eq!(code.as_str().len(), 6);
        let n: i32 = code.as_str().parse().unwrap();
        assert!((100000..=999999).contains(&n));
        assert_eq!(TwoFACode::parse(code.as_str().to_string()), Ok(code));
    }
}

#[test]
fn login_attempt_id_reads_uuid_text() {
    let id = LoginAttemptId::parse("550e8400-e29b-41d4-a716-446655440000".to_string()).unwrap();
    assert_eq!(id.as_u128(), 0x550e8400_e29b_41d4_a716_446655440000);
    assert_eq!(id.to_string(), "550e8400-e29b-41d4-a716-446655440000");
    let braced = LoginAttemptId::parse("{550e8400-e29b-41d4-a716-446655440000}".to_string());
    assert_eq!(braced, Ok(id));
}

#[test]
fn login_attempt_id_refuses_bad_text_with_the_uuid_error() {
    let err = LoginAttemptId::parse("bad-attempt-id".to_string()).unwrap_err();
    assert_eq!(err, format!("{:?}", uuid::Uuid::parse_str("bad-attempt-id").unwrap_err()));
    assert!(LoginAttemptId::parse(String::new()).is_err());
}

#[test]
fn login_attempt_id_from_parsed_passes_the_outcome_on() {
    assert_eq!(LoginAttemptId::from_parsed(Ok(9)), Ok(LoginAttemptId::from_u128(9)));
    assert_eq!(
        LoginAttemptId::from_parsed(Err("no".to_string())),
        Err("no".to_string())
    );
}

#[test]
fn default_login_attempt_id_is_a_random_v4_uuid() {
    let a = LoginAttemptId::default();
    let b = LoginAttemptId::default();
    assert_ne!(a, b);
    assert_eq!((a.as_u128() >> 76) & 0xf, 4);
    assert_eq!((a.as_u128() >> 62) & 0x3, 2);
    assert_eq!(LoginAttemptId::parse(a.to_string()), Ok(a.clone()));
    assert_eq!(a.to_string().len(), 36);
}

#[test]
fn login_attempt_id_text_is_hyphenated_lower_hex() {
    assert_eq!(
        LoginAttemptId::from_u128(1).to_string(),
        "00000000-0000-0000-0000-000000000001"
    );
    let v: u128 = 0xABCDEF01_2345_6789_ABCD_EF0123456789;
    assert_eq!(
        LoginAttemptId::from_u128(v).to_string(),
        "abcdef01-2345-6789-abcd-ef0123456789"
    );
    assert_eq!(LoginAttemptId::from_u128(v).to_string(), uuid::Uuid::from_u128(v).to_string());
}

#[test]
fn decimal_writing_handles_the_least_i64() {
    let mut s = String::new();
    push_int_decimal(&mut s, i64::MIN);
    assert_eq!(s, i64::MIN.to_string());
}
