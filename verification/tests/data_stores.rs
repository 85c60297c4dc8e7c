use auth_service::domain::data_stores::{CODE_LENGTH, LAST_CODE};
use auth_service::domain::{LoginAttemptId, TwoFACode};

#[test]
fn six_digit_code_is_accepted() {
    let code = TwoFACode::parse("123456".to_string()).unwrap();
    assert_eq!(code.as_ref(), "123456");
}

#[test]
fn largest_code_is_accepted() {
    assert!(TwoFACode::parse("999999".to_string()).is_ok());
}

#[test]
fn code_of_last_code_is_rejected() {
    assert_eq!(LAST_CODE, 1_000_000);
    assert_eq!(
        TwoFACode::parse("1000000".to_string()).unwrap_err(),
        "Code should be ".to_string()
    );
}

#[test]
fn non_numeric_code_is_rejected() {
    assert_eq!(
        TwoFACode::parse("12a456".to_string()).unwrap_err(),
        "Invalid code".to_string()
    );
    assert_eq!(TwoFACode::parse("".to_string()).unwrap_err(), "Invalid code".to_string());
    assert_eq!(TwoFACode::parse("+".to_string()).unwrap_err(), "Invalid code".to_string());
    assert_eq!(TwoFACode::parse("-1".to_string()).unwrap_err(), "Invalid code".to_string());
    assert_eq!(TwoFACode::parse(" 1".to_string()).unwrap_err(), "Invalid code".to_string());
    assert_eq!(TwoFACode::parse("１".to_string()).unwrap_err(), "Invalid code".to_string());
}

#[test]
fn code_too_large_for_usize_is_invalid() {
    assert_eq!(
        TwoFACode::parse("99999999999999999999999999".to_string()).unwrap_err(),
        "Invalid code".to_string()
    );
}

#[test]
fn code_with_plus_and_leading_zeros_is_accepted() {
    assert!(TwoFACode::parse("+42".to_string()).is_ok());
    let code = TwoFACode::parse("0000000000042".to_string()).unwrap();
    assert_eq!(code.as_ref(), "0000000000042");
}

#[test]
fn default_code_has_six_digits_and_parses() {
    for _ in 0..50 {
        let code = TwoFACode::default();
        assert_eq!(code.as_ref().len(), CODE_LENGTH);
        assert!(code.as_ref().chars().all(|c| c.is_ascii_digit()));
        assert!(TwoFACode::parse(code.as_ref().to_string()).is_ok());
    }
}

#[test]
fn hyphenated_uuid_is_accepted() {
    let id = "550e8400-e29b-41d4-a716-446655440000".to_string();
    let parsed = LoginAttemptId::parse(id.clone()).unwrap();
    assert_eq!(parsed.as_ref(), id);
}

#[test]
fn other_uuid_forms_are_accepted() {
    assert!(LoginAttemptId::parse("550e8400e29b41d4a716446655440000".to_string()).is_ok());
    assert!(LoginAttemptId::parse("{550e8400-e29b-41d4-a716-446655440000}".to_string()).is_ok());
    assert!(LoginAttemptId::parse("urn:uuid:550e8400-e29b-41d4-a716-446655440000".to_string()).is_ok());
    assert!(LoginAttemptId::parse("URN:UUID:550E8400-E29B-41D4-A716-446655440000".to_string()).is_ok());
}

#[test]
fn malformed_uuid_is_rejected_with_the_parser_message() {
    let err = LoginAttemptId::parse("123456".to_string()).unwrap_err();
    assert!(err.contains("invalid"), "unexpected message: {}", err);
    assert!(LoginAttemptId::parse("550e8400-e29b-41d4-a716-44665544000g".to_string()).is_err());
    assert!(LoginAttemptId::parse("550e8400-e29b41d4-a716-4466554400000".to_string()).is_err());
    assert!(LoginAttemptId::parse("".to_string()).is_err());
}

#[test]
fn default_login_attempt_id_is_a_v4_uuid_that_parses() {
    for _ in 0..50 {
        let id = LoginAttemptId::default();
        let text = id.as_ref();
        assert_eq!(text.len(), 36);
        assert_eq!(text.as_bytes()[14], b'4');
        assert!(matches!(text.as_bytes()[19], b'8' | b'9' | b'a' | b'b'));
        assert!(LoginAttemptId::parse(text.to_string()).is_ok());
    }
}

#[test]
fn default_login_attempt_ids_differ() {
    assert_ne!(LoginAttemptId::default(), LoginAttemptId::default());
}

#[test]
fn default_codes_vary() {
    let first = TwoFACode::default();
    let mut seen_other = false;
    for _ in 0..50 {
        if TwoFACode::default() != first {
            seen_other = true;
        }
    }
    assert!(seen_other);
}
