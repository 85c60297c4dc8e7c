use auth_service::domain::Email;

#[test]
fn valid_email_is_parsed_successfully() {
    assert!(Email::parse("user@example.com".to_string()).is_ok());
}

#[test]
fn email_without_at_sign_is_rejected() {
    assert!(Email::parse("invalidemail.com".to_string()).is_err());
}

#[test]
fn email_empty_string_is_rejected() {
    assert!(Email::parse("".to_string()).is_err());
}

#[test]
fn parsed_email_preserves_original_value() {
    let email = "user@example.com".to_string();
    let parsed = Email::parse(email.clone()).unwrap();
    assert_eq!(parsed.as_ref(), email);
}

#[test]
fn email_rejection_message() {
    assert_eq!(
        Email::parse("no-at-sign".to_string()).unwrap_err(),
        "Invalid email".to_string()
    );
}

#[test]
fn email_with_only_at_sign_is_accepted() {
    assert!(Email::parse("@".to_string()).is_ok());
}

#[test]
fn email_with_at_after_non_ascii_is_accepted() {
    let email = "名前@例え.jp".to_string();
    let parsed = Email::parse(email.clone()).unwrap();
    assert_eq!(parsed.as_ref(), email);
}

#[test]
fn email_clone_keeps_value() {
    let parsed = Email::parse("a@b".to_string()).unwrap();
    assert_eq!(parsed.clone(), parsed);
}
