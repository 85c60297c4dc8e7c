use auth_service::domain::{Email, LoginAttemptId, TwoFACode, TwoFACodeStore, TwoFACodeStoreError};
use auth_service::services::HashmapTwoFACodeStore;

#[test]
fn test_add_code() {
    let mut store = HashmapTwoFACodeStore::default();
    let email = Email::parse("test@example.com".to_string()).unwrap();
    let login_attempt_id = LoginAttemptId::default();
    let code = TwoFACode::default();

    let result = store.add_code(email.clone(), login_attempt_id.clone(), code.clone());

    assert!(result.is_ok());
    assert_eq!(store.get_code(&email), Ok((login_attempt_id, code)));
}

#[test]
fn test_remove_code() {
    let mut store = HashmapTwoFACodeStore::default();
    let email = Email::parse("test@example.com".to_string()).unwrap();
    let login_attempt_id = LoginAttemptId::default();
    let code = TwoFACode::default();
    store
        .add_code(email.clone(), login_attempt_id.clone(), code.clone())
        .unwrap();

    store.remove_code(&email).expect("Removal should successed");

    assert_eq!(
        store.get_code(&email),
        Err(TwoFACodeStoreError::LoginAttemptIdNotFound)
    );
}

#[test]
fn test_get_code() {
    let mut store = HashmapTwoFACodeStore::default();
    let email = Email::parse("test@example.com".to_string()).unwrap();
    let login_attempt_id = LoginAttemptId::default();
    let code = TwoFACode::default();

    store
        .add_code(email.clone(), login_attempt_id.clone(), code.clone())
        .unwrap();

    let res = store.get_code(&email).expect("Removal should successed");

    assert_eq!(res, (login_attempt_id, code));
}

#[test]
fn test_get_code_not_found() {
    let store = HashmapTwoFACodeStore::default();
    let email = Email::parse("test@example.com".to_string()).unwrap();

    let res = store.get_code(&email).unwrap_err();
    assert_eq!(res, TwoFACodeStoreError::LoginAttemptIdNotFound);
}

#[test]
fn adding_again_replaces_the_code() {
    let mut store = HashmapTwoFACodeStore::default();
    let email = Email::parse("test@example.com".to_string()).unwrap();
    let first_id = LoginAttemptId::parse("550e8400-e29b-41d4-a716-446655440000".to_string()).unwrap();
    let second_id = LoginAttemptId::parse("67e55044-10b1-426f-9247-bb680e5fe0c8".to_string()).unwrap();
    let first_code = TwoFACode::parse("111111".to_string()).unwrap();
    let second_code = TwoFACode::parse("222222".to_string()).unwrap();
    store.add_code(email.clone(), first_id, first_code).unwrap();
    store
        .add_code(email.clone(), second_id.clone(), second_code.clone())
        .unwrap();
    assert_eq!(store.get_code(&email), Ok((second_id, second_code)));
}

#[test]
fn removing_one_address_keeps_another() {
    let mut store = HashmapTwoFACodeStore::default();
    let a = Email::parse("a@example.com".to_string()).unwrap();
    let b = Email::parse("b@example.com".to_string()).unwrap();
    let id = LoginAttemptId::default();
    let code = TwoFACode::default();
    store.add_code(a.clone(), id.clone(), code.clone()).unwrap();
    store.add_code(b.clone(), id.clone(), code.clone()).unwrap();
    store.remove_code(&a).unwrap();
    assert_eq!(store.get_code(&a), Err(TwoFACodeStoreError::LoginAttemptIdNotFound));
    assert_eq!(store.get_code(&b), Ok((id, code)));
}

#[test]
fn removing_a_missing_address_is_fine() {
    let mut store = HashmapTwoFACodeStore::default();
    let a = Email::parse("a@example.com".to_string()).unwrap();
    assert_eq!(store.remove_code(&a), Ok(()));
}
