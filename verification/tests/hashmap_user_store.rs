use auth_service::domain::User;
use auth_service::services::hashmap_user_store::{HashmapUserStore, UserStoreError};

fn new_test_user() -> User {
    User {
        email: "test@example.com".to_string(),
        password: "password123".to_string(),
        requires_2fa: false,
    }
}

#[test]
fn test_add_user() {
    let mut store = HashmapUserStore::default();
    let user = new_test_user();

    // Adding a new user should succeed
    assert_eq!(store.add_user(user.clone()), Ok(()));

    // Adding the same user again should fail with UserAlreadyExists
    assert_eq!(store.add_user(user), Err(UserStoreError::UserAlreadyExists));
}

#[test]
fn test_get_user() {
    let mut store = HashmapUserStore::default();
    let user = new_test_user();

    // Getting a non-existent user should fail with UserNotFound
    assert_eq!(
        store.get_user(&user.email),
        Err(UserStoreError::UserNotFound)
    );

    store.add_user(user.clone()).unwrap();

    // Getting an existing user should return the user
    assert_eq!(store.get_user(&user.email), Ok(user));
}

#[test]
fn test_validate_user() {
    let mut store = HashmapUserStore::default();
    let user = new_test_user();

    store.add_user(user.clone()).unwrap();

    // Correct credentials should succeed
    assert_eq!(store.validate_user(&user.email, &user.password), Ok(()));

    // Wrong password should fail with InvalidCredentials
    assert_eq!(
        store.validate_user(&user.email, "wrongpassword"),
        Err(UserStoreError::InvalidCredentials)
    );

    // Non-existent user should fail with UserNotFound
    assert_eq!(
        store.validate_user("nobody@example.com", "password123"),
        Err(UserStoreError::UserNotFound)
    );
}

#[test]
fn taken_address_keeps_first_user() {
    let mut store = HashmapUserStore::default();
    let first = new_test_user();
    let second = User {
        email: first.email.clone(),
        password: "another-password".to_string(),
        requires_2fa: true,
    };
    store.add_user(first.clone()).unwrap();
    assert_eq!(store.add_user(second), Err(UserStoreError::UserAlreadyExists));
    assert_eq!(store.get_user(&first.email), Ok(first.clone()));
    assert_eq!(store.validate_user(&first.email, "another-password"), Err(UserStoreError::InvalidCredentials));
}

#[test]
fn other_addresses_are_untouched_by_add() {
    let mut store = HashmapUserStore::default();
    let first = new_test_user();
    let second = User {
        email: "other@example.com".to_string(),
        password: "password456".to_string(),
        requires_2fa: true,
    };
    store.add_user(first.clone()).unwrap();
    store.add_user(second.clone()).unwrap();
    assert_eq!(store.get_user(&first.email), Ok(first));
    assert_eq!(store.get_user(&second.email), Ok(second));
}
