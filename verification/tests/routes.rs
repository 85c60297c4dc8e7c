use auth_service::domain::AuthAPIError;
use auth_service::routes::{
    login, logout, signup, verify_token, LoginRequest, LoginResponse, SignupRequest,
    SignupResponse, TwoFactorAuthResponse,
};
use auth_service::services::HashmapUserStore;

fn signup_request(email: &str, password: &str, requires_2fa: bool) -> SignupRequest {
    SignupRequest {
        email: email.to_string(),
        password: password.to_string(),
        requires_2fa,
    }
}

fn login_request(email: &str, password: &str) -> LoginRequest {
    LoginRequest {
        email: email.to_string(),
        password: password.to_string(),
    }
}

#[test]
fn signup_with_valid_input_succeeds() {
    let mut store = HashmapUserStore::default();
    let response = signup(&mut store, signup_request("user@example.com", "password123", false));
    assert_eq!(
        response,
        Ok(SignupResponse {
            message: "User created successfully!".to_owned()
        })
    );
    assert!(store.get_user("user@example.com").is_ok());
}

#[test]
fn signup_with_invalid_input_is_refused() {
    let mut store = HashmapUserStore::default();
    for (email, password) in [("", "password123"), ("invalidemail", "password123"), ("test@example.com", "short")] {
        let err = signup(&mut store, signup_request(email, password, false)).unwrap_err();
        assert_eq!(err, AuthAPIError::InvalidCredentials);
        let (status, body) = err.error_response();
        assert_eq!(status, 400);
        assert_eq!(body.error, "Invalid credentials".to_owned());
    }
    assert!(store.get_user("test@example.com").is_err());
}

#[test]
fn signup_twice_is_refused() {
    let mut store = HashmapUserStore::default();
    let first = signup(&mut store, signup_request("test@example.com", "password123", false));
    assert!(first.is_ok());
    let err = signup(&mut store, signup_request("test@example.com", "password123", false)).unwrap_err();
    assert_eq!(err, AuthAPIError::UserAlreadyExists);
    let (status, body) = err.error_response();
    assert_eq!(status, 409);
    assert_eq!(body.error, "User already exists".to_owned());
}

#[test]
fn login_after_signup_succeeds() {
    let mut store = HashmapUserStore::default();
    signup(&mut store, signup_request("plain@example.com", "password123", false)).unwrap();
    signup(&mut store, signup_request("twofa@example.com", "password123", true)).unwrap();
    assert_eq!(
        login(&store, login_request("plain@example.com", "password123")),
        Ok(LoginResponse::RegularAuth)
    );
    assert_eq!(
        login(&store, login_request("twofa@example.com", "password123")),
        Ok(LoginResponse::TwoFactorAuth(TwoFactorAuthResponse {
            message: "2FA required".to_string(),
            login_attempt_id: "123456".to_string(),
        }))
    );
}

#[test]
fn login_with_invalid_input_is_refused() {
    let mut store = HashmapUserStore::default();
    signup(&mut store, signup_request("user@example.com", "password123", false)).unwrap();
    for (email, password) in [("user@example.com", ""), ("eeee", "password123"), ("eeee", "eeee")] {
        let err = login(&store, login_request(email, password)).unwrap_err();
        assert_eq!(err, AuthAPIError::InvalidCredentials);
        assert_eq!(err.status_code(), 400);
    }
}

#[test]
fn login_with_incorrect_credentials_is_refused() {
    let mut store = HashmapUserStore::default();
    signup(&mut store, signup_request("user@example.com", "password123", false)).unwrap();
    let unknown = login(&store, login_request("nobody@example.com", "EEEEEEEEEEE")).unwrap_err();
    assert_eq!(unknown, AuthAPIError::IncorrectCredentials);
    assert_eq!(unknown.status_code(), 401);
    let wrong = login(&store, login_request("user@example.com", "wrongpassword")).unwrap_err();
    assert_eq!(wrong, AuthAPIError::IncorrectCredentials);
}

#[test]
fn logout_decisions() {
    let missing = logout(None).unwrap_err();
    assert_eq!(missing, AuthAPIError::MissingToken);
    let (status, body) = missing.error_response();
    assert_eq!(status, 400);
    assert_eq!(body.error, "Missing token".to_owned());

    let invalid = logout(Some(false)).unwrap_err();
    assert_eq!(invalid, AuthAPIError::InvalidToken);
    let (status, body) = invalid.error_response();
    assert_eq!(status, 401);
    assert_eq!(body.error, "Invalid auth token".to_owned());

    assert_eq!(logout(Some(true)), Ok(()));
}

#[test]
fn verify_token_decisions() {
    assert_eq!(verify_token(true), Ok(()));
    assert_eq!(verify_token(false), Err(AuthAPIError::InvalidToken));
}

#[test]
fn remaining_error_responses() {
    let (status, body) = AuthAPIError::IncorrectCredentials.error_response();
    assert_eq!(status, 401);
    assert_eq!(body.error, "Incorrect credentials".to_owned());
    let (status, body) = AuthAPIError::UnexpectedError.error_response();
    assert_eq!(status, 500);
    assert_eq!(body.error, "Unexpected error".to_owned());
}
