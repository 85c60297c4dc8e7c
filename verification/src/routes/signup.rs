use vstd::prelude::*;

use crate::domain::email::{is_valid_email, Email};
use crate::domain::error::AuthAPIError;
use crate::domain::password::{is_valid_password, Password};
use crate::domain::user::User;
use crate::services::hashmap_user_store::{self as user_store, HashmapUserStore, UserStoreError, Users};

verus! {

broadcast use vstd::string::group_string_axioms;

/// A request to register a user.
pub struct SignupRequest {
    pub email: String,
    pub password: String,
    pub requires_2fa: bool,
}

/// The answer to a successful registration.
#[derive(Debug, PartialEq, Eq)]
pub struct SignupResponse {
    pub message: String,
}

/// The user that a sign-up request registers.
pub open spec fn requested_user(request: SignupRequest) -> User {
    User { email: request.email, password: request.password, requires_2fa: request.requires_2fa }
}

/// The users table after a sign-up request, and whether it succeeded: an
/// address without `@` or a too short password is refused as invalid
/// credentials, a taken address is refused as such, and otherwise the user
/// is registered.
pub open spec fn signup_outcome(users: Users, request: SignupRequest) -> (Users, Result<(), AuthAPIError>) {
    if !is_valid_email(request.email@) || !is_valid_password(request.password@) {
        (users, Err(AuthAPIError::InvalidCredentials))
    } else if users.contains_key(request.email@) {
        (users, Err(AuthAPIError::UserAlreadyExists))
    } else {
        (users.insert(request.email@, requested_user(request)), Ok(()))
    }
}

/// Registers the user of `request` in `store`.
pub fn signup(store: &mut HashmapUserStore, request: SignupRequest) -> (r: Result<SignupResponse, AuthAPIError>)
    ensures
        final(store)@ == signup_outcome(old(store)@, request).0,
        match r {
            Ok(response) => signup_outcome(old(store)@, request).1 is Ok
                && response.message@ == "User created successfully!"@,
            Err(e) => signup_outcome(old(store)@, request).1 == Err::<(), AuthAPIError>(e),
        },
{
    if Email::parse(request.email.clone()).is_err() {
        return Err(AuthAPIError::InvalidCredentials);
    }
    if Password::parse(request.password.clone()).is_err() {
        return Err(AuthAPIError::InvalidCredentials);
    }
    let new_user = User {
        email: request.email,
        password: request.password,
        requires_2fa: request.requires_2fa,
    };
    assert(new_user == requested_user(request));
    match store.add_user(new_user) {
        Ok(()) => Ok(SignupResponse { message: "User created successfully!".to_string() }),
        Err(UserStoreError::UserAlreadyExists) => Err(AuthAPIError::UserAlreadyExists),
        Err(_) => Err(AuthAPIError::UnexpectedError),
    }
}

/// Every well-formed request for a free address is accepted, and files
/// exactly the requested user under that address, adding nothing else.
pub proof fn lemma_signup_accepts_free_address(users: Users, request: SignupRequest)
    requires
        is_valid_email(request.email@),
        is_valid_password(request.password@),
        !users.contains_key(request.email@),
    ensures
        signup_outcome(users, request).1 == Ok::<(), AuthAPIError>(()),
        signup_outcome(users, request).0 == users.insert(
            request.email@,
            User {
                email: request.email,
                password: request.password,
                requires_2fa: request.requires_2fa,
            },
        ),
{
}

/// A request with an address lacking `@` or a too short password is
/// refused as invalid credentials, whatever the table holds.
pub proof fn lemma_signup_refuses_malformed(users: Users, request: SignupRequest)
    requires
        !is_valid_email(request.email@) || !is_valid_password(request.password@),
    ensures
        signup_outcome(users, request) == (users, Err::<(), AuthAPIError>(
            AuthAPIError::InvalidCredentials,
        )),
{
}

/// A refused sign-up leaves the table as it was.
pub proof fn lemma_signup_failure_changes_nothing(users: Users, request: SignupRequest)
    ensures
        signup_outcome(users, request).1 is Err ==> signup_outcome(users, request).0 == users,
{
}

/// An address can be signed up only once: repeating a sign-up request that
/// succeeded fails with `UserAlreadyExists` and changes nothing.
pub proof fn lemma_signup_twice(users: Users, request: SignupRequest)
    requires
        signup_outcome(users, request).1 is Ok,
    ensures
        signup_outcome(signup_outcome(users, request).0, request) == (
            signup_outcome(users, request).0,
            Err::<(), AuthAPIError>(AuthAPIError::UserAlreadyExists),
        ),
{
}

/// A successful sign-up files the new user under its address.
pub proof fn lemma_signup_files_user(users: Users, request: SignupRequest)
    requires
        signup_outcome(users, request).1 is Ok,
    ensures
        user_store::get_user_outcome(signup_outcome(users, request).0, request.email@)
            == Ok::<User, UserStoreError>(requested_user(request)),
{
}

} // verus!
