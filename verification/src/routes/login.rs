use vstd::prelude::*;

use crate::domain::email::{is_valid_email, Email};
use crate::domain::error::AuthAPIError;
use crate::domain::password::{is_valid_password, Password};
use crate::routes::signup::{requested_user, signup_outcome, SignupRequest};
use crate::domain::user::User;
use crate::services::hashmap_user_store::{validate_user_outcome, HashmapUserStore, Users};

verus! {

broadcast use vstd::string::group_string_axioms;

/// A request to log in.
pub struct LoginRequest {
    pub email: String,
    pub password: String,
}

/// The two answers to a successful login: the user is logged in at once,
/// or has to give a second factor first.
#[derive(Debug, PartialEq, Eq)]
pub enum LoginResponse {
    RegularAuth,
    TwoFactorAuth(TwoFactorAuthResponse),
}

/// The answer to a user who logs in with a second factor.
#[derive(Debug, PartialEq, Eq)]
pub struct TwoFactorAuthResponse {
    pub message: String,
    pub login_attempt_id: String,
}

/// What a login request gives: an address without `@` or a too short
/// password is refused as invalid credentials, an address that is not
/// registered or a wrong password as incorrect credentials; otherwise the
/// request succeeds, and the result says whether the user needs a second
/// factor.
pub open spec fn login_outcome(users: Users, request: LoginRequest) -> Result<bool, AuthAPIError> {
    if !is_valid_email(request.email@) || !is_valid_password(request.password@) {
        Err(AuthAPIError::InvalidCredentials)
    } else if validate_user_outcome(users, request.email@, request.password@) is Err {
        Err(AuthAPIError::IncorrectCredentials)
    } else {
        Ok(users[request.email@].requires_2fa)
    }
}

/// The answer to a user who needs a second factor.
fn handle_2fa() -> (r: LoginResponse)
    ensures
        r matches LoginResponse::TwoFactorAuth(p) && p.message@ == "2FA required"@
            && p.login_attempt_id@ == "123456"@,
{
    let payload = TwoFactorAuthResponse {
        message: "2FA required".to_string(),
        login_attempt_id: "123456".to_string(),
    };
    LoginResponse::TwoFactorAuth(payload)
}

/// Checks the credentials of `request` against `store`.
pub fn login(store: &HashmapUserStore, request: LoginRequest) -> (r: Result<LoginResponse, AuthAPIError>)
    ensures
        match r {
            Ok(LoginResponse::RegularAuth) => login_outcome(store@, request) == Ok::<
                bool,
                AuthAPIError,
            >(false),
            Ok(LoginResponse::TwoFactorAuth(p)) => login_outcome(store@, request) == Ok::<
                bool,
                AuthAPIError,
            >(true) && p.message@ == "2FA required"@ && p.login_attempt_id@ == "123456"@,
            Err(e) => login_outcome(store@, request) == Err::<bool, AuthAPIError>(e),
        },
{
    let email = match Email::parse(request.email) {
        Ok(email) => email,
        Err(_) => return Err(AuthAPIError::InvalidCredentials),
    };
    let password = match Password::parse(request.password) {
        Ok(password) => password,
        Err(_) => return Err(AuthAPIError::InvalidCredentials),
    };
    if store.validate_user(email.as_ref(), password.as_ref()).is_err() {
        return Err(AuthAPIError::IncorrectCredentials);
    }
    let user = match store.get_user(email.as_ref()) {
        Ok(user) => user,
        Err(_) => return Err(AuthAPIError::IncorrectCredentials),
    };
    if user.requires_2fa {
        Ok(handle_2fa())
    } else {
        Ok(LoginResponse::RegularAuth)
    }
}

/// A well-formed request for a registered address succeeds exactly when its
/// password equals the stored user's password: with any other password it
/// is refused as incorrect credentials, and with the right one it answers
/// according to the stored user's second-factor setting.
pub proof fn lemma_login_checks_password(users: Users, request: LoginRequest)
    requires
        is_valid_email(request.email@),
        is_valid_password(request.password@),
        users.contains_key(request.email@),
    ensures
        users[request.email@].password@ != request.password@ ==> login_outcome(users, request)
            == Err::<bool, AuthAPIError>(AuthAPIError::IncorrectCredentials),
        users[request.email@].password@ == request.password@ ==> login_outcome(users, request)
            == Ok::<bool, AuthAPIError>(users[request.email@].requires_2fa),
{
}

/// A well-formed request for an address that is not registered is refused
/// as incorrect credentials.
pub proof fn lemma_login_unregistered_is_incorrect(users: Users, request: LoginRequest)
    requires
        is_valid_email(request.email@),
        is_valid_password(request.password@),
        !users.contains_key(request.email@),
    ensures
        login_outcome(users, request) == Err::<bool, AuthAPIError>(AuthAPIError::IncorrectCredentials),
{
}

/// Whenever a login succeeds, a user is registered under the address, its
/// password is the one given, and the answer is that user's second-factor
/// setting.
pub proof fn lemma_login_success_means_registered(users: Users, request: LoginRequest)
    ensures
        login_outcome(users, request) is Ok ==> users.contains_key(request.email@)
            && users[request.email@].password@ == request.password@ && login_outcome(
            users,
            request,
        ) == Ok::<bool, AuthAPIError>(users[request.email@].requires_2fa),
{
}

/// After a user is added to the table, logging in with its address and
/// its password succeeds, and logging in with any other password does not.
pub proof fn lemma_login_after_adding(users: Users, user: User, request: LoginRequest)
    requires
        !users.contains_key(user.email@),
        request.email@ == user.email@,
        is_valid_email(user.email@),
        is_valid_password(request.password@),
    ensures
        request.password@ == user.password@ ==> login_outcome(users.insert(user.email@, user), request)
            == Ok::<bool, AuthAPIError>(user.requires_2fa),
        request.password@ != user.password@ ==> login_outcome(users.insert(user.email@, user), request)
            == Err::<bool, AuthAPIError>(AuthAPIError::IncorrectCredentials),
{
}

/// A user who signed up can log in with the same address and password, and
/// is asked for a second factor exactly when they signed up for one.
pub proof fn lemma_login_after_signup(users: Users, request: SignupRequest)
    requires
        signup_outcome(users, request).1 is Ok,
    ensures
        login_outcome(
            signup_outcome(users, request).0,
            LoginRequest { email: request.email, password: request.password },
        ) == Ok::<bool, AuthAPIError>(request.requires_2fa),
{
    let after = signup_outcome(users, request).0;
    assert(after[request.email@] == requested_user(request));
}

/// A login request is refused as invalid credentials exactly when its
/// address lacks an `@` or its password is too short, whatever the store
/// holds.
pub proof fn lemma_login_rejects_malformed(users: Users, request: LoginRequest)
    ensures
        (login_outcome(users, request) == Err::<bool, AuthAPIError>(AuthAPIError::InvalidCredentials))
            <==> (!is_valid_email(request.email@) || !is_valid_password(request.password@)),
{
}

/// No one logs in under an address that is not registered.
pub proof fn lemma_login_unknown_address(users: Users, request: LoginRequest)
    requires
        !users.contains_key(request.email@),
    ensures
        login_outcome(users, request) is Err,
{
}

} // verus!
