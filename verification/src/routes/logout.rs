use vstd::prelude::*;

use crate::domain::error::AuthAPIError;

verus! {

/// Decides a logout request. `token_check` is `None` when the request
/// carries no JWT cookie, and otherwise whether the cookie's token
/// validated. A missing cookie is refused as a missing token, a token that
/// does not validate as an invalid one; otherwise the cookie is to be
/// removed.
pub fn logout(token_check: Option<bool>) -> (r: Result<(), AuthAPIError>)
    ensures
        token_check is None ==> r == Err::<(), AuthAPIError>(AuthAPIError::MissingToken),
        token_check == Some(false) ==> r == Err::<(), AuthAPIError>(AuthAPIError::InvalidToken),
        token_check == Some(true) ==> r == Ok::<(), AuthAPIError>(()),
{
    match token_check {
        None => Err(AuthAPIError::MissingToken),
        Some(false) => Err(AuthAPIError::InvalidToken),
        Some(true) => Ok(()),
    }
}

} // verus!
