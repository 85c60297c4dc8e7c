use vstd::prelude::*;

use crate::domain::error::AuthAPIError;

verus! {

/// A request to check a token.
pub struct VerifyTokenRequest {
    pub token: String,
}

/// Decides a token check from whether the token validated: a token that
/// does not validate is refused as invalid.
pub fn verify_token(token_is_valid: bool) -> (r: Result<(), AuthAPIError>)
    ensures
        token_is_valid ==> r == Ok::<(), AuthAPIError>(()),
        !token_is_valid ==> r == Err::<(), AuthAPIError>(AuthAPIError::InvalidToken),
{
    if token_is_valid {
        Ok(())
    } else {
        Err(AuthAPIError::InvalidToken)
    }
}

} // verus!
