use vstd::prelude::*;

verus! {

/// A registered user: the address they signed up with, their password and
/// whether they log in with a second factor.
#[derive(Debug, PartialEq, Eq)]
pub struct User {
    pub email: String,
    pub password: String,
    pub requires_2fa: bool,
}

impl Clone for User {
    fn clone(&self) -> (r: Self)
        ensures
            r == *self,
    {
        User {
            email: self.email.clone(),
            password: self.password.clone(),
            requires_2fa: self.requires_2fa,
        }
    }
}

} // verus!
