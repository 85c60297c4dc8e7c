use vstd::prelude::*;
use vstd::hash_map::StringHashMap;

use crate::domain::user::User;

verus! {

broadcast use vstd::string::group_string_axioms;

#[derive(Debug, PartialEq, Eq)]
pub enum UserStoreError {
    UserAlreadyExists,
    UserNotFound,
    InvalidCredentials,
    UnexpectedError,
}

/// Registered users, found by their email address.
pub struct HashmapUserStore {
    users: StringHashMap<User>,
}

/// The users table of a store, keyed by email address.
pub type Users = Map<Seq<char>, User>;

/// Each user is filed under the address it holds.
pub open spec fn users_wf(users: Users) -> bool {
    forall|k: Seq<char>| #[trigger] users.contains_key(k) ==> users[k].email@ == k
}

/// The table after `add_user(user)`, and what the call returns: a user whose
/// address is taken is refused and changes nothing.
pub open spec fn add_user_outcome(users: Users, user: User) -> (Users, Result<(), UserStoreError>) {
    if users.contains_key(user.email@) {
        (users, Err(UserStoreError::UserAlreadyExists))
    } else {
        (users.insert(user.email@, user), Ok(()))
    }
}

/// What `get_user(email)` returns.
pub open spec fn get_user_outcome(users: Users, email: Seq<char>) -> Result<User, UserStoreError> {
    if users.contains_key(email) {
        Ok(users[email])
    } else {
        Err(UserStoreError::UserNotFound)
    }
}

/// What `validate_user(email, password)` returns.
pub open spec fn validate_user_outcome(users: Users, email: Seq<char>, password: Seq<char>) -> Result<
    (),
    UserStoreError,
> {
    if !users.contains_key(email) {
        Err(UserStoreError::UserNotFound)
    } else if users[email].password@ != password {
        Err(UserStoreError::InvalidCredentials)
    } else {
        Ok(())
    }
}

impl View for HashmapUserStore {
    type V = Users;

    open spec fn view(&self) -> Users {
        self.table()
    }
}

impl HashmapUserStore {
    pub closed spec fn table(&self) -> Users {
        self.users@
    }

    #[verifier::type_invariant]
    spec fn inv(&self) -> bool {
        users_wf(self.users@)
    }

    /// Adds `user` unless a user with the same address is already there.
    pub fn add_user(&mut self, user: User) -> (r: Result<(), UserStoreError>)
        ensures
            (final(self)@, r) == add_user_outcome(old(self)@, user),
    {
        proof {
            use_type_invariant(&*self);
        }
        if self.users.contains_key(user.email.as_str()) {
            return Err(UserStoreError::UserAlreadyExists);
        }
        let key = user.email.clone();
        let mut users = StringHashMap::new();
        std::mem::swap(&mut users, &mut self.users);
        users.insert(key, user);
        self.users = users;
        Ok(())
    }

    /// The user filed under `email`.
    pub fn get_user(&self, email: &str) -> (r: Result<User, UserStoreError>)
        ensures
            r == get_user_outcome(self@, email@),
            r matches Ok(u) ==> u.email@ == email@,
    {
        proof {
            use_type_invariant(self);
        }
        match self.users.get(email) {
            Some(user) => Ok(user.clone()),
            None => Err(UserStoreError::UserNotFound),
        }
    }

    /// Whether a user is filed under `email` and has `password`.
    pub fn validate_user(&self, email: &str, password: &str) -> (r: Result<(), UserStoreError>)
        ensures
            r == validate_user_outcome(self@, email@, password@),
    {
        let user = self.get_user(email)?;
        if user.password != password.to_owned() {
            return Err(UserStoreError::InvalidCredentials);
        }
        Ok(())
    }
}

impl Default for HashmapUserStore {
    /// A store with no users.
    fn default() -> (r: Self)
        ensures
            r@ == Map::<Seq<char>, User>::empty(),
    {
        HashmapUserStore { users: StringHashMap::new() }
    }
}

/// Reading back what was written: once `user` has been added to a table
/// that did not hold its address, `get_user` gives that user back,
/// `validate_user` accepts its password, and every other address reads as
/// before.
pub proof fn lemma_get_after_add(users: Users, user: User, email: Seq<char>)
    requires
        !users.contains_key(user.email@),
    ensures
        add_user_outcome(users, user).1 == Ok::<(), UserStoreError>(()),
        get_user_outcome(add_user_outcome(users, user).0, user.email@) == Ok::<
            User,
            UserStoreError,
        >(user),
        validate_user_outcome(add_user_outcome(users, user).0, user.email@, user.password@) == Ok::<
            (),
            UserStoreError,
        >(()),
        email != user.email@ ==> get_user_outcome(add_user_outcome(users, user).0, email)
            == get_user_outcome(users, email),
{
}

/// Adding a user keeps every user filed under the address it holds.
pub proof fn lemma_add_keeps_wf(users: Users, user: User)
    requires
        users_wf(users),
    ensures
        users_wf(add_user_outcome(users, user).0),
{
}

/// An address can be registered only once: adding any user under an
/// address that is taken fails with `UserAlreadyExists` and leaves the table
/// as it was.
pub proof fn lemma_add_taken_address(users: Users, user: User)
    requires
        users.contains_key(user.email@),
    ensures
        add_user_outcome(users, user) == (users, Err::<(), UserStoreError>(
            UserStoreError::UserAlreadyExists,
        )),
{
}

/// `validate_user` accepts exactly the password of the user that `get_user`
/// returns, and fails with the error of `get_user` when there is none.
pub proof fn lemma_validate_agrees_with_get(users: Users, email: Seq<char>, password: Seq<char>)
    ensures
        validate_user_outcome(users, email, password) == Ok::<(), UserStoreError>(()) <==> (
        get_user_outcome(users, email) matches Ok(u) && u.password@ == password),
        get_user_outcome(users, email) is Err ==> validate_user_outcome(users, email, password)
            == Err::<(), UserStoreError>(UserStoreError::UserNotFound),
{
}

} // verus!
