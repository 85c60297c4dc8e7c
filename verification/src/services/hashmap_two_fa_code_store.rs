use vstd::prelude::*;
use vstd::hash_map::StringHashMap;

use crate::domain::data_stores::{LoginAttemptId, TwoFACode, TwoFACodeStore, TwoFACodeStoreError};
use crate::domain::email::Email;

verus! {

broadcast use vstd::string::group_string_axioms;

/// The pending second-factor codes, found by the address they were sent to.
pub type Codes = Map<Seq<char>, (LoginAttemptId, TwoFACode)>;

/// What `get_code(email)` returns.
pub open spec fn get_code_outcome(codes: Codes, email: Seq<char>) -> Result<
    (LoginAttemptId, TwoFACode),
    TwoFACodeStoreError,
> {
    if codes.contains_key(email) {
        Ok(codes[email])
    } else {
        Err(TwoFACodeStoreError::LoginAttemptIdNotFound)
    }
}

/// Second-factor codes held in a hash map keyed by email address.
pub struct HashmapTwoFACodeStore {
    codes: StringHashMap<(LoginAttemptId, TwoFACode)>,
}

impl View for HashmapTwoFACodeStore {
    type V = Codes;

    open spec fn view(&self) -> Codes {
        self.table()
    }
}

impl HashmapTwoFACodeStore {
    pub closed spec fn table(&self) -> Codes {
        self.codes@
    }
}

impl Default for HashmapTwoFACodeStore {
    /// A store with no codes.
    fn default() -> (r: Self)
        ensures
            r@ == Map::<Seq<char>, (LoginAttemptId, TwoFACode)>::empty(),
    {
        HashmapTwoFACodeStore { codes: StringHashMap::new() }
    }
}

impl TwoFACodeStore for HashmapTwoFACodeStore {
    /// Files the attempt and its code under `email`, replacing what was
    /// filed there before.
    fn add_code(&mut self, email: Email, login_attempt_id: LoginAttemptId, code: TwoFACode) -> (r:
        Result<(), TwoFACodeStoreError>)
        ensures
            final(self)@ == old(self)@.insert(email@, (login_attempt_id, code)),
            r == Ok::<(), TwoFACodeStoreError>(()),
    {
        self.codes.insert(email.as_ref().to_owned(), (login_attempt_id, code));
        Ok(())
    }

    /// Forgets what is filed under `email`, if anything.
    fn remove_code(&mut self, email: &Email) -> (r: Result<(), TwoFACodeStoreError>)
        ensures
            final(self)@ == old(self)@.remove(email@),
            r == Ok::<(), TwoFACodeStoreError>(()),
    {
        self.codes.remove(email.as_ref());
        Ok(())
    }

    /// The attempt and code filed under `email`.
    fn get_code(&self, email: &Email) -> (r: Result<
        (LoginAttemptId, TwoFACode),
        TwoFACodeStoreError,
    >)
        ensures
            r == get_code_outcome(self@, email@),
    {
        match self.codes.get(email.as_ref()) {
            Some(entry) => Ok((entry.0.clone(), entry.1.clone())),
            None => Err(TwoFACodeStoreError::LoginAttemptIdNotFound),
        }
    }
}

/// Reading back what was written: after `add_code`, `get_code` on the same
/// address gives the attempt and code that were added, and other addresses
/// read as before.
pub proof fn lemma_get_code_after_add(
    codes: Codes,
    email: Seq<char>,
    entry: (LoginAttemptId, TwoFACode),
    other: Seq<char>,
)
    ensures
        get_code_outcome(codes.insert(email, entry), email) == Ok::<
            (LoginAttemptId, TwoFACode),
            TwoFACodeStoreError,
        >(entry),
        other != email ==> get_code_outcome(codes.insert(email, entry), other) == get_code_outcome(
            codes,
            other,
        ),
{
}

/// After `remove_code`, `get_code` on that address fails with
/// `LoginAttemptIdNotFound`, and other addresses read as before.
pub proof fn lemma_get_code_after_remove(codes: Codes, email: Seq<char>, other: Seq<char>)
    ensures
        get_code_outcome(codes.remove(email), email) == Err::<
            (LoginAttemptId, TwoFACode),
            TwoFACodeStoreError,
        >(TwoFACodeStoreError::LoginAttemptIdNotFound),
        other != email ==> get_code_outcome(codes.remove(email), other) == get_code_outcome(
            codes,
            other,
        ),
{
}

} // verus!
