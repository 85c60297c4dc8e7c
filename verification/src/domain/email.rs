use vstd::prelude::*;

verus! {

broadcast use vstd::string::group_string_axioms;

/// Whether `s` holds the character `c` anywhere.
pub open spec fn has_char(s: Seq<char>, c: char) -> bool {
    exists|i: int| 0 <= i < s.len() && s[i] == c
}

/// An email address is accepted when it holds an `@`.
pub open spec fn is_valid_email(s: Seq<char>) -> bool {
    has_char(s, '@')
}

fn validate_email(s: &str) -> (valid: bool)
    ensures
        valid == is_valid_email(s@),
{
    for c in it: s.chars()
        invariant
            it.seq() == s@,
            forall|j: int| 0 <= j < it.index() ==> it.seq()[j] != '@',
    {
        if c == '@' {
            return true;
        }
    }
    false
}

/// An `@` at any position makes an address acceptable.
pub proof fn lemma_email_with_at_is_valid(s: Seq<char>, i: int)
    requires
        0 <= i < s.len(),
        s[i] == '@',
    ensures
        is_valid_email(s),
{
}

/// An address without any `@` is never acceptable.
pub proof fn lemma_email_without_at_is_invalid(s: Seq<char>)
    requires
        forall|i: int| 0 <= i < s.len() ==> s[i] != '@',
    ensures
        !is_valid_email(s),
{
}

/// Text around an acceptable address keeps it acceptable, whatever its
/// length.
pub proof fn lemma_email_extension_is_valid(prefix: Seq<char>, s: Seq<char>, suffix: Seq<char>)
    requires
        is_valid_email(s),
    ensures
        is_valid_email(prefix + s + suffix),
{
    let i = choose|i: int| 0 <= i < s.len() && s[i] == '@';
    assert((prefix + s + suffix)[prefix.len() + i] == '@');
}

/// An email address: a string that holds an `@`.
#[derive(Debug, PartialEq, Eq, Hash)]
pub struct Email(String);

impl View for Email {
    type V = Seq<char>;

    open spec fn view(&self) -> Seq<char> {
        self.text()
    }
}

impl Email {
    /// The address as written.
    pub closed spec fn text(&self) -> Seq<char> {
        self.0@
    }

    /// Accepts `email` unchanged when it holds an `@`; otherwise fails with
    /// the message `Invalid email`.
    pub fn parse(email: String) -> (r: Result<Email, String>)
        ensures
            is_valid_email(email@) <==> r is Ok,
            r matches Ok(e) ==> e@ == email@,
            r matches Err(msg) ==> msg@ == "Invalid email"@,
    {
        if validate_email(email.as_str()) {
            Ok(Email(email))
        } else {
            Err("Invalid email".to_string())
        }
    }

    /// The address as written.
    pub fn as_ref(&self) -> (s: &str)
        ensures
            s@ == self@,
    {
        self.0.as_str()
    }
}

impl Clone for Email {
    fn clone(&self) -> (r: Self)
        ensures
            r == *self,
    {
        Email(self.0.clone())
    }
}

} // verus!
