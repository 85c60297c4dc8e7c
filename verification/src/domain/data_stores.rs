use vstd::prelude::*;
use rand::RngExt;

use crate::domain::email::Email;
use crate::domain::password::Password;
use crate::domain::user::User;
use crate::text::{all_digits, is_digit, padded_decimal, parse_usize, push_padded_decimal, usize_from_text};

verus! {

broadcast use vstd::string::group_string_axioms;

/// The number of decimal digits in a second-factor code.
pub const CODE_LENGTH: usize = 6;

/// Every code is below this number: ten to the power `CODE_LENGTH`.
pub const LAST_CODE: usize = 1000000;

/// A store of registered users.
pub trait UserStore {
    fn add_user(&mut self, user: User) -> Result<(), UserStoreError>;

    fn get_user(&self, email: &Email) -> Result<User, UserStoreError>;

    fn validate_user(&self, email: &Email, password: &Password) -> Result<(), UserStoreError>;
}

#[derive(Debug, PartialEq, Eq)]
pub enum UserStoreError {
    UserAlreadyExists,
    UserNotFound,
    InvalidCredentials,
    UnexpectedError,
}

/// A store of tokens that may no longer be used.
pub trait BannedTokenStore {
    fn add_token(&mut self, token: String) -> Result<(), BannedTokenStoreError>;

    fn contains_token(&self, token: &str) -> Result<bool, BannedTokenStoreError>;
}

#[derive(Debug, PartialEq, Eq)]
pub enum BannedTokenStoreError {
    UnexpectedError,
}

/// The interface all concrete second-factor code stores implement.
pub trait TwoFACodeStore {
    fn add_code(
        &mut self,
        email: Email,
        login_attempt_id: LoginAttemptId,
        code: TwoFACode,
    ) -> Result<(), TwoFACodeStoreError>;

    fn remove_code(&mut self, email: &Email) -> Result<(), TwoFACodeStoreError>;

    fn get_code(&self, email: &Email) -> Result<(LoginAttemptId, TwoFACode), TwoFACodeStoreError>;
}

#[derive(Debug, PartialEq, Eq)]
pub enum TwoFACodeStoreError {
    LoginAttemptIdNotFound,
    UnexpectedError,
}

// ---------------------------------------------------------------------------
// Login attempt identifiers
// ---------------------------------------------------------------------------

pub open spec fn is_hex_digit(c: char) -> bool {
    ('0' <= c && c <= '9') || ('a' <= c && c <= 'f') || ('A' <= c && c <= 'F')
}

pub open spec fn is_lower_hex_digit(c: char) -> bool {
    ('0' <= c && c <= '9') || ('a' <= c && c <= 'f')
}

/// The positions of the four hyphens in a hyphenated UUID.
pub open spec fn is_uuid_hyphen_position(i: int) -> bool {
    i == 8 || i == 13 || i == 18 || i == 23
}

/// `xxxxxxxx-xxxx-xxxx-xxxx-xxxxxxxxxxxx` with hexadecimal digits of either case.
pub open spec fn is_hyphenated_uuid(s: Seq<char>) -> bool {
    &&& s.len() == 36
    &&& forall|i: int|
        0 <= i < 36 ==> if is_uuid_hyphen_position(i) {
            s[i] == '-'
        } else {
            is_hex_digit(#[trigger] s[i])
        }
}

/// Thirty-two hexadecimal digits of either case.
pub open spec fn is_simple_uuid(s: Seq<char>) -> bool {
    s.len() == 32 && forall|i: int| 0 <= i < 32 ==> is_hex_digit(#[trigger] s[i])
}

pub open spec fn ascii_lowercase(c: char) -> char {
    if 'A' <= c && c <= 'Z' {
        (c as int + 32) as char
    } else {
        c
    }
}

/// `urn:uuid:`, with letters of either case.
pub open spec fn is_urn_prefix(p: Seq<char>) -> bool {
    let urn = seq!['u', 'r', 'n', ':', 'u', 'u', 'i', 'd', ':'];
    p.len() == 9 && forall|i: int| 0 <= i < 9 ==> ascii_lowercase(#[trigger] p[i]) == urn[i]
}

/// The texts that `uuid::Uuid::parse_str` accepts: the simple, hyphenated,
/// braced and URN forms of a UUID.
pub open spec fn uuid_text_accepted(s: Seq<char>) -> bool {
    ||| is_simple_uuid(s)
    ||| is_hyphenated_uuid(s)
    ||| (s.len() == 38 && s[0] == '{' && s[37] == '}' && is_hyphenated_uuid(s.subrange(1, 37)))
    ||| (s.len() == 45 && is_urn_prefix(s.take(9)) && is_hyphenated_uuid(s.skip(9)))
}

/// The text of a random (version 4) UUID as `uuid` writes it: hyphenated,
/// lower case, with the version digit `4` and a variant digit of `8` to `b`.
pub open spec fn is_v4_uuid_text(s: Seq<char>) -> bool {
    &&& s.len() == 36
    &&& forall|i: int|
        0 <= i < 36 ==> if is_uuid_hyphen_position(i) {
            s[i] == '-'
        } else {
            is_lower_hex_digit(#[trigger] s[i])
        }
    &&& s[14] == '4'
    &&& (s[19] == '8' || s[19] == '9' || s[19] == 'a' || s[19] == 'b')
}

/// The message of the error that `uuid::Uuid::parse_str` returns on `input`.
pub uninterp spec fn uuid_parse_error_message(input: Seq<char>) -> Seq<char>;

/// Calls `uuid::Uuid::parse_str`. Trusted: it succeeds exactly on the texts
/// of `uuid_text_accepted` (the length-based dispatch of its parser over the
/// simple, hyphenated, braced and URN forms), and on failure the message of
/// its error is a function of the input alone, named
/// `uuid_parse_error_message`. The parsed value itself is not kept.
#[verifier::external_body]
fn uuid_parse_str(input: &str) -> (r: Result<(), String>)
    ensures
        r is Ok <==> uuid_text_accepted(input@),
        r matches Err(msg) ==> msg@ == uuid_parse_error_message(input@),
{
    match uuid::Uuid::parse_str(input) {
        Ok(_) => Ok(()),
        Err(e) => Err(e.to_string()),
    }
}

/// Calls `uuid::Uuid::new_v4` and writes the result with its `Display`.
/// Trusted: the text is a hyphenated lower-case version 4 UUID (its bits
/// are random apart from the version and variant ones that `new_v4` sets).
#[verifier::external_body]
fn new_v4_uuid_text() -> (r: String)
    ensures
        is_v4_uuid_text(r@),
{
    uuid::Uuid::new_v4().to_string()
}

/// The identifier of one login attempt: the text of a UUID.
#[derive(Debug, PartialEq, Eq)]
pub struct LoginAttemptId(String);

impl View for LoginAttemptId {
    type V = Seq<char>;

    open spec fn view(&self) -> Seq<char> {
        self.text()
    }
}

impl LoginAttemptId {
    /// The identifier as written.
    pub closed spec fn text(&self) -> Seq<char> {
        self.0@
    }

    /// Keeps `id` when the UUID parser accepted it (`outcome` is `Ok`),
    /// and passes the parser's message on otherwise.
    pub fn from_parse_outcome(id: String, outcome: Result<(), String>) -> (r: Result<
        LoginAttemptId,
        String,
    >)
        ensures
            outcome is Ok <==> r is Ok,
            r matches Ok(a) ==> a@ == id@,
            outcome matches Err(msg) ==> (r matches Err(m) && m@ == msg@),
    {
        match outcome {
            Ok(()) => Ok(LoginAttemptId(id)),
            Err(msg) => Err(msg),
        }
    }

    /// Accepts `id` unchanged when it is the text of a UUID.
    pub fn parse(id: String) -> (r: Result<LoginAttemptId, String>)
        ensures
            uuid_text_accepted(id@) <==> r is Ok,
            r matches Ok(a) ==> a@ == id@,
            r matches Err(msg) ==> msg@ == uuid_parse_error_message(id@),
    {
        let outcome = uuid_parse_str(id.as_str());
        Self::from_parse_outcome(id, outcome)
    }

    /// The identifier as written.
    pub fn as_ref(&self) -> (s: &str)
        ensures
            s@ == self@,
    {
        self.0.as_str()
    }
}

impl Default for LoginAttemptId {
    /// A fresh identifier: the text of a random UUID.
    fn default() -> (r: Self)
        ensures
            is_v4_uuid_text(r@),
    {
        LoginAttemptId(new_v4_uuid_text())
    }
}

impl Clone for LoginAttemptId {
    fn clone(&self) -> (r: Self)
        ensures
            r == *self,
    {
        LoginAttemptId(self.0.clone())
    }
}

/// Every identifier that `LoginAttemptId::default` makes is one that
/// `LoginAttemptId::parse` accepts.
pub proof fn lemma_default_login_attempt_id_parses(s: Seq<char>)
    requires
        is_v4_uuid_text(s),
    ensures
        uuid_text_accepted(s),
{
    assert forall|i: int| 0 <= i < 36 implies if is_uuid_hyphen_position(i) {
        s[i] == '-'
    } else {
        is_hex_digit(#[trigger] s[i])
    } by {
        if !is_uuid_hyphen_position(i) {
            assert(is_lower_hex_digit(s[i]));
        }
    }
}

// ---------------------------------------------------------------------------
// Second-factor codes
// ---------------------------------------------------------------------------

/// A code is accepted when it reads as a `usize` (an optional `+`, then
/// decimal digits) below `LAST_CODE`.
pub open spec fn is_valid_two_fa_code(s: Seq<char>) -> bool {
    usize_from_text(s) matches Some(n) && n < LAST_CODE
}

/// Calls `rand::rng().random_range(0..bound)`. Trusted: the result is below
/// `bound`; which number comes is left to chance.
#[verifier::external_body]
fn random_below(bound: usize) -> (n: usize)
    requires
        bound > 0,
    ensures
        n < bound,
{
    rand::rng().random_range(0..bound)
}

/// A second-factor code: decimal digits whose value is below `LAST_CODE`.
#[derive(Debug, PartialEq, Eq)]
pub struct TwoFACode(String);

impl View for TwoFACode {
    type V = Seq<char>;

    open spec fn view(&self) -> Seq<char> {
        self.text()
    }
}

impl TwoFACode {
    /// The code as written.
    pub closed spec fn text(&self) -> Seq<char> {
        self.0@
    }

    /// Accepts `code` unchanged when it reads as a number below `LAST_CODE`.
    /// Text that is no number fails with `Invalid code`, a number that is
    /// too large with `Code should be `.
    pub fn parse(code: String) -> (r: Result<TwoFACode, String>)
        ensures
            is_valid_two_fa_code(code@) <==> r is Ok,
            r matches Ok(c) ==> c@ == code@,
            usize_from_text(code@) is None ==> (r matches Err(msg) && msg@ == "Invalid code"@),
            (usize_from_text(code@) matches Some(n) && n >= LAST_CODE) ==> (r matches Err(msg)
                && msg@ == "Code should be "@),
    {
        match parse_usize(code.as_str()) {
            None => Err("Invalid code".to_string()),
            Some(n) => {
                if n >= LAST_CODE {
                    Err("Code should be ".to_string())
                } else {
                    Ok(TwoFACode(code))
                }
            },
        }
    }

    /// The code as written.
    pub fn as_ref(&self) -> (s: &str)
        ensures
            s@ == self@,
    {
        self.0.as_str()
    }
}

/// The zero-padded `CODE_LENGTH`-digit text of a number below `LAST_CODE`
/// is a valid code that reads back as that number.
pub proof fn lemma_padded_code_is_valid(n: nat)
    requires
        n < LAST_CODE,
    ensures
        padded_decimal(n, CODE_LENGTH as nat).len() == CODE_LENGTH,
        all_digits(padded_decimal(n, CODE_LENGTH as nat)),
        usize_from_text(padded_decimal(n, CODE_LENGTH as nat)) == Some(n as usize),
        is_valid_two_fa_code(padded_decimal(n, CODE_LENGTH as nat)),
{
    let s = padded_decimal(n, CODE_LENGTH as nat);
    crate::text::lemma_padded_decimal(n, CODE_LENGTH as nat);
    assert(vstd::arithmetic::power::pow(10, 6) == 1000000) by {
        reveal_with_fuel(vstd::arithmetic::power::pow, 7);
    }
    assert(crate::text::is_digit(s[0]));
    assert(crate::text::unsigned_digits(s) == s);
    vstd::arithmetic::div_mod::lemma_small_mod(n, 1000000);
    assert(crate::text::decimal_value(s) == n);
}

/// An accepted code holds nothing but decimal digits, after at most one
/// leading `+`, and holds at least one digit: a code with any other
/// character, anywhere, is refused.
pub proof fn lemma_valid_code_is_digits(s: Seq<char>)
    ensures
        is_valid_two_fa_code(s) ==> s.len() > 0 && (forall|i: int|
            0 <= i < s.len() ==> is_digit(#[trigger] s[i]) || (i == 0 && s[i] == '+')) && !(
        s.len() == 1 && s[0] == '+'),
        (exists|i: int| 0 < i < s.len() && !is_digit(#[trigger] s[i])) ==> !is_valid_two_fa_code(s),
{
    crate::text::lemma_usize_text_is_digits(s);
}

/// Every string of one to `CODE_LENGTH` decimal digits is an accepted code.
pub proof fn lemma_short_digit_strings_are_codes(s: Seq<char>)
    requires
        1 <= s.len() <= CODE_LENGTH,
        forall|i: int| 0 <= i < s.len() ==> is_digit(#[trigger] s[i]),
    ensures
        is_valid_two_fa_code(s),
{
    assert(all_digits(s));
    crate::text::lemma_decimal_value_bound(s);
    vstd::arithmetic::power::lemma_pow_increases(10, s.len(), 6);
    assert(vstd::arithmetic::power::pow(10, 6) == 1000000) by {
        reveal_with_fuel(vstd::arithmetic::power::pow, 7);
    }
    assert(is_digit(s[0]));
    assert(crate::text::unsigned_digits(s) == s);
}

/// Every text that `uuid` accepts has the length of one of its four forms.
pub proof fn lemma_accepted_uuid_lengths(s: Seq<char>)
    ensures
        uuid_text_accepted(s) ==> s.len() == 32 || s.len() == 36 || s.len() == 38 || s.len()
            == 45,
{
}

impl Default for TwoFACode {
    /// A fresh code: a random number below `LAST_CODE`, written with
    /// exactly `CODE_LENGTH` digits.
    fn default() -> (r: Self)
        ensures
            r@.len() == CODE_LENGTH,
            all_digits(r@),
            is_valid_two_fa_code(r@),
    {
        let n = random_below(LAST_CODE);
        let mut text = String::new();
        push_padded_decimal(&mut text, n, CODE_LENGTH);
        proof {
            lemma_padded_code_is_valid(n as nat);
            assert(text@ =~= padded_decimal(n as nat, CODE_LENGTH as nat));
        }
        TwoFACode(text)
    }
}

impl Clone for TwoFACode {
    fn clone(&self) -> (r: Self)
        ensures
            r == *self,
    {
        TwoFACode(self.0.clone())
    }
}

} // verus!
