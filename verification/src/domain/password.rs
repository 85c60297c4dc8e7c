use vstd::prelude::*;

verus! {

/// The least number of UTF-8 bytes a password may have.
pub const MIN_PASSWORD_LENGTH: usize = 8;

/// A password is accepted when its UTF-8 encoding is at least
/// `MIN_PASSWORD_LENGTH` bytes long.
pub open spec fn is_valid_password(s: Seq<char>) -> bool {
    vstd::utf8::encode_utf8(s).len() >= MIN_PASSWORD_LENGTH
}

/// Every character takes one to four bytes in UTF-8, and the encoding of a
/// concatenation is the concatenation of the encodings.
proof fn lemma_encode_utf8_len(s: Seq<char>, t: Seq<char>)
    ensures
        s.len() <= vstd::utf8::encode_utf8(s).len() <= 4 * s.len(),
        vstd::utf8::encode_utf8(s + t) == vstd::utf8::encode_utf8(s) + vstd::utf8::encode_utf8(t),
        (forall|i: int| 0 <= i < s.len() ==> (#[trigger] s[i] as u32) < 0x80)
            ==> vstd::utf8::encode_utf8(s).len() == s.len(),
    decreases s.len(),
{
    if s.len() > 0 {
        lemma_encode_utf8_len(s.drop_first(), t);
        assert((s + t).drop_first() =~= s.drop_first() + t);
        assert((s + t)[0] == s[0]);
        let e = vstd::utf8::encode_scalar(s[0] as u32);
        assert(1 <= e.len() <= 4);
        if forall|i: int| 0 <= i < s.len() ==> (#[trigger] s[i] as u32) < 0x80 {
            assert((s[0] as u32) < 0x80);
            assert forall|i: int| 0 <= i < s.drop_first().len() implies (
            #[trigger] s.drop_first()[i] as u32) < 0x80 by {
                assert(s.drop_first()[i] == s[i + 1]);
            }
            assert(vstd::utf8::has_width_1_encoding(s[0] as u32));
            assert(e.len() == 1);
        }
        assert(vstd::utf8::encode_utf8(s + t) =~= vstd::utf8::encode_utf8(s)
            + vstd::utf8::encode_utf8(t));
    } else {
        assert(s + t =~= t);
        assert(vstd::utf8::encode_utf8(s) =~= Seq::<u8>::empty());
    }
}

/// Lengthening an acceptable password, by any text, keeps it acceptable.
pub proof fn lemma_longer_password_is_valid(s: Seq<char>, t: Seq<char>)
    requires
        is_valid_password(s),
    ensures
        is_valid_password(s + t),
{
    lemma_encode_utf8_len(s, t);
}

/// A password of at least `MIN_PASSWORD_LENGTH` characters is acceptable,
/// however long.
pub proof fn lemma_enough_characters_is_valid(s: Seq<char>)
    requires
        s.len() >= MIN_PASSWORD_LENGTH,
    ensures
        is_valid_password(s),
{
    lemma_encode_utf8_len(s, Seq::empty());
}

/// A password of ASCII characters is acceptable exactly when it has at least
/// `MIN_PASSWORD_LENGTH` characters.
pub proof fn lemma_ascii_password(s: Seq<char>)
    requires
        forall|i: int| 0 <= i < s.len() ==> (#[trigger] s[i] as u32) < 0x80,
    ensures
        is_valid_password(s) <==> s.len() >= MIN_PASSWORD_LENGTH,
{
    lemma_encode_utf8_len(s, Seq::empty());
}

/// A password of fewer than two characters is never acceptable.
pub proof fn lemma_one_character_password_is_invalid(s: Seq<char>)
    requires
        s.len() < 2,
    ensures
        !is_valid_password(s),
{
    lemma_encode_utf8_len(s, Seq::empty());
}

fn validate_password(s: &str) -> (valid: bool)
    ensures
        valid == is_valid_password(s@),
{
    s.as_bytes().len() >= MIN_PASSWORD_LENGTH
}

/// A password of at least `MIN_PASSWORD_LENGTH` bytes.
#[derive(Debug)]
pub struct Password(String);

impl View for Password {
    type V = Seq<char>;

    open spec fn view(&self) -> Seq<char> {
        self.text()
    }
}

impl Password {
    /// The password as written.
    pub closed spec fn text(&self) -> Seq<char> {
        self.0@
    }

    /// Accepts `password` unchanged when it is long enough; otherwise fails
    /// with a message that states the least length.
    pub fn parse(password: String) -> (r: Result<Password, String>)
        ensures
            is_valid_password(password@) <==> r is Ok,
            r matches Ok(p) ==> p@ == password@,
            r matches Err(msg) ==> msg@ == "Password must be at least 8 characters long"@,
    {
        if validate_password(password.as_str()) {
            Ok(Password(password))
        } else {
            Err("Password must be at least 8 characters long".to_string())
        }
    }

    /// The password as written.
    pub fn as_ref(&self) -> (s: &str)
        ensures
            s@ == self@,
    {
        self.0.as_str()
    }
}

impl Clone for Password {
    fn clone(&self) -> (r: Self)
        ensures
            r == *self,
    {
        Password(self.0.clone())
    }
}

} // verus!
