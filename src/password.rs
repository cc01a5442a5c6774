use argon2::{PasswordHash, PasswordHasher, PasswordVerifier};
use vstd::prelude::*;
use vstd::utf8::encode_utf8;

use crate::error::{AuthError, ErrorCode};
use crate::random::random_bytes;
use crate::text::{contains_char, lower_of, to_lowercase, trim, trimmed};

verus! {

/// The one wording of every credential failure, so that a caller cannot tell
/// an unknown account from a wrong password or a corrupt stored hash.
pub const INVALID_CREDENTIALS_MESSAGE: &'static str = "invalid credentials";

/// The number of salt bytes drawn for each password hash.
pub const SALT_LEN: usize = 16;

/// The shortest password accepted, in UTF-8 bytes.
pub const MIN_PASSWORD_BYTES: usize = 8;

pub open spec fn is_upper(c: char) -> bool {
    'A' <= c && c <= 'Z'
}

pub open spec fn is_lower(c: char) -> bool {
    'a' <= c && c <= 'z'
}

pub open spec fn is_digit(c: char) -> bool {
    '0' <= c && c <= '9'
}

/// A character that is neither an ASCII letter nor an ASCII digit.
pub open spec fn is_special(c: char) -> bool {
    !is_upper(c) && !is_lower(c) && !is_digit(c)
}

pub open spec fn has_char(p: Seq<char>, f: spec_fn(char) -> bool) -> bool {
    exists|i: int| 0 <= i < p.len() && #[trigger] f(p[i])
}

/// The four character classes that a password must each use at least once.
pub open spec fn has_all_classes(p: Seq<char>) -> bool {
    &&& has_char(p, |c: char| is_upper(c))
    &&& has_char(p, |c: char| is_lower(c))
    &&& has_char(p, |c: char| is_digit(c))
    &&& has_char(p, |c: char| is_special(c))
}

/// The password policy: at least eight UTF-8 bytes, and an upper-case letter,
/// a lower-case letter, a digit and another character.
pub open spec fn meets_password_policy(p: Seq<char>) -> bool {
    encode_utf8(p).len() >= MIN_PASSWORD_BYTES && has_all_classes(p)
}

/// The stored form of an email address, if it is acceptable: trimmed, lower
/// case, and holding an `@`.
pub open spec fn normalized_email(email: Seq<char>) -> Option<Seq<char>> {
    let v = lower_of(trimmed(email));
    if v.len() > 0 && v.contains('@') {
        Some(v)
    } else {
        None
    }
}

/// The stored form of a username, if it is acceptable: trimmed, lower case,
/// not empty.
pub open spec fn normalized_username(username: Seq<char>) -> Option<Seq<char>> {
    let v = lower_of(trimmed(username));
    if v.len() > 0 {
        Some(v)
    } else {
        None
    }
}

/// The PHC string that argon2 with its default parameters makes of a password
/// and a salt.
pub uninterp spec fn argon2_phc_of(password: Seq<u8>, salt: Seq<u8>) -> Seq<char>;

/// Whether argon2 accepts a password against a stored PHC string.
pub uninterp spec fn argon2_accepts(phc: Seq<char>, password: Seq<u8>) -> bool;

/// The longest password argon2 takes, in bytes.
pub const MAX_ARGON2_PASSWORD_BYTES: u64 = 0xffff_ffff;

/// Relies on argon2's `SaltString::encode_b64` and `Argon2::default().hash_password`,
/// which succeed for a 16-byte salt and a password of at most
/// `MAX_ARGON2_PASSWORD_BYTES` bytes:
/// the PHC string depends on the password and the salt alone, and
/// `verify_password` re-derives it from the salt and parameters it carries,
/// so it accepts the password it was made of.
#[verifier::external_body]
fn argon2_hash(password: &[u8], salt: &[u8]) -> (r: Option<String>)
    ensures
        salt@.len() == SALT_LEN && password@.len() <= MAX_ARGON2_PASSWORD_BYTES ==> r is Some,
        r matches Some(h) ==> h@ == argon2_phc_of(password@, salt@),
        r matches Some(h) ==> argon2_accepts(h@, password@),
{
    let salt = argon2::password_hash::SaltString::encode_b64(salt).ok()?;
    let hash = argon2::Argon2::default().hash_password(password, &salt).ok()?;
    Some(hash.to_string())
}

/// Relies on argon2's `PasswordHash::new` and `Argon2::default().verify_password`;
/// a string that does not parse is not accepted.
#[verifier::external_body]
fn argon2_verify(phc: &str, password: &[u8]) -> (r: bool)
    ensures
        r == argon2_accepts(phc@, password@),
{
    match PasswordHash::new(phc) {
        Ok(parsed) => argon2::Argon2::default().verify_password(password, &parsed).is_ok(),
        Err(_) => false,
    }
}

/// Checks the password policy. Either message carries the code `invalid_password`.
pub fn validate_password(password: &str) -> (r: Result<(), AuthError>)
    ensures
        r is Ok <==> meets_password_policy(password@),
        r matches Err(e) ==> e.code == ErrorCode::InvalidPassword,
{
    if password.as_bytes().len() < MIN_PASSWORD_BYTES {
        return Err(
            AuthError::new(ErrorCode::InvalidPassword, "password must be at least 8 characters"),
        );
    }
    let n = password.unicode_len();
    let mut has_upper = false;
    let mut has_lower = false;
    let mut has_digit = false;
    let mut has_special = false;
    let mut i: usize = 0;
    while i < n
        invariant
            n == password@.len(),
            i <= n,
            has_upper == has_char(password@.subrange(0, i as int), |c: char| is_upper(c)),
            has_lower == has_char(password@.subrange(0, i as int), |c: char| is_lower(c)),
            has_digit == has_char(password@.subrange(0, i as int), |c: char| is_digit(c)),
            has_special == has_char(password@.subrange(0, i as int), |c: char| is_special(c)),
        decreases n - i,
    {
        let ch = password.get_char(i);
        let ghost before = password@.subrange(0, i as int);
        let ghost after = password@.subrange(0, i + 1);
        assert(after =~= before.push(ch));
        if 'A' <= ch && ch <= 'Z' {
            has_upper = true;
        } else if 'a' <= ch && ch <= 'z' {
            has_lower = true;
        } else if '0' <= ch && ch <= '9' {
            has_digit = true;
        } else {
            has_special = true;
        }
        proof {
            lemma_has_char_push(before, ch, |c: char| is_upper(c));
            lemma_has_char_push(before, ch, |c: char| is_lower(c));
            lemma_has_char_push(before, ch, |c: char| is_digit(c));
            lemma_has_char_push(before, ch, |c: char| is_special(c));
        }
        i = i + 1;
    }
    assert(password@.subrange(0, n as int) =~= password@);
    if !(has_upper && has_lower && has_digit && has_special) {
        return Err(
            AuthError::new(
                ErrorCode::InvalidPassword,
                "password must include upper, lower, digit, and special character",
            ),
        );
    }
    Ok(())
}

proof fn lemma_has_char_push(s: Seq<char>, c: char, f: spec_fn(char) -> bool)
    ensures
        has_char(s.push(c), f) == (has_char(s, f) || f(c)),
{
    let t = s.push(c);
    if has_char(s, f) {
        let i = choose|i: int| 0 <= i < s.len() && #[trigger] f(s[i]);
        assert(t[i] == s[i]);
    }
    if f(c) {
        assert(t[s.len() as int] == c);
    }
    if has_char(t, f) {
        let i = choose|i: int| 0 <= i < t.len() && #[trigger] f(t[i]);
        if i < s.len() {
            assert(t[i] == s[i]);
        }
    }
}

/// What hashing `password` gives: the argon2 PHC string of the password
/// under some salt of `SALT_LEN` bytes, which argon2 accepts for the
/// password; or `password_hash_failed`, which cannot happen for a password of
/// at most `MAX_ARGON2_PASSWORD_BYTES` bytes.
pub open spec fn hash_result(password: Seq<char>, r: Result<String, AuthError>) -> bool {
    &&& encode_utf8(password).len() <= MAX_ARGON2_PASSWORD_BYTES ==> r is Ok
    &&& r matches Ok(h) ==> argon2_accepts(h@, encode_utf8(password))
    &&& r matches Ok(h) ==> exists|salt: Seq<u8>|
        salt.len() == SALT_LEN && h@ == #[trigger] argon2_phc_of(encode_utf8(password), salt)
    &&& r matches Err(e) ==> e.code == ErrorCode::PasswordHashFailed
}

/// What checking `password` against `hash` gives: success exactly when argon2
/// accepts it, else `invalid_credentials`.
pub open spec fn verify_result(hash: Seq<char>, password: Seq<char>, r: Result<(), AuthError>) -> bool {
    &&& r is Ok <==> argon2_accepts(hash, encode_utf8(password))
    &&& r matches Err(e) ==> e.code == ErrorCode::InvalidCredentials
    &&& r matches Err(e) ==> e.message@ == INVALID_CREDENTIALS_MESSAGE@
}

/// Hashes a password with argon2 under a fresh random salt of `SALT_LEN`
/// bytes. The result is accepted by `verify_password` for this password.
pub fn hash_password(password: &str) -> (r: Result<String, AuthError>)
    ensures
        hash_result(password@, r),
{
    let salt = random_bytes(SALT_LEN);
    match argon2_hash(password.as_bytes(), salt.as_slice()) {
        Some(h) => Ok(h),
        None => Err(AuthError::new(ErrorCode::PasswordHashFailed, "password hashing failed")),
    }
}

/// Checks a password against a stored hash. A wrong password and a hash that
/// does not parse give the same error, `invalid_credentials`.
pub fn verify_password(hash: &str, password: &str) -> (r: Result<(), AuthError>)
    ensures
        verify_result(hash@, password@, r),
{
    if argon2_verify(hash, password.as_bytes()) {
        Ok(())
    } else {
        Err(AuthError::new(ErrorCode::InvalidCredentials, INVALID_CREDENTIALS_MESSAGE))
    }
}

/// Trims and lower-cases an email address; it must hold an `@`.
pub fn normalize_email(email: &str) -> (r: Result<String, AuthError>)
    ensures
        match normalized_email(email@) {
            Some(v) => r matches Ok(s) && s@ == v,
            None => r matches Err(e) && e.code == ErrorCode::InvalidEmail,
        },
{
    let t = trim(email);
    let value = to_lowercase(t.as_str());
    if value.as_str().is_empty() || !contains_char(value.as_str(), '@') {
        return Err(AuthError::new(ErrorCode::InvalidEmail, "invalid email"));
    }
    Ok(value)
}

/// Trims and lower-cases a username; it must not be empty.
pub fn normalize_username(username: &str) -> (r: Result<String, AuthError>)
    ensures
        match normalized_username(username@) {
            Some(v) => r matches Ok(s) && s@ == v,
            None => r matches Err(e) && e.code == ErrorCode::InvalidUsername,
        },
{
    let t = trim(username);
    let value = to_lowercase(t.as_str());
    if value.as_str().is_empty() {
        return Err(AuthError::new(ErrorCode::InvalidUsername, "invalid username"));
    }
    Ok(value)
}

} // verus!
