//! Password hashing and input validation.
//!
//! Hashing and verification are delegated to the `argon2` crate; what that
//! crate computes is named by the uninterpreted predicate
//! [`password_verifies`], which ties a freshly generated hash to the
//! plaintext it was produced from.

use vstd::prelude::*;
use vstd::string::*;
use argon2::password_hash::SaltString;
use argon2::password_hash::rand_core::OsRng;
use argon2::Argon2;
use argon2::PasswordHash;
use argon2::PasswordHasher as _;
use argon2::PasswordVerifier as _;

verus! {

/// Whether `argon2`'s verifier accepts `password` against the PHC-format
/// hash string `hash`. A malformed hash string is accepted by no password.
pub uninterp spec fn password_verifies(password: Seq<char>, hash: Seq<char>) -> bool;

/// Relies on `argon2::Argon2::hash_password` with a fresh random salt:
/// the returned PHC string verifies against the plaintext it hashed.
/// `argon2` refuses passwords of `2^32` bytes or more, so such inputs are
/// excluded rather than admitted and panicked on.
#[verifier::external_body]
pub fn generate_hash(plaintext_password: &str) -> (r: String)
    requires
        vstd::utf8::encode_utf8(plaintext_password@).len() < 0x1_0000_0000,
    ensures
        password_verifies(plaintext_password@, r@),
{
    let salt = SaltString::generate(&mut OsRng);
    let hash = Argon2::default()
        .hash_password(plaintext_password.as_bytes(), &salt)
        .unwrap();
    hash.to_string()
}

/// Relies on `argon2::Argon2::verify_password` (and
/// `argon2::PasswordHash::new` for parsing): deterministic in the plaintext
/// and the hash string; a malformed hash yields `false`, not an error.
#[verifier::external_body]
pub fn verify_password(plaintext_password: &str, hash: &str) -> (r: bool)
    ensures
        r == password_verifies(plaintext_password@, hash@),
{
    match PasswordHash::new(hash) {
        Ok(parsed) => Argon2::default()
            .verify_password(plaintext_password.as_bytes(), &parsed)
            .is_ok(),
        Err(_) => false,
    }
}

/// A password is acceptable when it is 8 to 60 bytes long and wholly
/// ASCII.
pub open spec fn valid_password(password: Seq<char>) -> bool {
    &&& 8 <= vstd::utf8::encode_utf8(password).len() <= 60
    &&& vstd::utf8::is_ascii_chars(password)
}

/// The message that rejects an unacceptable password.
pub open spec fn password_rule_text() -> Seq<char> {
    "Password must be between 8 and 60 characters and only contain ascii characters."@
}

/// Checks a candidate password and returns the empty string when it is
/// acceptable, the rejection message otherwise.
pub fn validate_password(password: &str) -> (r: String)
    ensures
        r@.len() == 0 <==> valid_password(password@),
        !valid_password(password@) ==> r@ == password_rule_text(),
{
    let n_bytes = password.as_bytes().len();
    if n_bytes < 8 || n_bytes > 60 || !password.is_ascii() {
        proof {
            reveal_strlit(
                "Password must be between 8 and 60 characters and only contain ascii characters.",
            );
        }
        "Password must be between 8 and 60 characters and only contain ascii characters.".to_owned()
    } else {
        String::new()
    }
}

/// What `char::is_alphanumeric` decides of a character.
pub uninterp spec fn char_alphanumeric(c: char) -> bool;

/// Relies on `char::is_alphanumeric`: deterministic in the character.
#[verifier::external_body]
fn is_alphanumeric_char(c: char) -> (r: bool)
    ensures
        r == char_alphanumeric(c),
{
    c.is_alphanumeric()
}

/// A username is acceptable when it is 5 to 20 bytes long and made of
/// alphanumeric characters only.
pub open spec fn valid_username(username: Seq<char>) -> bool {
    &&& 5 <= vstd::utf8::encode_utf8(username).len() <= 20
    &&& forall|i: int| 0 <= i < username.len() ==> char_alphanumeric(#[trigger] username[i])
}

/// The message that rejects an unacceptable username.
pub open spec fn username_rule_text() -> Seq<char> {
    "Username must be between 5 and 20 characters, and only contain letters / numbers."@
}

/// Checks a candidate username and returns the empty string when it is
/// acceptable, the rejection message otherwise.
pub fn validate_username(username: &str) -> (r: String)
    ensures
        r@.len() == 0 <==> valid_username(username@),
        !valid_username(username@) ==> r@ == username_rule_text(),
{
    let n_bytes = username.as_bytes().len();
    if n_bytes < 5 || n_bytes > 20 {
        proof {
            reveal_strlit(
                "Username must be between 5 and 20 characters, and only contain letters / numbers.",
            );
        }
        return "Username must be between 5 and 20 characters, and only contain letters / numbers.".to_owned();
    }
    let n = username.unicode_len();
    let mut i: usize = 0;
    let mut ok: bool = true;
    while i < n
        invariant
            i <= n,
            n == username@.len(),
            ok == (forall|j: int| 0 <= j < i ==> char_alphanumeric(#[trigger] username@[j])),
        decreases n - i,
    {
        if !is_alphanumeric_char(username.get_char(i)) {
            ok = false;
        }
        i = i + 1;
    }
    if ok {
        String::new()
    } else {
        proof {
            reveal_strlit(
                "Username must be between 5 and 20 characters, and only contain letters / numbers.",
            );
        }
        "Username must be between 5 and 20 characters, and only contain letters / numbers.".to_owned()
    }
}

} // verus!
