//! Passwords: hashing and checking, by Argon2.

use vstd::prelude::*;

verus! {

/// Whether a password belongs to an encoded hash; `None` where the text is not
/// an encoded hash.
pub uninterp spec fn password_verifies(password: Seq<char>, encoded: Seq<char>) -> Option<bool>;

/// Calls `argon2::PasswordHash::new` on the encoded hash, then
/// `verify_password` of `argon2::Argon2::default()` with the password's bytes.
/// Trusted: whether the text parses, and whether the password is the one that
/// was hashed, depend on the two texts alone; the parameters and the salt are
/// read from the encoded hash.
#[verifier::external_body]
pub(crate) fn verify_password(password: &str, encoded: &str) -> (verdict: Option<bool>)
    ensures
        verdict == password_verifies(password@, encoded@),
{
    match argon2::PasswordHash::new(encoded) {
        Ok(hash) => Some(
            argon2::PasswordVerifier::verify_password(
                &argon2::Argon2::default(),
                password.as_bytes(),
                &hash,
            ).is_ok(),
        ),
        Err(_) => None,
    }
}

/// The longest password that can be hashed, in bytes.
pub const MAX_PASSWORD_BYTES: u64 = 0xFFFF_FFFF;

/// Whether a password can be hashed: it has no more bytes than the hash
/// function takes.
pub open spec fn hashable(password: Seq<char>) -> bool {
    vstd::utf8::encode_utf8(password).len() <= MAX_PASSWORD_BYTES
}

/// Calls `SaltString::generate` with the operating system's random source, then
/// `hash_password` of `argon2::Argon2::default()`. Trusted: a password of no more
/// than `MAX_PASSWORD_BYTES` bytes is hashed, and the encoded hash that comes
/// back is one that the password verifies against. The salt is random, so
/// nothing else is said of the encoded hash.
#[verifier::external_body]
pub(crate) fn hash_password(password: &str) -> (encoded: Option<String>)
    ensures
        hashable(password@) ==> encoded is Some,
        encoded matches Some(hash) ==> password_verifies(password@, hash@) == Some(true),
{
    let salt = argon2::password_hash::SaltString::generate(
        &mut argon2::password_hash::rand_core::OsRng,
    );
    match argon2::PasswordHasher::hash_password(
        &argon2::Argon2::default(),
        password.as_bytes(),
        &salt,
    ) {
        Ok(hash) => Some(hash.to_string()),
        Err(_) => None,
    }
}

} // verus!
