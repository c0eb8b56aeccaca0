use argon2::password_hash::rand_core::OsRng;
use argon2::password_hash::SaltString;
use argon2::{Argon2, PasswordHash, PasswordHasher, PasswordVerifier};
use vstd::prelude::*;
use vstd::utf8::encode_utf8;

verus! {

/// The longest password, in UTF-8 bytes, that Argon2 accepts.
pub const MAX_PASSWORD_BYTES: u64 = 0xFFFF_FFFF;

/// What checking `password` against the PHC string `phc` gives: `None` when
/// `phc` is not a well-formed PHC string, else whether the password matches.
pub uninterp spec fn argon2_verify(password: Seq<char>, phc: Seq<char>) -> Option<bool>;

/// Relies on argon2's `PasswordHasher::hash_password` under `Argon2::default()`
/// with a fresh salt from `SaltString::generate` over `OsRng`. The salt is
/// random, so only what holds of every outcome is stated: hashing fails only
/// on a password longer than `MAX_PASSWORD_BYTES` bytes, and the PHC string
/// it renders verifies the same password (verification re-hashes with the
/// salt and parameters that the string records).
#[verifier::external_body]
pub(crate) fn hash_password(password: &str) -> (r: Option<String>)
    ensures
        r is Some <==> encode_utf8(password@).len() <= MAX_PASSWORD_BYTES,
        r matches Some(h) ==> argon2_verify(password@, h@) == Some(true),
{
    let salt = SaltString::generate(&mut OsRng);
    match Argon2::default().hash_password(password.as_bytes(), &salt) {
        Ok(hash) => Some(hash.to_string()),
        Err(_) => None,
    }
}

/// Relies on password_hash's `PasswordHash::new` to read a PHC string and on
/// `PasswordVerifier::verify_password` under `Argon2::default()` to check the
/// password against it. The outcome depends on the two strings alone.
#[verifier::external_body]
pub(crate) fn verify_hash(password: &str, phc: &str) -> (r: Option<bool>)
    ensures
        r == argon2_verify(password@, phc@),
{
    match PasswordHash::new(phc) {
        Ok(parsed) => Some(Argon2::default().verify_password(password.as_bytes(), &parsed).is_ok()),
        Err(_) => None,
    }
}

} // verus!
