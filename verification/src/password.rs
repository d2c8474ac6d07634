//! Password hashing and verification with Argon2.
use vstd::prelude::*;
use argon2::{PasswordHasher, PasswordVerifier};

verus! {

/// Whether a string is a PHC password hash that the `password-hash` crate can parse.
pub uninterp spec fn phc_hash_parses(phc: Seq<char>) -> bool;

/// Whether Argon2 (with the algorithm, version, parameters and salt recorded in the
/// PHC string) derives the recorded hash from the password: `verify_password`
/// returns `Ok`.
pub uninterp spec fn argon2_accepts(password: Seq<u8>, phc: Seq<char>) -> bool;

/// Whether `verify_password` fails with another error than a wrong password: the
/// recorded algorithm, version or parameters are not usable by Argon2, or the
/// password or salt has a length that Argon2 refuses.
pub uninterp spec fn argon2_verify_errs(password: Seq<u8>, phc: Seq<char>) -> bool;

/// Longest password (in bytes) that Argon2 hashes (`argon2::MAX_PWD_LEN`).
pub const MAX_PASSWORD_LEN: u64 = 0xFFFF_FFFFu64;

/// How a hash made with `Argon2::default()` begins: Argon2id, version 19, memory
/// cost 19456 KiB, 2 iterations, 1 lane; the salt and the hash follow.
pub open spec fn argon2id_default_prefix() -> Seq<char> {
    "$argon2id$v=19$m=19456,t=2,p=1$"@
}

/// The outcome of checking a password against a stored hash.
#[derive(Debug)]
pub enum PasswordCheck {
    /// The password matches the hash.
    Match,
    /// The password does not match the hash.
    Mismatch,
    /// The stored hash could not be parsed (with the parser's message).
    UnreadableHash(String),
    /// Verification failed for another reason (with its message).
    Failed(String),
}

/// Checks a password against a PHC hash string.
///
/// Trusted: parses with `argon2::PasswordHash::new` and verifies with
/// `Argon2::default().verify_password`, telling the error `Error::Password` (wrong
/// password) apart from the others. `verify_password` recomputes the hash with the
/// recorded algorithm, version, parameters and salt: a computation that fails gives
/// its own error, an output that differs (or a string without salt or hash) gives
/// `Error::Password`. The verdicts are named, not computed here.
#[verifier::external_body]
pub fn check_password(password: &[u8], phc: &str) -> (r: PasswordCheck)
    ensures
        (r matches PasswordCheck::UnreadableHash(_)) == !phc_hash_parses(phc@),
        (r matches PasswordCheck::Match) == (phc_hash_parses(phc@) && argon2_accepts(password@, phc@)),
        (r matches PasswordCheck::Mismatch) == (phc_hash_parses(phc@) && !argon2_accepts(password@, phc@)
            && !argon2_verify_errs(password@, phc@)),
        (r matches PasswordCheck::Failed(_)) == (phc_hash_parses(phc@) && !argon2_accepts(password@, phc@)
            && argon2_verify_errs(password@, phc@)),
{
    match argon2::PasswordHash::new(phc) {
        Err(e) => PasswordCheck::UnreadableHash(e.to_string()),
        Ok(hash) => match argon2::Argon2::default().verify_password(password, &hash) {
            Ok(()) => PasswordCheck::Match,
            Err(argon2::password_hash::Error::Password) => PasswordCheck::Mismatch,
            Err(e) => PasswordCheck::Failed(e.to_string()),
        },
    }
}

/// Hashes a password with Argon2 (default parameters, Argon2id v19) and a fresh random
/// salt, as a PHC string (`$argon2id$v=19$...`).
///
/// Trusted: generates the salt with `SaltString::generate(&mut OsRng)` (always a
/// valid 16-byte salt), hashes with `Argon2::default().hash_password` and formats the
/// hash with `to_string`. Hashing fails only for a password longer than
/// `MAX_PASSWORD_LEN` bytes. The text depends on the random salt; stated are its
/// fixed beginning (algorithm, version and default parameters), and that it parses
/// again and verifies the password it was made from.
#[verifier::external_body]
pub fn hash_password(password: &[u8]) -> (r: Result<String, String>)
    ensures
        (r is Ok) == (password@.len() <= MAX_PASSWORD_LEN),
        r matches Ok(h) ==> phc_hash_parses(h@) && argon2_accepts(password@, h@),
        r matches Ok(h) ==> argon2id_default_prefix().is_prefix_of(h@),
{
    let salt = argon2::password_hash::SaltString::generate(&mut rand_core::OsRng);
    match argon2::Argon2::default().hash_password(password, &salt) {
        Ok(h) => Ok(h.to_string()),
        Err(e) => Err(e.to_string()),
    }
}

} // verus!
