//! Credential hashing: salted, memory-hard password hashes in the PHC
//! string format, produced and checked through the `argon2` crate.
//!
//! A fresh random salt is drawn for every hash, so hashing the same
//! password twice gives different strings; what is promised of a fresh
//! hash is only that it verifies against the password it was made from.
//! A stored hash that cannot be read back is an internal fault and is
//! kept distinct from an ordinary mismatch.

use vstd::prelude::*;
use vstd::string::StringSliceAdditionalSpecFns;

use crate::ApiError;

verus! {

/// The longest password, in bytes, that the hashing algorithm accepts.
pub const MAX_PASSWORD_BYTES: usize = 0xFFFF_FFFF;

/// Whether a password's UTF-8 form fits the hashing algorithm's
/// length limit.
pub open spec fn password_within_limit(p: Seq<char>) -> bool {
    vstd::utf8::encode_utf8(p).len() <= MAX_PASSWORD_BYTES
}

/// Whether a stored PHC hash string verifies against a password.
/// This names the outcome of `Argon2::default().verify_password`,
/// which depends on the two strings alone.
pub uninterp spec fn password_matches(hash: Seq<char>, password: Seq<char>) -> bool;

/// Whether a stored PHC hash string can be read back and checked at
/// all: parsed, recognised as Argon2, its parameters accepted. This
/// names the error class of `Argon2::default().verify_password`, which
/// for passwords within the length limit depends on the hash alone.
pub uninterp spec fn password_hash_readable(hash: Seq<char>) -> bool;

/// How a password compared against a stored hash.
#[derive(Clone, Copy, PartialEq, Eq, Structural, Debug)]
enum PasswordCheck {
    Match,
    Mismatch,
    Unreadable,
}

/// Relies on `argon2::PasswordHasher::hash_password`, which salts with
/// the system RNG and returns a PHC-format hash, and on the crate's
/// documented round trip: a hash so produced verifies against the same
/// password.
#[verifier::external_body]
fn hash_password_raw(password: &str) -> (r: Result<String, ()>)
    ensures
        r is Ok ==> password_matches(r.unwrap()@, password@),
        r is Ok ==> password_hash_readable(r.unwrap()@),
{
    let hasher = argon2::Argon2::default();
    match argon2::PasswordHasher::hash_password(&hasher, password.as_bytes()) {
        Ok(hash) => Ok(hash.to_string()),
        Err(_) => Err(()),
    }
}

/// Relies on `argon2::PasswordVerifier::<str>::verify_password`: it
/// parses the stored PHC string, recomputes the digest and compares in
/// constant time; `PasswordInvalid` is the one password-dependent
/// error, every other error says the stored hash could not be used.
#[verifier::external_body]
fn verify_password_raw(stored_hash: &str, password: &str) -> (r: PasswordCheck)
    requires
        password.spec_bytes().len() <= MAX_PASSWORD_BYTES,
    ensures
        r == PasswordCheck::Match <==> password_matches(stored_hash@, password@),
        r == PasswordCheck::Unreadable <==> !password_hash_readable(stored_hash@),
{
    let hasher = argon2::Argon2::default();
    match argon2::PasswordVerifier::<str>::verify_password(&hasher, password.as_bytes(), stored_hash) {
        Ok(()) => PasswordCheck::Match,
        Err(argon2::password_hash::Error::PasswordInvalid) => PasswordCheck::Mismatch,
        Err(_) => PasswordCheck::Unreadable,
    }
}

/// Hash a password under a fresh random salt. The returned PHC string
/// verifies against `password`; any failure of the hasher is an
/// internal error.
pub fn hash_password(password: &str) -> (r: Result<String, ApiError>)
    ensures
        r is Ok ==> password_matches(r.unwrap()@, password@),
        r is Ok ==> password_hash_readable(r.unwrap()@),
        r is Err ==> r == Err::<String, ApiError>(ApiError::Internal),
{
    match hash_password_raw(password) {
        Ok(h) => Ok(h),
        Err(()) => Err(ApiError::Internal),
    }
}

/// Check a password against a stored hash. A hash that cannot be read
/// back is an internal error, not a mismatch; a password over the
/// algorithm's length limit never matches.
pub fn verify_password(stored_hash: &str, password: &str) -> (r: Result<bool, ApiError>)
    ensures
        !password_within_limit(password@) ==> r == Ok::<bool, ApiError>(false),
        password_within_limit(password@) ==> {
            &&& r is Err <==> !password_hash_readable(stored_hash@)
            &&& r is Err ==> r == Err::<bool, ApiError>(ApiError::Internal)
            &&& r is Ok ==> r.unwrap() == password_matches(stored_hash@, password@)
        },
{
    if password.as_bytes().len() > MAX_PASSWORD_BYTES {
        return Ok(false);
    }
    match verify_password_raw(stored_hash, password) {
        PasswordCheck::Match => Ok(true),
        PasswordCheck::Mismatch => Ok(false),
        PasswordCheck::Unreadable => Err(ApiError::Internal),
    }
}

/// A freshly produced hash verifies: for every password within the
/// length limit, hashing and then checking the same password yields
/// `true` whenever the hasher succeeded.
pub fn fresh_hash_verifies(password: &str) -> (r: Result<bool, ApiError>)
    ensures
        r is Ok ==> r.unwrap() == true,
{
    let hash = hash_password(password)?;
    if password.as_bytes().len() > MAX_PASSWORD_BYTES {
        return Err(ApiError::Internal);
    }
    verify_password(hash.as_str(), password)
}

} // verus!
