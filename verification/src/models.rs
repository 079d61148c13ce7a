//! Request bodies of the authentication endpoints, with their input
//! validation: a well-formed email address and a minimum password
//! length.
//!
//! The email policy is: exactly one '@', with at least one character
//! on each side. The password must hold at least six characters.

use vstd::prelude::*;
use vstd::string::StrSliceExecFns;

use crate::ApiError;

verus! {

/// The shortest accepted password, in characters.
pub const MIN_PASSWORD_CHARS: usize = 6;

/// A well-formed email address under this library's policy: exactly
/// one '@', neither first nor last.
pub open spec fn spec_valid_email(s: Seq<char>) -> bool {
    exists|i: int|
        0 < i < s.len() - 1 && s[i] == '@' && (forall|j: int|
            0 <= j < s.len() && j != i ==> s[j] != '@')
}

/// Body of the registration endpoint.
#[derive(Debug)]
pub struct RegisterRequest {
    pub email: String,
    pub password: String,
}

/// Body of the login endpoint.
#[derive(Debug)]
pub struct LoginRequest {
    pub email: String,
    pub password: String,
}

/// The public representation of a user at this boundary.
#[derive(Debug)]
pub struct User {
    pub id: String,
    pub email: String,
}

/// Whether a string is a well-formed email address under the
/// library's policy.
pub fn valid_email(email: &str) -> (r: bool)
    ensures
        r == spec_valid_email(email@),
{
    let n = email.unicode_len();
    let mut at: Option<usize> = None;
    let mut i: usize = 0;
    while i < n
        invariant
            i <= n,
            n == email@.len(),
            match at {
                Some(a) => a < i && email@[a as int] == '@' && (forall|j: int|
                    0 <= j < i && j != a ==> email@[j] != '@'),
                None => forall|j: int| 0 <= j < i ==> email@[j] != '@',
            },
        decreases n - i,
    {
        if email.get_char(i) == '@' {
            if at.is_some() {
                return false;
            }
            at = Some(i);
        }
        i += 1;
    }
    match at {
        Some(a) => 0 < a && a < n - 1,
        None => false,
    }
}

impl RegisterRequest {
    /// Accept the request only if the email is well formed and the
    /// password long enough.
    pub fn validate(&self) -> (r: Result<(), ApiError>)
        ensures
            r is Ok <==> spec_valid_email(self.email@) && self.password@.len()
                >= MIN_PASSWORD_CHARS,
            r is Err ==> r == Err::<(), ApiError>(ApiError::Validation),
    {
        if !valid_email(self.email.as_str()) {
            return Err(ApiError::Validation);
        }
        if self.password.as_str().unicode_len() < MIN_PASSWORD_CHARS {
            return Err(ApiError::Validation);
        }
        Ok(())
    }
}

} // verus!
