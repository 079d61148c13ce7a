//! User model: roles, the stored user row, the request and response
//! bodies of the account endpoints, and the claims carried by an
//! identity token.
//!
//! Identifiers are held as their 128-bit value; the textual form is a
//! concern of the boundary that parses and prints them.

use vstd::prelude::*;

verus! {

/// The two roles a user can hold.
#[derive(Clone, Copy, PartialEq, Eq, Structural, Debug)]
pub enum UserRole {
    Admin,
    User,
}

/// A stored user row.
#[derive(Debug)]
pub struct User {
    pub id: u128,
    pub name: String,
    pub email: String,
    pub password_hash: String,
    pub role: UserRole,
}

/// Body of the registration endpoint.
#[derive(Debug)]
pub struct RegisterRequest {
    pub name: String,
    pub email: String,
    pub password: String,
}

/// The public representation of a user: everything but the hash.
#[derive(Debug)]
pub struct RegisterResponse {
    pub id: u128,
    pub name: String,
    pub email: String,
    pub role: UserRole,
}

/// Body of the profile update endpoint; an absent field keeps the
/// stored value.
#[derive(Debug)]
pub struct UpdateProfileRequest {
    pub name: Option<String>,
    pub email: Option<String>,
}

/// Body of the password change endpoint.
#[derive(Debug)]
pub struct ChangePasswordRequest {
    pub current_password: String,
    pub new_password: String,
}

/// The decoded payload of an identity token: subject (the user id in
/// its textual form), absolute expiration timestamp, role.
#[derive(Debug)]
pub struct Claims {
    pub sub: String,
    pub exp: u64,
    pub role: UserRole,
}

impl User {
    /// The public view of this row.
    pub fn to_response(&self) -> (r: RegisterResponse)
        ensures
            r.id == self.id,
            r.name@ == self.name@,
            r.email@ == self.email@,
            r.role == self.role,
    {
        RegisterResponse {
            id: self.id,
            name: self.name.clone(),
            email: self.email.clone(),
            role: self.role,
        }
    }
}

} // verus!
