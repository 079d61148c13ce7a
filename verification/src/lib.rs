//! Verified core of a small e-commerce JSON API: credential hashing,
//! token issuance and verification, bearer-token authorization, the
//! entity services (users, products, categories, cart items, product
//! images) modelled over in-memory tables, and the parameterized SQL
//! builder for product search.

use vstd::prelude::*;

pub mod auth;
pub mod cart;
pub mod category;
pub mod clock;
pub mod ids;
pub mod middleware;
pub mod models;
pub mod password;
pub mod product;
pub mod product_image;
pub mod query;
pub mod token;
pub mod user;

verus! {

/// HTTP-facing error taxonomy of the service layer.
#[derive(Clone, Copy, PartialEq, Eq, Structural, Debug)]
pub enum ApiError {
    Validation,
    Unauthenticated,
    Forbidden,
    NotFound,
    Conflict,
    Internal,
}

impl ApiError {
    /// The HTTP status code each error maps to, fixed by the handler layer.
    pub fn status_code(&self) -> (code: u16)
        ensures
            code == self.spec_status_code(),
    {
        match self {
            ApiError::Validation => 400,
            ApiError::Unauthenticated => 401,
            ApiError::Forbidden => 403,
            ApiError::NotFound => 404,
            ApiError::Conflict => 409,
            ApiError::Internal => 500,
        }
    }

    pub open spec fn spec_status_code(&self) -> u16 {
        match self {
            ApiError::Validation => 400,
            ApiError::Unauthenticated => 401,
            ApiError::Forbidden => 403,
            ApiError::NotFound => 404,
            ApiError::Conflict => 409,
            ApiError::Internal => 500,
        }
    }
}

} // verus!
