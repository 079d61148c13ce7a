//! Identifiers: the library holds an entity id as its 128-bit value;
//! the `uuid` crate supplies fresh random ids and the textual form
//! used in token subjects and request paths.

use vstd::prelude::*;

verus! {

/// The id a textual form stands for, if it parses. This names the
/// outcome of `uuid::Uuid::parse_str`, which depends on the string
/// alone.
pub uninterp spec fn uuid_of(s: Seq<char>) -> Option<u128>;

/// The canonical hyphenated textual form of an id. This names the
/// display form of `uuid::Uuid`, which depends on the value alone.
pub uninterp spec fn uuid_str_of(v: u128) -> Seq<char>;

/// Relies on `uuid::Uuid::new_v4`: a fresh random identifier; nothing
/// is promised of its value.
#[verifier::external_body]
pub(crate) fn new_uuid() -> u128 {
    uuid::Uuid::new_v4().as_u128()
}

/// Relies on `uuid::Uuid::parse_str` and `Uuid::as_u128`.
#[verifier::external_body]
pub(crate) fn parse_uuid(s: &str) -> (r: Option<u128>)
    ensures
        r == uuid_of(s@),
{
    match uuid::Uuid::parse_str(s) {
        Ok(u) => Some(u.as_u128()),
        Err(_) => None,
    }
}

/// Relies on `uuid::Uuid::from_u128` and the `Display` form of
/// `uuid::Uuid` (hyphenated, documented to be accepted back by
/// `Uuid::parse_str` as the same value).
#[verifier::external_body]
pub(crate) fn uuid_to_string(v: u128) -> (r: String)
    ensures
        r@ == uuid_str_of(v),
        uuid_of(r@) == Some(v),
{
    uuid::Uuid::from_u128(v).to_string()
}

} // verus!
