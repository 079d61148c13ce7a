//! Token service: issues and verifies signed, expiring identity
//! tokens through the `jsonwebtoken` crate (HS256 with a symmetric
//! secret).
//!
//! A token carries the claims {sub, exp, role}; `exp` is an absolute
//! Unix timestamp, set by callers to now + TTL. Verification checks
//! the signature and the expiration and tells the three failure modes
//! apart.

use jsonwebtoken::errors::ErrorKind;
use jsonwebtoken::{decode, encode, Algorithm, DecodingKey, EncodingKey, Header, Validation};
use serde_json::Value;
use vstd::prelude::*;
use vstd::string::StringExecFns;

use crate::user::{Claims, UserRole};
use crate::ApiError;

verus! {

/// The signed, serialized token for a secret and the claims
/// {sub, exp, role}. This names the output of `jsonwebtoken::encode`
/// under its default HS256 header, which depends on these arguments
/// alone.
pub uninterp spec fn jwt_of(secret: Seq<u8>, sub: Seq<char>, exp: u64, role: Seq<char>) -> Seq<
    char,
>;

/// The claims a token carries for a secret: `Some` exactly when the
/// token is a well-formed HS256 JWT whose signature verifies under
/// the secret and whose payload holds a numeric expiration that the
/// decoder accepts; the triple is then the payload's subject and role
/// strings (where present) around that expiration. This names the
/// signature-checked decoding of `jsonwebtoken::decode`, which
/// depends on the secret and the token alone — never on the clock.
pub uninterp spec fn hs256_claims_of(secret: Seq<u8>, token: Seq<char>) -> Option<
    (Option<Seq<char>>, u64, Option<Seq<char>>),
>;

/// Why a token was rejected.
#[derive(Clone, Copy, PartialEq, Eq, Structural, Debug)]
pub enum TokenError {
    Expired,
    BadSignature,
    Malformed,
}

/// The role claim string stored inside a token.
pub open spec fn spec_role_claim(role: UserRole) -> Seq<char> {
    match role {
        UserRole::Admin => "admin"@,
        UserRole::User => "user"@,
    }
}

/// Distinct roles are stored as distinct claim strings.
pub proof fn lemma_role_claim_injective(a: UserRole, b: UserRole)
    ensures
        spec_role_claim(a) == spec_role_claim(b) ==> a == b,
{
    reveal_strlit("admin");
    reveal_strlit("user");
    assert("admin"@.len() == 5);
    assert("user"@.len() == 4);
}

/// The role claim string for a role.
pub fn role_claim(role: UserRole) -> (r: &'static str)
    ensures
        r@ == spec_role_claim(role),
{
    match role {
        UserRole::Admin => "admin",
        UserRole::User => "user",
    }
}

/// Relies on `jsonwebtoken::encode` with `Header::default()` (HS256)
/// and a key from `EncodingKey::from_secret`: the result is the signed
/// serialization of the claims {sub, exp, role}, a function of the
/// secret and the claims alone.
#[verifier::external_body]
fn encode_token_raw(secret: &[u8], sub: &str, exp: u64, role: &str) -> (r: Result<String, ()>)
    ensures
        r is Ok ==> r.unwrap()@ == jwt_of(secret@, sub@, exp, role@),
        r is Ok ==> hs256_claims_of(secret@, r.unwrap()@) == Some(
            (Some(sub@), exp, Some(role@)),
        ),
{
    let mut claims = serde_json::Map::new();
    claims.insert("sub".to_string(), Value::from(sub));
    claims.insert("exp".to_string(), Value::from(exp));
    claims.insert("role".to_string(), Value::from(role));
    match encode(&Header::default(), &claims, &EncodingKey::from_secret(secret)) {
        Ok(token) => Ok(token),
        Err(_) => Err(()),
    }
}

/// Relies on `jsonwebtoken::decode` with `Validation::new(HS256)`: the
/// signature is checked against the secret, `exp` is required and
/// checked against the clock, and the claims handed back are those
/// serialized in the token. For a token produced by
/// `jsonwebtoken::encode` for this secret, the only possible failure
/// is expiration. Acceptance and expiration both presuppose a valid
/// signature, so they imply the token carries claims under the
/// secret; a signature failure implies it carries none. `Malformed`
/// covers both tokens that carry no claims and signature-valid ones
/// whose subject, role or integral expiration the payload lacks, so
/// nothing is claimed of it.
#[verifier::external_body]
fn decode_token_raw(secret: &[u8], token: &str) -> (r: Result<(String, u64, String), TokenError>)
    ensures
        forall|s: Seq<char>, e: u64, ro: Seq<char>|
            token@ == #[trigger] jwt_of(secret@, s, e, ro) ==> match r {
                Ok(c) => c.0@ == s && c.1 == e && c.2@ == ro,
                Err(err) => err == TokenError::Expired,
            },
        match r {
            Ok(c) => hs256_claims_of(secret@, token@) == Some((Some(c.0@), c.1, Some(c.2@))),
            Err(err) => (err == TokenError::Expired ==> hs256_claims_of(secret@, token@) is Some)
                && (err == TokenError::BadSignature ==> hs256_claims_of(secret@, token@) is None),
        },
{
    let key = DecodingKey::from_secret(secret);
    let data = match decode::<Value>(token, &key, &Validation::new(Algorithm::HS256)) {
        Ok(d) => d.claims,
        Err(e) => {
            return Err(match e.kind() {
                ErrorKind::ExpiredSignature => TokenError::Expired,
                ErrorKind::InvalidSignature => TokenError::BadSignature,
                _ => TokenError::Malformed,
            });
        },
    };
    match (data.get("sub").and_then(Value::as_str), data.get("exp").and_then(Value::as_u64), data.get("role").and_then(Value::as_str)) {
        (Some(s), Some(e), Some(ro)) => Ok((s.to_string(), e, ro.to_string())),
        _ => Err(TokenError::Malformed),
    }
}

/// Issue a token for a subject and role, expiring `ttl_seconds` after
/// `now`. A failure of the signer is an internal error.
pub fn issue_token(secret: &[u8], sub: &str, role: UserRole, now: u64, ttl_seconds: u64) -> (r:
    Result<String, ApiError>)
    requires
        now + ttl_seconds <= u64::MAX,
    ensures
        r is Ok ==> r.unwrap()@ == jwt_of(
            secret@,
            sub@,
            (now + ttl_seconds) as u64,
            spec_role_claim(role),
        ),
        r is Ok ==> hs256_claims_of(secret@, r.unwrap()@) == Some(
            (Some(sub@), (now + ttl_seconds) as u64, Some(spec_role_claim(role))),
        ),
        r is Err ==> r == Err::<String, ApiError>(ApiError::Internal),
{
    let exp = now + ttl_seconds;
    match encode_token_raw(secret, sub, exp, role_claim(role)) {
        Ok(t) => Ok(t),
        Err(()) => Err(ApiError::Internal),
    }
}

/// Verify a token against the secret: on success the decoded claims
/// come back, and they are exactly the claims the token carries under
/// this secret — never anything else. A token issued for this secret
/// with a recognised role yields exactly those claims, or `Expired`
/// once its time has passed; `Expired` itself is only ever said of a
/// token that does carry claims under the secret, and `BadSignature`
/// only of one that carries none.
pub fn verify_token(secret: &[u8], token: &str) -> (r: Result<Claims, TokenError>)
    ensures
        forall|s: Seq<char>, e: u64, role: UserRole|
            token@ == #[trigger] jwt_of(secret@, s, e, spec_role_claim(role)) ==> match r {
                Ok(c) => c.sub@ == s && c.exp == e && c.role == role,
                Err(err) => err == TokenError::Expired,
            },
        r matches Ok(c) ==> hs256_claims_of(secret@, token@) == Some(
            (Some(c.sub@), c.exp, Some(spec_role_claim(c.role))),
        ),
        r == Err::<Claims, TokenError>(TokenError::Expired) ==> hs256_claims_of(
            secret@,
            token@,
        ) is Some,
        r == Err::<Claims, TokenError>(TokenError::BadSignature) ==> hs256_claims_of(
            secret@,
            token@,
        ) is None,
{
    proof {
        lemma_role_claim_injective(UserRole::Admin, UserRole::User);
    }
    let (sub, exp, role_s) = match decode_token_raw(secret, token) {
        Ok(c) => c,
        Err(e) => {
            return Err(e);
        },
    };
    let role = if role_s == String::from_str("admin") {
        UserRole::Admin
    } else if role_s == String::from_str("user") {
        UserRole::User
    } else {
        return Err(TokenError::Malformed);
    };
    Ok(Claims { sub, exp, role })
}

/// Round trip of the token service: a token issued for a subject and
/// role verifies to claims with that subject, that role and expiration
/// now + TTL — or is reported expired, once its time has passed. An
/// unauthenticated outcome is owed only to expiry: it presupposes that
/// the issued token carries exactly the requested claims under the
/// secret.
pub fn issue_and_verify(secret: &[u8], sub: &str, role: UserRole, now: u64, ttl_seconds: u64) -> (r:
    Result<Claims, ApiError>)
    requires
        now + ttl_seconds <= u64::MAX,
    ensures
        r is Ok ==> {
            &&& r.unwrap().sub@ == sub@
            &&& r.unwrap().exp == now + ttl_seconds
            &&& r.unwrap().role == role
        },
        r is Err ==> r == Err::<Claims, ApiError>(ApiError::Internal) || r == Err::<
            Claims,
            ApiError,
        >(ApiError::Unauthenticated),
        r == Err::<Claims, ApiError>(ApiError::Unauthenticated) ==> hs256_claims_of(
            secret@,
            jwt_of(secret@, sub@, (now + ttl_seconds) as u64, spec_role_claim(role)),
        ) == Some((Some(sub@), (now + ttl_seconds) as u64, Some(spec_role_claim(role)))),
{
    let token = issue_token(secret, sub, role, now, ttl_seconds)?;
    match verify_token(secret, token.as_str()) {
        Ok(c) => Ok(c),
        Err(_) => Err(ApiError::Unauthenticated),
    }
}

} // verus!
