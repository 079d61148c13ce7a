//! Auth gate: extracts the bearer token from an Authorization header,
//! verifies it, and hands the claims to the protected handler — or
//! rejects the request. The admin variant additionally requires the
//! Admin role, a distinct "forbidden" outcome.

use vstd::prelude::*;
use vstd::string::StrSliceExecFns;

use crate::token::{hs256_claims_of, jwt_of, spec_role_claim, verify_token};
use crate::user::{Claims, UserRole};
use crate::ApiError;

verus! {

broadcast use vstd::string::group_string_axioms;

/// The token carried by an Authorization header value: everything
/// after the exact prefix "Bearer ", if that prefix is there.
pub open spec fn spec_bearer_token(h: Seq<char>) -> Option<Seq<char>> {
    if h.len() >= 7 && h.subrange(0, 7) == "Bearer "@ {
        Some(h.skip(7))
    } else {
        None
    }
}

/// An authenticated request context: the verified claims.
pub struct AuthMiddleware(pub Claims);

/// Strip the "Bearer " prefix from a header value; a header without
/// that exact prefix carries no token.
pub fn strip_bearer(header: &str) -> (r: Option<&str>)
    ensures
        match spec_bearer_token(header@) {
            Some(t) => r is Some && r.unwrap()@ == t,
            None => r is None,
        },
{
    proof {
        reveal_strlit("Bearer ");
    }
    let n = header.unicode_len();
    if n < 7 {
        return None;
    }
    let prefix_ok = header.get_char(0) == 'B' && header.get_char(1) == 'e' && header.get_char(2)
        == 'a' && header.get_char(3) == 'r' && header.get_char(4) == 'e' && header.get_char(5)
        == 'r' && header.get_char(6) == ' ';
    if prefix_ok {
        proof {
            assert(header@.subrange(0, 7) =~= "Bearer "@);
        }
        Some(header.substring_char(7, n))
    } else {
        proof {
            if header@.subrange(0, 7) == "Bearer "@ {
                assert(header@.subrange(0, 7)[0] == header@[0]);
                assert(header@.subrange(0, 7)[1] == header@[1]);
                assert(header@.subrange(0, 7)[2] == header@[2]);
                assert(header@.subrange(0, 7)[3] == header@[3]);
                assert(header@.subrange(0, 7)[4] == header@[4]);
                assert(header@.subrange(0, 7)[5] == header@[5]);
                assert(header@.subrange(0, 7)[6] == header@[6]);
                assert(false);
            }
        }
        None
    }
}

/// Authenticate a request from its Authorization header: the header
/// must be present, carry a bearer token, and the token must verify.
/// Every failure is an unauthenticated outcome; a token issued for
/// this secret yields exactly its claims, unless it has expired; and
/// claims are handed out only for a bearer token that carries exactly
/// those claims under the secret — no other request reaches a
/// protected handler.
pub fn authenticate(secret: &[u8], header: Option<&str>) -> (r: Result<Claims, ApiError>)
    ensures
        r is Err ==> r == Err::<Claims, ApiError>(ApiError::Unauthenticated),
        header is None ==> r is Err,
        header is Some && spec_bearer_token(header.unwrap()@) is None ==> r is Err,
        r matches Ok(c) ==> header is Some && spec_bearer_token(header.unwrap()@) is Some
            && hs256_claims_of(secret@, spec_bearer_token(header.unwrap()@).unwrap()) == Some(
            (Some(c.sub@), c.exp, Some(spec_role_claim(c.role))),
        ),
        forall|s: Seq<char>, e: u64, role: UserRole|
            header is Some && spec_bearer_token(header.unwrap()@) == Some(
                #[trigger] jwt_of(secret@, s, e, spec_role_claim(role)),
            ) ==> match r {
                Ok(c) => c.sub@ == s && c.exp == e && c.role == role,
                Err(_) => true,
            },
{
    let h = match header {
        Some(h) => h,
        None => {
            return Err(ApiError::Unauthenticated);
        },
    };
    let token = match strip_bearer(h) {
        Some(t) => t,
        None => {
            return Err(ApiError::Unauthenticated);
        },
    };
    match verify_token(secret, token) {
        Ok(claims) => Ok(claims),
        Err(_) => Err(ApiError::Unauthenticated),
    }
}

/// Authenticate and require the Admin role. A verified non-admin
/// token is a forbidden outcome, kept apart from an unauthenticated
/// one; claims are handed out only for a bearer token that carries
/// exactly those claims — with the Admin role — under the secret.
pub fn require_admin(secret: &[u8], header: Option<&str>) -> (r: Result<Claims, ApiError>)
    ensures
        r is Ok ==> r.unwrap().role == UserRole::Admin,
        r matches Ok(c) ==> header is Some && spec_bearer_token(header.unwrap()@) is Some
            && hs256_claims_of(secret@, spec_bearer_token(header.unwrap()@).unwrap()) == Some(
            (Some(c.sub@), c.exp, Some(spec_role_claim(c.role))),
        ),
        r is Err ==> r == Err::<Claims, ApiError>(ApiError::Unauthenticated) || r == Err::<
            Claims,
            ApiError,
        >(ApiError::Forbidden),
        header is None ==> r == Err::<Claims, ApiError>(ApiError::Unauthenticated),
        forall|s: Seq<char>, e: u64, role: UserRole|
            header is Some && spec_bearer_token(header.unwrap()@) == Some(
                #[trigger] jwt_of(secret@, s, e, spec_role_claim(role)),
            ) ==> match r {
                Ok(c) => c.sub@ == s && c.exp == e && c.role == role && role == UserRole::Admin,
                Err(err) => err == ApiError::Unauthenticated || (err == ApiError::Forbidden && role
                    != UserRole::Admin),
            },
{
    let claims = authenticate(secret, header)?;
    match claims.role {
        UserRole::Admin => Ok(claims),
        UserRole::User => Err(ApiError::Forbidden),
    }
}

/// Authenticate and discard the decoded payload, for endpoints that
/// ask for a valid identity and nothing more: the request passes only
/// when its header carries a bearer token that carries claims under
/// the secret.
pub fn require_auth(secret: &[u8], header: Option<&str>) -> (r: Result<(), ApiError>)
    ensures
        r is Err ==> r == Err::<(), ApiError>(ApiError::Unauthenticated),
        header is None ==> r is Err,
        r is Ok ==> header is Some && spec_bearer_token(header.unwrap()@) is Some
            && hs256_claims_of(secret@, spec_bearer_token(header.unwrap()@).unwrap()) is Some,
{
    match authenticate(secret, header) {
        Ok(_) => Ok(()),
        Err(e) => Err(e),
    }
}

impl AuthMiddleware {
    /// Build the authenticated context for a request, as the
    /// extraction layer does before a protected handler runs.
    pub fn from_header(secret: &[u8], header: Option<&str>) -> (r: Result<AuthMiddleware, ApiError>)
        ensures
            r is Err ==> r == Err::<AuthMiddleware, ApiError>(ApiError::Unauthenticated),
            header is None ==> r is Err,
            r matches Ok(m) ==> header is Some && spec_bearer_token(header.unwrap()@) is Some
                && hs256_claims_of(secret@, spec_bearer_token(header.unwrap()@).unwrap()) == Some(
                (Some(m.0.sub@), m.0.exp, Some(spec_role_claim(m.0.role))),
            ),
            forall|s: Seq<char>, e: u64, role: UserRole|
                header is Some && spec_bearer_token(header.unwrap()@) == Some(
                    #[trigger] jwt_of(secret@, s, e, spec_role_claim(role)),
                ) ==> match r {
                    Ok(m) => m.0.sub@ == s && m.0.exp == e && m.0.role == role,
                    Err(_) => true,
                },
    {
        match authenticate(secret, header) {
            Ok(claims) => Ok(AuthMiddleware(claims)),
            Err(e) => Err(e),
        }
    }
}

} // verus!
