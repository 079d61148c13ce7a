//! The authentication flow, run against the real hashing and token
//! crates: registration, login, token verification, profile and
//! password management.

use easy_buy::auth::{LoginRequest, UserTable};
use easy_buy::middleware::{authenticate, require_admin, require_auth, strip_bearer};
use easy_buy::password::{hash_password, verify_password};
use easy_buy::token::{issue_token, verify_token, TokenError};
use easy_buy::user::{ChangePasswordRequest, RegisterRequest, UpdateProfileRequest, UserRole};
use easy_buy::ApiError;

const SECRET: &[u8] = b"test-signing-secret";
// A clock value safely in the future of any test run, so issued
// tokens have not yet expired.
const NOW: u64 = 4_000_000_000;
const TTL: u64 = 3600;

fn register(table: &mut UserTable, name: &str, email: &str, password: &str) {
    let req = RegisterRequest {
        name: name.to_string(),
        email: email.to_string(),
        password: password.to_string(),
    };
    table.register_user(&req).expect("registration failed");
}

#[test]
fn fresh_hash_verifies_against_its_password() {
    let hash = hash_password("password123").unwrap();
    assert_eq!(verify_password(&hash, "password123"), Ok(true));
}

#[test]
fn wrong_password_does_not_verify() {
    let hash = hash_password("password123").unwrap();
    assert_eq!(verify_password(&hash, "password124"), Ok(false));
    assert_eq!(verify_password(&hash, ""), Ok(false));
}

#[test]
fn two_hashes_of_one_password_differ_but_both_verify() {
    let h1 = hash_password("password123").unwrap();
    let h2 = hash_password("password123").unwrap();
    assert_ne!(h1, h2);
    assert_eq!(verify_password(&h2, "password123"), Ok(true));
}

#[test]
fn malformed_stored_hash_is_internal_not_mismatch() {
    assert_eq!(verify_password("not-a-phc-string", "password123"), Err(ApiError::Internal));
    assert_eq!(verify_password("", "password123"), Err(ApiError::Internal));
}

#[test]
fn token_round_trip_preserves_sub_and_role() {
    let token = issue_token(SECRET, "user-17", UserRole::Admin, NOW, TTL).unwrap();
    let claims = verify_token(SECRET, &token).unwrap();
    assert_eq!(claims.sub, "user-17");
    assert_eq!(claims.exp, NOW + TTL);
    assert_eq!(claims.role, UserRole::Admin);

    let token = issue_token(SECRET, "user-18", UserRole::User, NOW, TTL).unwrap();
    let claims = verify_token(SECRET, &token).unwrap();
    assert_eq!(claims.sub, "user-18");
    assert_eq!(claims.role, UserRole::User);
}

#[test]
fn expired_token_is_reported_expired() {
    // exp = 1000 + 10, decades in the past.
    let token = issue_token(SECRET, "user-17", UserRole::User, 1000, 10).unwrap();
    assert!(matches!(verify_token(SECRET, &token), Err(TokenError::Expired)));
}

#[test]
fn token_under_wrong_secret_is_rejected() {
    let token = issue_token(SECRET, "user-17", UserRole::User, NOW, TTL).unwrap();
    assert!(verify_token(b"another-secret", &token).is_err());
}

#[test]
fn garbage_token_is_rejected() {
    assert!(verify_token(SECRET, "not.a.token").is_err());
    assert!(verify_token(SECRET, "").is_err());
}

#[test]
fn duplicate_email_is_conflict_and_first_row_stays() {
    let mut table = UserTable::new();
    register(&mut table, "a", "a@x.com", "password123");
    let req = RegisterRequest {
        name: "b".to_string(),
        email: "a@x.com".to_string(),
        password: "otherpass".to_string(),
    };
    assert_eq!(table.register_user(&req).unwrap_err(), ApiError::Conflict);
    assert_eq!(table.len(), 1);
    // The first user's credentials still work.
    let login = LoginRequest { email: "a@x.com".to_string(), password: "password123".to_string() };
    let resp = table.login_user(&login, SECRET, NOW, TTL).unwrap();
    assert_eq!(resp.user.name, "a");
}

#[test]
fn login_unknown_email_is_not_found() {
    let table = UserTable::new();
    let login = LoginRequest { email: "a@x.com".to_string(), password: "password123".to_string() };
    assert_eq!(table.login_user(&login, SECRET, NOW, TTL).unwrap_err(), ApiError::NotFound);
}

#[test]
fn login_wrong_password_is_invalid() {
    let mut table = UserTable::new();
    register(&mut table, "a", "a@x.com", "password123");
    let login = LoginRequest { email: "a@x.com".to_string(), password: "wrongpass".to_string() };
    assert_eq!(table.login_user(&login, SECRET, NOW, TTL).unwrap_err(), ApiError::Validation);
}

#[test]
fn end_to_end_register_login_verify() {
    let mut table = UserTable::new();
    register(&mut table, "a", "a@x.com", "password123");

    let login = LoginRequest { email: "a@x.com".to_string(), password: "password123".to_string() };
    let resp = table.login_user(&login, SECRET, NOW, TTL).unwrap();
    assert_eq!(resp.user.email, "a@x.com");
    assert_eq!(resp.user.role, UserRole::User);

    // Present the token as a bearer header, as the verify endpoint
    // receives it.
    let header = format!("Bearer {}", resp.token);
    let claims = authenticate(SECRET, Some(&header)).unwrap();
    let echoed = table.verify_token_handler(&claims).unwrap();
    assert_eq!(echoed.email, "a@x.com");
    assert_eq!(echoed.id, resp.user.id);
}

#[test]
fn bearer_extraction() {
    assert_eq!(strip_bearer("Bearer abc.def"), Some("abc.def"));
    assert_eq!(strip_bearer("Bearer "), Some(""));
    assert_eq!(strip_bearer("bearer abc"), None);
    assert_eq!(strip_bearer("Token abc"), None);
    assert_eq!(strip_bearer(""), None);
}

#[test]
fn missing_or_malformed_header_is_unauthenticated() {
    assert_eq!(authenticate(SECRET, None).unwrap_err(), ApiError::Unauthenticated);
    assert_eq!(authenticate(SECRET, Some("Token abc")).unwrap_err(), ApiError::Unauthenticated);
    assert_eq!(authenticate(SECRET, Some("Bearer junk")).unwrap_err(), ApiError::Unauthenticated);
    assert_eq!(require_auth(SECRET, None).unwrap_err(), ApiError::Unauthenticated);
}

#[test]
fn admin_gate_forbids_plain_users() {
    let token = issue_token(SECRET, "user-17", UserRole::User, NOW, TTL).unwrap();
    let header = format!("Bearer {}", token);
    assert_eq!(require_admin(SECRET, Some(&header)).unwrap_err(), ApiError::Forbidden);

    let token = issue_token(SECRET, "admin-1", UserRole::Admin, NOW, TTL).unwrap();
    let header = format!("Bearer {}", token);
    let claims = require_admin(SECRET, Some(&header)).unwrap();
    assert_eq!(claims.role, UserRole::Admin);
}

#[test]
fn profile_update_keeps_absent_fields() {
    let mut table = UserTable::new();
    register(&mut table, "a", "a@x.com", "password123");
    let login = LoginRequest { email: "a@x.com".to_string(), password: "password123".to_string() };
    let user_id = {
        let resp = table.login_user(&login, SECRET, NOW, TTL).unwrap();
        resp.user.id
    };
    let update = UpdateProfileRequest { name: Some("b".to_string()), email: None };
    let resp = table.update_profile(user_id, &update).unwrap();
    assert_eq!(resp.name, "b");
    assert_eq!(resp.email, "a@x.com");
}

#[test]
fn profile_update_to_taken_email_is_conflict() {
    let mut table = UserTable::new();
    register(&mut table, "a", "a@x.com", "password123");
    register(&mut table, "b", "b@x.com", "password123");
    let login = LoginRequest { email: "b@x.com".to_string(), password: "password123".to_string() };
    let user_id = table.login_user(&login, SECRET, NOW, TTL).unwrap().user.id;
    let update = UpdateProfileRequest { name: None, email: Some("a@x.com".to_string()) };
    assert_eq!(table.update_profile(user_id, &update).unwrap_err(), ApiError::Conflict);
}

#[test]
fn change_password_checks_current_and_replaces_hash() {
    let mut table = UserTable::new();
    register(&mut table, "a", "a@x.com", "password123");
    let login = LoginRequest { email: "a@x.com".to_string(), password: "password123".to_string() };
    let user_id = table.login_user(&login, SECRET, NOW, TTL).unwrap().user.id;

    let wrong = ChangePasswordRequest {
        current_password: "nope".to_string(),
        new_password: "newpassword".to_string(),
    };
    assert_eq!(table.change_password(user_id, &wrong).unwrap_err(), ApiError::Validation);

    let right = ChangePasswordRequest {
        current_password: "password123".to_string(),
        new_password: "newpassword".to_string(),
    };
    table.change_password(user_id, &right).unwrap();

    let old_login = LoginRequest {
        email: "a@x.com".to_string(),
        password: "password123".to_string(),
    };
    assert_eq!(table.login_user(&old_login, SECRET, NOW, TTL).unwrap_err(), ApiError::Validation);
    let new_login = LoginRequest {
        email: "a@x.com".to_string(),
        password: "newpassword".to_string(),
    };
    assert!(table.login_user(&new_login, SECRET, NOW, TTL).is_ok());
}

#[test]
fn delete_account_removes_the_row() {
    let mut table = UserTable::new();
    register(&mut table, "a", "a@x.com", "password123");
    let login = LoginRequest { email: "a@x.com".to_string(), password: "password123".to_string() };
    let user_id = table.login_user(&login, SECRET, NOW, TTL).unwrap().user.id;
    table.delete_account(user_id).unwrap();
    assert_eq!(table.len(), 0);
    assert_eq!(table.delete_account(user_id).unwrap_err(), ApiError::NotFound);
}

#[test]
fn issue_and_verify_echoes_the_claims() {
    let claims = easy_buy::token::issue_and_verify(SECRET, "user-9", UserRole::User, NOW, TTL)
        .unwrap();
    assert_eq!(claims.sub, "user-9");
    assert_eq!(claims.exp, NOW + TTL);
    assert_eq!(claims.role, UserRole::User);
}

#[test]
fn token_subject_that_is_no_id_is_invalid() {
    let table = UserTable::new();
    let claims = easy_buy::user::Claims {
        sub: "not-an-id".to_string(),
        exp: NOW + TTL,
        role: UserRole::User,
    };
    assert_eq!(table.verify_token_handler(&claims).unwrap_err(), ApiError::Validation);
}

#[test]
fn status_codes_follow_the_error_taxonomy() {
    assert_eq!(ApiError::Validation.status_code(), 400);
    assert_eq!(ApiError::Unauthenticated.status_code(), 401);
    assert_eq!(ApiError::Forbidden.status_code(), 403);
    assert_eq!(ApiError::NotFound.status_code(), 404);
    assert_eq!(ApiError::Conflict.status_code(), 409);
    assert_eq!(ApiError::Internal.status_code(), 500);
}
