//! The account service: registration, login, profile update, password
//! change, account deletion and the token-echo lookup, over the user
//! table.
//!
//! The table models the `users` relation: a sequence of rows whose
//! ids and emails are unique. Every operation states exactly which
//! rows it touches and which error each input produces.

use vstd::prelude::*;

use crate::ids::{new_uuid, parse_uuid, uuid_of, uuid_str_of, uuid_to_string};
use crate::password::{
    hash_password, password_hash_readable, password_matches, password_within_limit,
    verify_password,
};
use crate::token::{issue_token, jwt_of, spec_role_claim};
use crate::user::{
    ChangePasswordRequest, Claims, RegisterRequest, RegisterResponse, UpdateProfileRequest, User,
    UserRole,
};
use crate::ApiError;

verus! {

/// Body of the login endpoint.
#[derive(Debug)]
pub struct LoginRequest {
    pub email: String,
    pub password: String,
}

/// Body of a successful login: the token and the public user.
#[derive(Debug)]
pub struct LoginResponse {
    pub token: String,
    pub user: RegisterResponse,
}

/// Whether some row carries this email.
pub open spec fn has_email(rows: Seq<User>, email: Seq<char>) -> bool {
    exists|i: int| 0 <= i < rows.len() && rows[i].email@ == email
}

/// Whether some row carries this id.
pub open spec fn has_user_id(rows: Seq<User>, id: u128) -> bool {
    exists|i: int| 0 <= i < rows.len() && rows[i].id == id
}

/// The users relation: rows with unique ids and unique emails.
pub struct UserTable {
    rows: Vec<User>,
}

impl View for UserTable {
    type V = Seq<User>;

    closed spec fn view(&self) -> Seq<User> {
        self.rows@
    }
}

/// What a successful login hands back for the matched user row:
/// the password verified against the stored hash, the public user,
/// and a token for the user's id and role expiring at now + TTL.
pub open spec fn spec_login_ok(
    u: User,
    req: LoginRequest,
    secret: Seq<u8>,
    now: u64,
    ttl_seconds: u64,
    resp: LoginResponse,
) -> bool {
    &&& password_matches(u.password_hash@, req.password@)
    &&& resp.user.id == u.id
    &&& resp.user.name@ == u.name@
    &&& resp.user.email@ == u.email@
    &&& resp.user.role == u.role
    &&& resp.token@ == jwt_of(
        secret,
        uuid_str_of(u.id),
        (now + ttl_seconds) as u64,
        spec_role_claim(u.role),
    )
}

/// Which outcome logging in against the row `u` must have.
pub open spec fn spec_login_outcome(
    u: User,
    req: LoginRequest,
    secret: Seq<u8>,
    now: u64,
    ttl_seconds: u64,
    r: Result<LoginResponse, ApiError>,
) -> bool {
    &&& (r matches Ok(resp) ==> spec_login_ok(u, req, secret, now, ttl_seconds, resp))
    &&& (password_within_limit(req.password@) ==> ((r == Err::<LoginResponse, ApiError>(
        ApiError::Validation,
    )) <==> (password_hash_readable(u.password_hash@) && !password_matches(
        u.password_hash@,
        req.password@,
    ))))
    &&& (password_within_limit(req.password@) && !password_hash_readable(u.password_hash@) ==> r
        == Err::<LoginResponse, ApiError>(ApiError::Internal))
    &&& (!password_within_limit(req.password@) ==> r == Err::<LoginResponse, ApiError>(
        ApiError::Validation,
    ))
    &&& r != Err::<LoginResponse, ApiError>(ApiError::NotFound)
}

impl UserTable {
    /// Unique ids, unique emails.
    pub open spec fn wf(self) -> bool {
        forall|i: int, j: int|
            0 <= i < j < self@.len() ==> self@[i].id != self@[j].id && self@[i].email@
                != self@[j].email@
    }

    /// An empty users relation.
    pub fn new() -> (r: UserTable)
        ensures
            r@ == Seq::<User>::empty(),
            r.wf(),
    {
        UserTable { rows: Vec::new() }
    }

    /// How many rows the table holds.
    pub fn len(&self) -> (n: usize)
        ensures
            n == self@.len(),
    {
        self.rows.len()
    }

    fn find_by_email(&self, email: &String) -> (r: Option<usize>)
        ensures
            match r {
                Some(i) => i < self@.len() && self@[i as int].email@ == email@,
                None => !has_email(self@, email@),
            },
    {
        let mut idx: usize = 0;
        while idx < self.rows.len()
            invariant
                idx <= self.rows@.len(),
                forall|k: int| 0 <= k < idx ==> self.rows@[k].email@ != email@,
            decreases self.rows@.len() - idx,
        {
            if self.rows[idx].email == *email {
                return Some(idx);
            }
            idx += 1;
        }
        None
    }

    fn find_by_id(&self, id: u128) -> (r: Option<usize>)
        ensures
            match r {
                Some(i) => i < self@.len() && self@[i as int].id == id,
                None => !has_user_id(self@, id),
            },
    {
        let mut idx: usize = 0;
        while idx < self.rows.len()
            invariant
                idx <= self.rows@.len(),
                forall|k: int| 0 <= k < idx ==> self.rows@[k].id != id,
            decreases self.rows@.len() - idx,
        {
            if self.rows[idx].id == id {
                return Some(idx);
            }
            idx += 1;
        }
        None
    }

    /// Register a user under a given fresh id: reject a taken email
    /// with a conflict, leaving the table as it was; otherwise append
    /// one row hashed from the request, with the User role.
    pub fn register_user_with_id(&mut self, req: &RegisterRequest, id: u128) -> (r: Result<
        RegisterResponse,
        ApiError,
    >)
        requires
            old(self).wf(),
        ensures
            final(self).wf(),
            r is Err ==> final(self)@ == old(self)@,
            has_email(old(self)@, req.email@) ==> r == Err::<RegisterResponse, ApiError>(
                ApiError::Conflict,
            ),
            !has_email(old(self)@, req.email@) && has_user_id(old(self)@, id) ==> r == Err::<
                RegisterResponse,
                ApiError,
            >(ApiError::Internal),
            !has_email(old(self)@, req.email@) && !has_user_id(old(self)@, id) ==> match r {
                Ok(resp) => {
                    &&& final(self)@.len() == old(self)@.len() + 1
                    &&& final(self)@.subrange(0, old(self)@.len() as int) == old(self)@
                    &&& final(self)@.last().id == id
                    &&& final(self)@.last().name@ == req.name@
                    &&& final(self)@.last().email@ == req.email@
                    &&& final(self)@.last().role == UserRole::User
                    &&& password_matches(final(self)@.last().password_hash@, req.password@)
                    &&& password_hash_readable(final(self)@.last().password_hash@)
                    &&& resp.id == id
                    &&& resp.name@ == req.name@
                    &&& resp.email@ == req.email@
                    &&& resp.role == UserRole::User
                },
                Err(e) => e == ApiError::Internal,
            },
    {
        if self.find_by_email(&req.email).is_some() {
            return Err(ApiError::Conflict);
        }
        if self.find_by_id(id).is_some() {
            return Err(ApiError::Internal);
        }
        let hash = match hash_password(req.password.as_str()) {
            Ok(h) => h,
            Err(e) => {
                return Err(e);
            },
        };
        let row = User {
            id,
            name: req.name.clone(),
            email: req.email.clone(),
            password_hash: hash,
            role: UserRole::User,
        };
        let resp = row.to_response();
        self.rows.push(row);
        proof {
            assert(self@.subrange(0, old(self)@.len() as int) =~= old(self)@);
        }
        Ok(resp)
    }

    /// Register a user under a freshly drawn random id. A taken email
    /// is a conflict and leaves the table as it was; on success one
    /// row is appended and every earlier row is untouched.
    pub fn register_user(&mut self, req: &RegisterRequest) -> (r: Result<RegisterResponse, ApiError>)
        requires
            old(self).wf(),
        ensures
            final(self).wf(),
            r is Err ==> final(self)@ == old(self)@ && (r == Err::<RegisterResponse, ApiError>(
                ApiError::Conflict,
            ) || r == Err::<RegisterResponse, ApiError>(ApiError::Internal)),
            r == Err::<RegisterResponse, ApiError>(ApiError::Conflict) <==> has_email(
                old(self)@,
                req.email@,
            ),
            r is Ok ==> {
                &&& !has_email(old(self)@, req.email@)
                &&& final(self)@.len() == old(self)@.len() + 1
                &&& final(self)@.subrange(0, old(self)@.len() as int) == old(self)@
                &&& final(self)@.last().name@ == req.name@
                &&& final(self)@.last().email@ == req.email@
                &&& final(self)@.last().role == UserRole::User
                &&& password_matches(final(self)@.last().password_hash@, req.password@)
                &&& password_hash_readable(final(self)@.last().password_hash@)
                &&& r.unwrap().id == final(self)@.last().id
                &&& r.unwrap().name@ == req.name@
                &&& r.unwrap().email@ == req.email@
                &&& r.unwrap().role == UserRole::User
            },
    {
        let id = new_uuid();
        self.register_user_with_id(req, id)
    }

    /// Log a user in: an unknown email is not found; a wrong password
    /// is invalid; an unreadable stored hash is an internal fault. On
    /// success the response carries the public user and a token for
    /// the user's id and role, expiring at `now + ttl_seconds`.
    pub fn login_user(&self, req: &LoginRequest, secret: &[u8], now: u64, ttl_seconds: u64) -> (r:
        Result<LoginResponse, ApiError>)
        requires
            self.wf(),
            now + ttl_seconds <= u64::MAX,
        ensures
            !has_email(self@, req.email@) ==> r == Err::<LoginResponse, ApiError>(ApiError::NotFound),
            r is Err ==> (r == Err::<LoginResponse, ApiError>(ApiError::NotFound) || r == Err::<
                LoginResponse,
                ApiError,
            >(ApiError::Validation) || r == Err::<LoginResponse, ApiError>(ApiError::Internal)),
            forall|i: int|
                0 <= i < self@.len() && (#[trigger] self@[i]).email@ == req.email@
                    ==> spec_login_outcome(self@[i], *req, secret@, now, ttl_seconds, r),
    {
        let i = match self.find_by_email(&req.email) {
            Some(i) => i,
            None => {
                return Err(ApiError::NotFound);
            },
        };
        let matched = match verify_password(self.rows[i].password_hash.as_str(), req.password.as_str()) {
            Ok(b) => b,
            Err(e) => {
                return Err(e);
            },
        };
        if !matched {
            return Err(ApiError::Validation);
        }
        let sub = uuid_to_string(self.rows[i].id);
        let token = match issue_token(secret, sub.as_str(), self.rows[i].role, now, ttl_seconds) {
            Ok(t) => t,
            Err(e) => {
                return Err(e);
            },
        };
        Ok(LoginResponse { token, user: self.rows[i].to_response() })
    }

    /// Update name and email of the identified user; an absent field
    /// keeps the stored value. An email already carried by another
    /// user is a conflict; an unknown id is not found; neither changes
    /// the table.
    pub fn update_profile(&mut self, user_id: u128, req: &UpdateProfileRequest) -> (r: Result<
        RegisterResponse,
        ApiError,
    >)
        requires
            old(self).wf(),
        ensures
            final(self).wf(),
            r is Err ==> final(self)@ == old(self)@ && (r == Err::<RegisterResponse, ApiError>(
                ApiError::NotFound,
            ) || r == Err::<RegisterResponse, ApiError>(ApiError::Conflict)),
            !has_user_id(old(self)@, user_id) ==> r == Err::<RegisterResponse, ApiError>(
                ApiError::NotFound,
            ),
            forall|i: int|
                0 <= i < old(self)@.len() && (#[trigger] old(self)@[i]).id == user_id ==> {
                    let new_name = if req.name is Some {
                        req.name.unwrap()@
                    } else {
                        old(self)@[i].name@
                    };
                    let new_email = if req.email is Some {
                        req.email.unwrap()@
                    } else {
                        old(self)@[i].email@
                    };
                    let taken = exists|j: int|
                        0 <= j < old(self)@.len() && j != i && (#[trigger] old(self)@[j]).email@ == new_email;
                    &&& (taken ==> r == Err::<RegisterResponse, ApiError>(ApiError::Conflict))
                    &&& (!taken ==> match r {
                        Ok(resp) => {
                            &&& final(self)@.len() == old(self)@.len()
                            &&& final(self)@[i].id == user_id
                            &&& final(self)@[i].name@ == new_name
                            &&& final(self)@[i].email@ == new_email
                            &&& final(self)@[i].password_hash == old(self)@[i].password_hash
                            &&& final(self)@[i].role == old(self)@[i].role
                            &&& (forall|k: int|
                                0 <= k < final(self)@.len() && k != i ==> #[trigger] final(self)@[k] == old(self)@[k])
                            &&& resp.id == user_id
                            &&& resp.name@ == new_name
                            &&& resp.email@ == new_email
                            &&& resp.role == old(self)@[i].role
                        },
                        Err(_) => false,
                    })
                },
    {
        let i = match self.find_by_id(user_id) {
            Some(i) => i,
            None => {
                return Err(ApiError::NotFound);
            },
        };
        let new_name = match &req.name {
            Some(n) => n.clone(),
            None => self.rows[i].name.clone(),
        };
        let new_email = match &req.email {
            Some(e) => e.clone(),
            None => self.rows[i].email.clone(),
        };
        // The new email must not be carried by any other row.
        let mut k: usize = 0;
        while k < self.rows.len()
            invariant
                self.rows@ == old(self).rows@,
                old(self).wf(),
                i < self.rows@.len(),
                self.rows@[i as int].id == user_id,
                k <= self.rows@.len(),
                new_email@ == (if req.email is Some {
                    req.email.unwrap()@
                } else {
                    self.rows@[i as int].email@
                }),
                forall|m: int|
                    0 <= m < k && m != i ==> (#[trigger] self.rows@[m]).email@ != new_email@,
            decreases self.rows@.len() - k,
        {
            if k != i && self.rows[k].email == new_email {
                return Err(ApiError::Conflict);
            }
            k += 1;
        }
        let row = User {
            id: self.rows[i].id,
            name: new_name,
            email: new_email,
            password_hash: self.rows[i].password_hash.clone(),
            role: self.rows[i].role,
        };
        let resp = row.to_response();
        self.rows[i] = row;
        Ok(resp)
    }

    /// Replace the identified user's password hash after checking the
    /// current password: an unknown id is not found, a wrong current
    /// password is invalid, an unreadable stored hash or a failed
    /// hasher is an internal fault. Only the hash of that one row
    /// changes, to one that matches the new password.
    pub fn change_password(&mut self, user_id: u128, req: &ChangePasswordRequest) -> (r: Result<
        (),
        ApiError,
    >)
        requires
            old(self).wf(),
        ensures
            final(self).wf(),
            r is Err ==> final(self)@ == old(self)@ && (r == Err::<(), ApiError>(ApiError::NotFound) || r
                == Err::<(), ApiError>(ApiError::Validation) || r == Err::<(), ApiError>(
                ApiError::Internal,
            )),
            !has_user_id(old(self)@, user_id) ==> r == Err::<(), ApiError>(ApiError::NotFound),
            forall|i: int|
                0 <= i < old(self)@.len() && (#[trigger] old(self)@[i]).id == user_id ==> {
                    &&& (r is Ok ==> {
                        &&& password_matches(old(self)@[i].password_hash@, req.current_password@)
                        &&& final(self)@.len() == old(self)@.len()
                        &&& final(self)@[i].id == old(self)@[i].id
                        &&& final(self)@[i].name == old(self)@[i].name
                        &&& final(self)@[i].email == old(self)@[i].email
                        &&& final(self)@[i].role == old(self)@[i].role
                        &&& password_matches(final(self)@[i].password_hash@, req.new_password@)
                        &&& password_hash_readable(final(self)@[i].password_hash@)
                        &&& (forall|k: int|
                            0 <= k < final(self)@.len() && k != i ==> #[trigger] final(self)@[k] == old(self)@[k])
                    })
                    &&& (password_within_limit(req.current_password@) ==> ((r == Err::<
                        (),
                        ApiError,
                    >(ApiError::Validation)) <==> (password_hash_readable(
                        old(self)@[i].password_hash@,
                    ) && !password_matches(old(self)@[i].password_hash@, req.current_password@))))
                    &&& (!password_within_limit(req.current_password@) ==> r == Err::<(), ApiError>(
                        ApiError::Validation,
                    ))
                    &&& r != Err::<(), ApiError>(ApiError::NotFound)
                },
    {
        let i = match self.find_by_id(user_id) {
            Some(i) => i,
            None => {
                return Err(ApiError::NotFound);
            },
        };
        let matched = match verify_password(
            self.rows[i].password_hash.as_str(),
            req.current_password.as_str(),
        ) {
            Ok(b) => b,
            Err(e) => {
                return Err(e);
            },
        };
        if !matched {
            return Err(ApiError::Validation);
        }
        let new_hash = match hash_password(req.new_password.as_str()) {
            Ok(h) => h,
            Err(e) => {
                return Err(e);
            },
        };
        let row = User {
            id: self.rows[i].id,
            name: self.rows[i].name.clone(),
            email: self.rows[i].email.clone(),
            password_hash: new_hash,
            role: self.rows[i].role,
        };
        self.rows[i] = row;
        Ok(())
    }

    /// Delete the identified user's row; an unknown id is not found.
    /// Every other row keeps its place.
    pub fn delete_account(&mut self, user_id: u128) -> (r: Result<(), ApiError>)
        requires
            old(self).wf(),
        ensures
            final(self).wf(),
            r is Err ==> final(self)@ == old(self)@ && r == Err::<(), ApiError>(ApiError::NotFound),
            !has_user_id(old(self)@, user_id) <==> r is Err,
            forall|i: int|
                0 <= i < old(self)@.len() && (#[trigger] old(self)@[i]).id == user_id ==> r is Ok
                    && final(self)@ == old(self)@.remove(i),
    {
        let i = match self.find_by_id(user_id) {
            Some(i) => i,
            None => {
                return Err(ApiError::NotFound);
            },
        };
        self.rows.remove(i);
        Ok(())
    }

    /// Look the authenticated user up from its verified claims, as the
    /// token-echo endpoint does: a subject that is no id is invalid,
    /// an unknown id is not found, otherwise the public user.
    pub fn verify_token_handler(&self, claims: &Claims) -> (r: Result<RegisterResponse, ApiError>)
        ensures
            uuid_of(claims.sub@) is None ==> r == Err::<RegisterResponse, ApiError>(
                ApiError::Validation,
            ),
            uuid_of(claims.sub@) is Some && !has_user_id(self@, uuid_of(claims.sub@).unwrap()) ==> r
                == Err::<RegisterResponse, ApiError>(ApiError::NotFound),
            uuid_of(claims.sub@) is Some && has_user_id(self@, uuid_of(claims.sub@).unwrap())
                ==> r is Ok,
            r is Ok ==> exists|i: int|
                0 <= i < self@.len() && {
                    let u = #[trigger] self@[i];
                    &&& uuid_of(claims.sub@) == Some(u.id)
                    &&& r.unwrap().id == u.id
                    &&& r.unwrap().name@ == u.name@
                    &&& r.unwrap().email@ == u.email@
                    &&& r.unwrap().role == u.role
                },
    {
        let id = match parse_uuid(claims.sub.as_str()) {
            Some(id) => id,
            None => {
                return Err(ApiError::Validation);
            },
        };
        let i = match self.find_by_id(id) {
            Some(i) => i,
            None => {
                return Err(ApiError::NotFound);
            },
        };
        Ok(self.rows[i].to_response())
    }
}

} // verus!
