//! User signup and login: input validation, password hashing, duplicate-email
//! detection, and issuing the identity token.

use vstd::prelude::*;
use crate::ids::{uuid_format, uuid_str_of};
use crate::store::{Store, UserRecord, UserV};
use crate::token::{issue_token, jwt_token_of};
use crate::{ApiError, Config, TOKEN_TTL_SECONDS};
use validator::ValidateEmail;

verus! {

pub struct SignupPayload {
    pub username: String,
    pub email: String,
    pub password: String,
}

pub struct SignupResponse {
    pub message: String,
    pub user_id: String,
}

pub struct LoginPayload {
    pub email: String,
    pub password: String,
}

pub struct LoginResponse {
    pub message: String,
    pub token: String,
}

/// Whether the password matches the (salted) bcrypt hash; a function of the
/// two strings alone.
pub uninterp spec fn bcrypt_matches(password: Seq<char>, hash: Seq<char>) -> bool;

/// Relies on `bcrypt::hash` with the default cost: any hash it produces
/// verifies against the hashed password (the salt travels inside the hash).
#[verifier::external_body]
fn bcrypt_hash(password: &str) -> (r: Option<String>)
    ensures
        r matches Some(h) ==> bcrypt_matches(password@, h@),
{
    bcrypt::hash(password, bcrypt::DEFAULT_COST).ok()
}

/// Relies on `bcrypt::verify`: whether the password matches the hash, named
/// `bcrypt_matches`; a malformed hash matches nothing.
#[verifier::external_body]
fn bcrypt_check(password: &str, hash: &str) -> (r: bool)
    ensures
        r == bcrypt_matches(password@, hash@),
{
    bcrypt::verify(password, hash).unwrap_or(false)
}

/// HTML5-style email validity, a function of the string alone.
pub uninterp spec fn email_ok(s: Seq<char>) -> bool;

/// Relies on `validator::ValidateEmail` for strings, named `email_ok`.
#[verifier::external_body]
fn email_valid(s: &str) -> (r: bool)
    ensures
        r == email_ok(s@),
{
    s.validate_email()
}

/// The signup validation rules: username of 3 or more characters, valid email,
/// password of 8 or more characters.
pub open spec fn signup_valid(username: Seq<char>, email: Seq<char>, password: Seq<char>) -> bool {
    username.len() >= 3 && email_ok(email) && password.len() >= 8
}

/// Whether some user row carries this email.
pub open spec fn has_email(users: Seq<UserV>, email: Seq<char>) -> bool {
    exists|i: int| 0 <= i < users.len() && (#[trigger] users[i]).email == email
}

pub struct UserApi;

impl UserApi {
    /// Signup: validates the payload, rejects duplicate emails, hashes the
    /// password, and inserts a fresh user row.
    pub fn signup(&self, store: &mut Store, payload: SignupPayload, now: u64) -> (r: Result<
        SignupResponse,
        ApiError,
    >)
        requires
            old(store).wf(),
        ensures
            final(store).wf(),
            r is Err ==> final(store)@ == old(store)@,
            payload.username@.len() < 3 ==> (r matches Err(ApiError::BadRequest(m)) && m@
                == "Username must be at least 3 characters long"@),
            (payload.username@.len() >= 3 && !email_ok(payload.email@)) ==> (r matches Err(
                ApiError::BadRequest(m),
            ) && m@ == "Please provide a valid email address"@),
            (payload.username@.len() >= 3 && email_ok(payload.email@) && payload.password@.len()
                < 8) ==> (r matches Err(ApiError::BadRequest(m)) && m@
                == "Password must be at least 8 characters long"@),
            (signup_valid(payload.username@, payload.email@, payload.password@) && has_email(
                old(store)@.users,
                payload.email@,
            )) ==> (r matches Err(ApiError::Conflict(m)) && m@
                == "User with this email already exists"@),
            (signup_valid(payload.username@, payload.email@, payload.password@) && !has_email(
                old(store)@.users,
                payload.email@,
            )) ==> (r is Ok || (r matches Err(e) && e is Internal)),
            r matches Ok(resp) ==> ({
                let u = final(store)@.users.last();
                &&& signup_valid(payload.username@, payload.email@, payload.password@)
                &&& !has_email(old(store)@.users, payload.email@)
                &&& final(store)@.users == old(store)@.users.push(u)
                &&& u.id == old(store)@.next_id
                &&& u.username == payload.username@
                &&& u.email == payload.email@
                &&& u.created_at == now
                &&& bcrypt_matches(payload.password@, u.password_hash)
                &&& final(store)@.memos == old(store)@.memos
                &&& final(store)@.helper == old(store)@.helper
                &&& resp.user_id@ == uuid_str_of(u.id)
                &&& resp.message@ == "User created successfully"@
            }),
    {
        if payload.username.as_str().unicode_len() < 3 {
            return Err(
                ApiError::BadRequest("Username must be at least 3 characters long".to_owned()),
            );
        }
        if !email_valid(payload.email.as_str()) {
            return Err(ApiError::BadRequest("Please provide a valid email address".to_owned()));
        }
        if payload.password.as_str().unicode_len() < 8 {
            return Err(
                ApiError::BadRequest("Password must be at least 8 characters long".to_owned()),
            );
        }
        if store.find_user_by_email(&payload.email).is_some() {
            return Err(ApiError::Conflict("User with this email already exists".to_owned()));
        }
        let hashed = match bcrypt_hash(payload.password.as_str()) {
            Some(h) => h,
            None => {
                return Err(ApiError::Internal("Failed to hash password".to_owned()));
            },
        };
        let id = match store.fresh_id() {
            Some(id) => id,
            None => {
                return Err(ApiError::Internal("Failed to create user".to_owned()));
            },
        };
        let user = UserRecord {
            id,
            username: payload.username,
            email: payload.email,
            password_hash: hashed,
            created_at: now,
        };
        let ghost mid_users = store@.users;
        store.users.push(user);
        proof {
            assert(store@.users =~= mid_users.push(store@.users.last()));
            assert(store@.memos == old(store)@.memos);
            assert(store@.helper == old(store)@.helper);
        }
        Ok(
            SignupResponse {
                message: "User created successfully".to_owned(),
                user_id: uuid_format(id),
            },
        )
    }

    /// Login: resolves the user by email, checks the password hash, and issues
    /// a 24-hour identity token.
    pub fn login(&self, store: &Store, cfg: &Config, payload: LoginPayload, now: u64) -> (r: Result<
        LoginResponse,
        ApiError,
    >)
        requires
            store.wf(),
            now <= u64::MAX - TOKEN_TTL_SECONDS,
        ensures
            !has_email(store@.users, payload.email@) ==> (r matches Err(ApiError::Unauthorized(m))
                && m@ == "Invalid email or password"@),
            forall|i: int|
                (0 <= i < store@.users.len() && (#[trigger] store@.users[i]).email
                    == payload.email@ && !bcrypt_matches(
                    payload.password@,
                    store@.users[i].password_hash,
                )) ==> (r matches Err(ApiError::Unauthorized(m)) && m@
                    == "Invalid email or password"@),
            forall|i: int|
                (0 <= i < store@.users.len() && (#[trigger] store@.users[i]).email
                    == payload.email@ && bcrypt_matches(
                    payload.password@,
                    store@.users[i].password_hash,
                )) ==> r is Ok,
            r matches Ok(resp) ==> (exists|i: int|
                0 <= i < store@.users.len() && ({
                    let u = #[trigger] store@.users[i];
                    &&& u.email == payload.email@
                    &&& bcrypt_matches(payload.password@, u.password_hash)
                    &&& resp.token@ == jwt_token_of(
                        cfg.jwt_secret@,
                        uuid_str_of(u.id),
                        u.username,
                        u.email,
                        (now + TOKEN_TTL_SECONDS) as u64,
                    )
                    &&& resp.message@ == "Login Successful"@
                })),
    {
        let idx = match store.find_user_by_email(&payload.email) {
            Some(i) => i,
            None => {
                return Err(ApiError::Unauthorized("Invalid email or password".to_owned()));
            },
        };
        let u = &store.users[idx];
        if !bcrypt_check(payload.password.as_str(), u.password_hash.as_str()) {
            return Err(ApiError::Unauthorized("Invalid email or password".to_owned()));
        }
        let sub = uuid_format(u.id);
        let token = issue_token(
            cfg.jwt_secret.as_slice(),
            sub.as_str(),
            u.username.as_str(),
            u.email.as_str(),
            now,
        );
        Ok(LoginResponse { message: "Login Successful".to_owned(), token })
    }
}

} // verus!
