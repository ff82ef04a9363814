//! Token codec: issues and verifies the signed, time-limited identity token
//! (HS256 JWT) carrying user id, username and email.

use vstd::prelude::*;

verus! {

/// The identity claims carried by a bearer token.
#[derive(Debug)]
pub struct Claims {
    /// The user id, in its string form.
    pub sub: String,
    pub username: String,
    pub email: String,
    /// Absolute expiry instant, seconds since the Unix epoch.
    pub exp: u64,
}

/// The HS256 JWT that signing the claims `(sub, username, email, exp)` with
/// `secret` produces; a function of secret and claims alone.
pub uninterp spec fn jwt_token_of(
    secret: Seq<u8>,
    sub: Seq<char>,
    username: Seq<char>,
    email: Seq<char>,
    exp: u64,
) -> Seq<char>;

/// What decoding a token under `secret` yields, expiry not yet examined: the
/// claims `(sub, username, email, exp)`, or nothing when the token is
/// malformed, unsigned claims are missing, or the signature does not match.
pub uninterp spec fn jwt_parse(secret: Seq<u8>, token: Seq<char>) -> Option<
    (Seq<char>, Seq<char>, Seq<char>, u64),
>;

/// Relies on `jsonwebtoken::encode` with the default (HS256) header: the token
/// is a function of the secret and the claims alone, named `jwt_token_of`, and
/// the call cannot fail — HS256 with a raw secret accepts any key length, and
/// serializing string and integer claims is infallible.
#[verifier::external_body]
fn jwt_sign(secret: &[u8], sub: &str, username: &str, email: &str, exp: u64) -> (r: String)
    ensures
        r@ == jwt_token_of(secret@, sub@, username@, email@, exp),
{
    let mut claims = serde_json::Map::new();
    claims.insert("sub".to_string(), serde_json::Value::String(sub.to_string()));
    claims.insert("username".to_string(), serde_json::Value::String(username.to_string()));
    claims.insert("email".to_string(), serde_json::Value::String(email.to_string()));
    claims.insert("exp".to_string(), serde_json::Value::from(exp));
    jsonwebtoken::encode(
        &jsonwebtoken::Header::default(),
        &serde_json::Value::Object(claims),
        &jsonwebtoken::EncodingKey::from_secret(secret),
    ).expect("HS256 signing of plain string and integer claims cannot fail")
}

/// Relies on `jsonwebtoken::decode` (HS256, expiry check deferred to the
/// caller): deterministic in secret and token (named `jwt_parse`), succeeding
/// on exactly the tokens whose signature matches, and the inverse of `encode`.
#[verifier::external_body]
fn jwt_decode(secret: &[u8], token: &str) -> (r: Option<Claims>)
    ensures
        (r is Some) == (jwt_parse(secret@, token@) is Some),
        r matches Some(c) ==> jwt_parse(secret@, token@) == Some(
            (c.sub@, c.username@, c.email@, c.exp),
        ),
        r is None ==> (forall|sub: Seq<char>, username: Seq<char>, email: Seq<char>, exp: u64|
            token@ != jwt_token_of(secret@, sub, username, email, exp)),
        r matches Some(c) ==> (forall|
            sub: Seq<char>,
            username: Seq<char>,
            email: Seq<char>,
            exp: u64,
        |
            token@ == jwt_token_of(secret@, sub, username, email, exp) ==> (c.sub@ == sub
                && c.username@ == username && c.email@ == email && c.exp == exp)),
{
    let mut validation = jsonwebtoken::Validation::new(jsonwebtoken::Algorithm::HS256);
    validation.validate_exp = false;
    let key = jsonwebtoken::DecodingKey::from_secret(secret);
    let data = match jsonwebtoken::decode::<serde_json::Value>(token, &key, &validation) {
        Ok(d) => d,
        Err(_) => return None,
    };
    let c = data.claims;
    Some(Claims {
        sub: c.get("sub")?.as_str()?.to_string(),
        username: c.get("username")?.as_str()?.to_string(),
        email: c.get("email")?.as_str()?.to_string(),
        exp: c.get("exp")?.as_u64()?,
    })
}

/// What verifying `token` under `secret` at instant `now` yields: the claims
/// when the signature matches and the token is not yet expired, nothing
/// otherwise (deliberately undifferentiated).
pub open spec fn token_claims_spec(secret: Seq<u8>, token: Seq<char>, now: u64) -> Option<
    (Seq<char>, Seq<char>, Seq<char>, u64),
> {
    match jwt_parse(secret, token) {
        Option::Some(c) => if c.3 > now {
            Option::Some(c)
        } else {
            Option::None
        },
        Option::None => Option::None,
    }
}

/// Verifies signature and expiry of a bearer token. Any failure — bad
/// signature, malformed token, or expiry — yields the same undifferentiated
/// error message.
pub fn validate_token(secret: &[u8], token: &str, now: u64) -> (r: Result<Claims, String>)
    ensures
        (r is Ok) == (token_claims_spec(secret@, token@, now) is Some),
        r matches Ok(c) ==> token_claims_spec(secret@, token@, now) == Some(
            (c.sub@, c.username@, c.email@, c.exp),
        ),
        r matches Err(m) ==> m@ == "Invalid or expired token"@,
        forall|sub: Seq<char>, username: Seq<char>, email: Seq<char>, exp: u64|
            (token@ == jwt_token_of(secret@, sub, username, email, exp) && exp > now) ==> (
            r matches Ok(c) && c.sub@ == sub && c.username@ == username && c.email@ == email
                && c.exp == exp),
        forall|sub: Seq<char>, username: Seq<char>, email: Seq<char>, exp: u64|
            (token@ == jwt_token_of(secret@, sub, username, email, exp) && exp <= now)
                ==> r is Err,
{
    match jwt_decode(secret, token) {
        Some(c) => {
            if c.exp > now {
                Ok(c)
            } else {
                Err("Invalid or expired token".to_owned())
            }
        },
        None => Err("Invalid or expired token".to_owned()),
    }
}

/// The user id a bearer token resolves to at instant `now`: the claims must
/// verify and their subject must parse as an id.
pub open spec fn token_user(secret: Seq<u8>, token: Seq<char>, now: u64) -> Option<u128> {
    match token_claims_spec(secret, token, now) {
        Option::Some(c) => crate::ids::uuid_parse_of(c.0),
        Option::None => Option::None,
    }
}

/// Why a bearer token failed to resolve to a user id.
#[derive(Debug, Clone, Copy, PartialEq, Eq, Structural)]
pub enum AuthFailure {
    /// Bad signature, malformed token, or expiry.
    InvalidToken,
    /// Verified claims whose subject is not a well-formed id.
    InvalidSubject,
}

/// Verifies the token and parses its subject into a user id.
pub fn resolve_user_id(cfg: &crate::Config, token: &str, now: u64) -> (r: Result<u128, AuthFailure>)
    ensures
        (r is Ok) == (token_user(cfg.jwt_secret@, token@, now) is Some),
        r matches Ok(uid) ==> token_user(cfg.jwt_secret@, token@, now) == Some(uid),
        (r matches Err(AuthFailure::InvalidToken)) == (token_claims_spec(
            cfg.jwt_secret@,
            token@,
            now,
        ) is None),
{
    match validate_token(cfg.jwt_secret.as_slice(), token, now) {
        Ok(c) => match crate::ids::uuid_parse(c.sub.as_str()) {
            Some(uid) => Ok(uid),
            None => Err(AuthFailure::InvalidSubject),
        },
        Err(_) => Err(AuthFailure::InvalidToken),
    }
}

/// Issues a signed identity token for the given claims, valid for 24 hours
/// from `now`.
pub fn issue_token(secret: &[u8], sub: &str, username: &str, email: &str, now: u64) -> (r: String)
    requires
        now <= u64::MAX - crate::TOKEN_TTL_SECONDS,
    ensures
        r@ == jwt_token_of(secret@, sub@, username@, email@, (now + crate::TOKEN_TTL_SECONDS) as u64),
{
    let exp: u64 = now + crate::TOKEN_TTL_SECONDS;
    jwt_sign(secret, sub, username, email, exp)
}

} // verus!
