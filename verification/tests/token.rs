use smart_memo::token::{issue_token, validate_token};

const SECRET: &[u8] = b"point";

#[test]
fn issued_token_resolves_to_its_user() {
    let token = issue_token(SECRET, "42", "alice", "alice@x.com", 1000);
    let claims = validate_token(SECRET, token.as_str(), 2000).unwrap();
    assert_eq!(claims.sub, "42");
    assert_eq!(claims.username, "alice");
    assert_eq!(claims.email, "alice@x.com");
    assert_eq!(claims.exp, 1000 + 86400);
}

#[test]
fn expired_token_fails_verification() {
    let token = issue_token(SECRET, "42", "alice", "alice@x.com", 1000);
    let r = validate_token(SECRET, token.as_str(), 1000 + 86400);
    assert!(r.is_err());
    assert_eq!(r.unwrap_err(), "Invalid or expired token");
}

#[test]
fn token_signed_with_other_secret_fails() {
    let token = issue_token(b"not-the-secret", "42", "alice", "alice@x.com", 1000);
    assert!(validate_token(SECRET, token.as_str(), 2000).is_err());
}

#[test]
fn malformed_token_fails() {
    assert!(validate_token(SECRET, "definitely.not.ajwt", 0).is_err());
    assert!(validate_token(SECRET, "", 0).is_err());
}

#[test]
fn token_valid_until_just_before_expiry() {
    let token = issue_token(SECRET, "7", "bob", "bob@x.com", 500);
    assert!(validate_token(SECRET, token.as_str(), 500 + 86400 - 1).is_ok());
    assert!(validate_token(SECRET, token.as_str(), 500 + 86400).is_err());
}
