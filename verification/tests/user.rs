use smart_memo::store::Store;
use smart_memo::token::validate_token;
use smart_memo::user::{LoginPayload, SignupPayload, UserApi};
use smart_memo::{ApiError, Config};

fn config() -> Config {
    Config::new(b"01234567890123456789012345678901".to_vec(), b"point".to_vec()).unwrap()
}

fn payload(username: &str, email: &str, password: &str) -> SignupPayload {
    SignupPayload {
        username: username.to_string(),
        email: email.to_string(),
        password: password.to_string(),
    }
}

#[test]
fn signup_rejects_short_username() {
    let mut store = Store::new();
    let r = UserApi.signup(&mut store, payload("ab", "a@x.com", "password1"), 100);
    match r {
        Err(ApiError::BadRequest(m)) => {
            assert_eq!(m, "Username must be at least 3 characters long")
        },
        other => panic!("unexpected: {:?}", other.map(|_| ())),
    }
}

#[test]
fn signup_rejects_invalid_email() {
    let mut store = Store::new();
    let r = UserApi.signup(&mut store, payload("alice", "not-an-email", "password1"), 100);
    match r {
        Err(ApiError::BadRequest(m)) => assert_eq!(m, "Please provide a valid email address"),
        other => panic!("unexpected: {:?}", other.map(|_| ())),
    }
}

#[test]
fn signup_rejects_short_password() {
    let mut store = Store::new();
    let r = UserApi.signup(&mut store, payload("alice", "a@x.com", "short"), 100);
    match r {
        Err(ApiError::BadRequest(m)) => {
            assert_eq!(m, "Password must be at least 8 characters long")
        },
        other => panic!("unexpected: {:?}", other.map(|_| ())),
    }
}

#[test]
fn signup_rejects_duplicate_email() {
    let mut store = Store::new();
    UserApi.signup(&mut store, payload("alice", "a@x.com", "password1"), 100).unwrap();
    let r = UserApi.signup(&mut store, payload("malice", "a@x.com", "password2"), 200);
    match r {
        Err(ApiError::Conflict(m)) => assert_eq!(m, "User with this email already exists"),
        other => panic!("unexpected: {:?}", other.map(|_| ())),
    }
}

#[test]
fn login_unknown_email_is_unauthorized() {
    let store = Store::new();
    let cfg = config();
    let r = UserApi.login(
        &store,
        &cfg,
        LoginPayload { email: "a@x.com".to_string(), password: "password1".to_string() },
        100,
    );
    match r {
        Err(ApiError::Unauthorized(m)) => assert_eq!(m, "Invalid email or password"),
        other => panic!("unexpected: {:?}", other.map(|_| ())),
    }
}

#[test]
fn login_wrong_password_is_unauthorized() {
    let mut store = Store::new();
    let cfg = config();
    UserApi.signup(&mut store, payload("alice", "a@x.com", "password1"), 100).unwrap();
    let r = UserApi.login(
        &store,
        &cfg,
        LoginPayload { email: "a@x.com".to_string(), password: "password2".to_string() },
        100,
    );
    assert!(matches!(r, Err(ApiError::Unauthorized(_))));
}

#[test]
fn login_yields_verifiable_token_for_the_user() {
    let mut store = Store::new();
    let cfg = config();
    let signed = UserApi.signup(&mut store, payload("alice", "alice@x.com", "password1"), 100)
        .unwrap();
    assert_eq!(signed.message, "User created successfully");
    let login = UserApi.login(
        &store,
        &cfg,
        LoginPayload { email: "alice@x.com".to_string(), password: "password1".to_string() },
        100,
    ).unwrap();
    assert_eq!(login.message, "Login Successful");
    let claims = validate_token(b"point", login.token.as_str(), 200).unwrap();
    assert_eq!(claims.sub, signed.user_id);
    assert_eq!(claims.username, "alice");
    assert_eq!(claims.email, "alice@x.com");
}
