use smart_memo::memo_api_store_ops::{Api, ApiKeyPayload, HelperStatusPayload};
use smart_memo::store::Store;
use smart_memo::user::{LoginPayload, SignupPayload, UserApi};
use smart_memo::{ApiError, Config};

fn config() -> Config {
    Config::new(b"01234567890123456789012345678901".to_vec(), b"point".to_vec()).unwrap()
}

fn signup_and_login(store: &mut Store, cfg: &Config) -> String {
    UserApi.signup(
        store,
        SignupPayload {
            username: "alice".to_string(),
            email: "alice@x.com".to_string(),
            password: "password1".to_string(),
        },
        1000,
    ).unwrap();
    UserApi.login(
        store,
        cfg,
        LoginPayload { email: "alice@x.com".to_string(), password: "password1".to_string() },
        1000,
    ).unwrap().token
}

#[test]
fn save_then_get_returns_the_plaintext_key() {
    let mut store = Store::new();
    let cfg = config();
    let token = signup_and_login(&mut store, &cfg);
    let saved = Api.save_api_keys(
        &mut store,
        &cfg,
        token.as_str(),
        1100,
        ApiKeyPayload { gemini_api_key: Some("g-123".to_string()), elevenlabs_api_key: None },
    ).unwrap();
    assert_eq!(saved.gemini_api_key.as_deref(), Some("g-123"));
    assert_eq!(saved.message, "API keys saved successfully");
    let got = Api.get_api_keys(&store, &cfg, token.as_str(), 1200).unwrap();
    assert_eq!(got.gemini_api_key.as_deref(), Some("g-123"));
    assert_eq!(got.elevenlabs_api_key, None);
}

#[test]
fn delete_gemini_key_leaves_both_absent() {
    let mut store = Store::new();
    let cfg = config();
    let token = signup_and_login(&mut store, &cfg);
    Api.save_api_keys(
        &mut store,
        &cfg,
        token.as_str(),
        1100,
        ApiKeyPayload { gemini_api_key: Some("g-123".to_string()), elevenlabs_api_key: None },
    ).unwrap();
    let deleted = Api.delete_gemini_key(&mut store, &cfg, token.as_str(), 1200).unwrap();
    assert_eq!(deleted.message, "Gemini API key deleted successfully");
    let got = Api.get_api_keys(&store, &cfg, token.as_str(), 1300).unwrap();
    assert_eq!(got.gemini_api_key, None);
    assert_eq!(got.elevenlabs_api_key, None);
}

#[test]
fn saving_one_key_leaves_the_other_stored() {
    let mut store = Store::new();
    let cfg = config();
    let token = signup_and_login(&mut store, &cfg);
    Api.save_api_keys(
        &mut store,
        &cfg,
        token.as_str(),
        1100,
        ApiKeyPayload {
            gemini_api_key: Some("g-1".to_string()),
            elevenlabs_api_key: Some("e-1".to_string()),
        },
    ).unwrap();
    Api.save_api_keys(
        &mut store,
        &cfg,
        token.as_str(),
        1200,
        ApiKeyPayload { gemini_api_key: Some("g-2".to_string()), elevenlabs_api_key: None },
    ).unwrap();
    let got = Api.get_api_keys(&store, &cfg, token.as_str(), 1300).unwrap();
    assert_eq!(got.gemini_api_key.as_deref(), Some("g-2"));
    assert_eq!(got.elevenlabs_api_key.as_deref(), Some("e-1"));
}

#[test]
fn get_keys_without_record_is_not_found() {
    let mut store = Store::new();
    let cfg = config();
    let token = signup_and_login(&mut store, &cfg);
    let r = Api.get_api_keys(&store, &cfg, token.as_str(), 1100);
    match r {
        Err(ApiError::NotFound(m)) => assert_eq!(m, "No API keys found for this user."),
        other => panic!("unexpected: {:?}", other.map(|_| ())),
    }
}

#[test]
fn delete_key_without_record_is_not_found() {
    let mut store = Store::new();
    let cfg = config();
    let token = signup_and_login(&mut store, &cfg);
    let r = Api.delete_elevenlabs_key(&mut store, &cfg, token.as_str(), 1100);
    match r {
        Err(ApiError::NotFound(m)) => assert_eq!(m, "API key record not found for user."),
        other => panic!("unexpected: {:?}", other.map(|_| ())),
    }
}

#[test]
fn helper_status_defaults_to_false() {
    let mut store = Store::new();
    let cfg = config();
    let token = signup_and_login(&mut store, &cfg);
    let r = Api.get_helper_status(&store, &cfg, token.as_str(), 1100).unwrap();
    assert!(!r.status);
    assert_eq!(r.message, "No helper record found; returning default status.");
}

#[test]
fn helper_status_roundtrips_through_update() {
    let mut store = Store::new();
    let cfg = config();
    let token = signup_and_login(&mut store, &cfg);
    let set = Api.update_helper_status(
        &mut store,
        &cfg,
        token.as_str(),
        1100,
        HelperStatusPayload { status: true },
    ).unwrap();
    assert!(set.status);
    let got = Api.get_helper_status(&store, &cfg, token.as_str(), 1200).unwrap();
    assert!(got.status);
    assert_eq!(got.message, "Helper status retrieved successfully");
}

#[test]
fn helper_status_update_keeps_stored_keys() {
    let mut store = Store::new();
    let cfg = config();
    let token = signup_and_login(&mut store, &cfg);
    Api.save_api_keys(
        &mut store,
        &cfg,
        token.as_str(),
        1100,
        ApiKeyPayload { gemini_api_key: Some("g-9".to_string()), elevenlabs_api_key: None },
    ).unwrap();
    Api.update_helper_status(
        &mut store,
        &cfg,
        token.as_str(),
        1200,
        HelperStatusPayload { status: true },
    ).unwrap();
    let got = Api.get_api_keys(&store, &cfg, token.as_str(), 1300).unwrap();
    assert_eq!(got.gemini_api_key.as_deref(), Some("g-9"));
}

#[test]
fn key_operations_reject_bad_tokens() {
    let mut store = Store::new();
    let cfg = config();
    signup_and_login(&mut store, &cfg);
    let r = Api.save_api_keys(
        &mut store,
        &cfg,
        "bogus",
        1100,
        ApiKeyPayload { gemini_api_key: Some("g".to_string()), elevenlabs_api_key: None },
    );
    match r {
        Err(ApiError::Unauthorized(m)) => assert_eq!(m, "Invalid or expired token"),
        other => panic!("unexpected: {:?}", other.map(|_| ())),
    }
}
