use smart_memo::gemini::{
    gemini_extract, json_escape, summarize_request_body, title_request_body,
    transcribe_request_body, translate_request_body, trim_str, GeminiApi, SummaryRequest,
};
use smart_memo::memo_api_store_ops::{Api, ApiKeyPayload};
use smart_memo::store::Store;
use smart_memo::user::{LoginPayload, SignupPayload, UserApi};
use smart_memo::Config;

fn config() -> Config {
    Config::new(b"01234567890123456789012345678901".to_vec(), b"point".to_vec()).unwrap()
}

fn signup_and_login(store: &mut Store, cfg: &Config) -> String {
    UserApi.signup(
        store,
        SignupPayload {
            username: "alice".to_string(),
            email: "alice@x.com".to_string(),
            password: "password1".to_string(),
        },
        1000,
    ).unwrap();
    UserApi.login(
        store,
        cfg,
        LoginPayload { email: "alice@x.com".to_string(), password: "password1".to_string() },
        1000,
    ).unwrap().token
}

#[test]
fn json_escape_handles_quotes_backslashes_and_controls() {
    assert_eq!(json_escape("plain"), "plain");
    assert_eq!(json_escape("a\"b"), "a\\\"b");
    assert_eq!(json_escape("a\\b"), "a\\\\b");
    assert_eq!(json_escape("a\nb\tc"), "a\\u000ab\\u0009c");
}

#[test]
fn trim_strips_both_ends() {
    assert_eq!(trim_str("  hello world\n"), "hello world");
    assert_eq!(trim_str(""), "");
    assert_eq!(trim_str("   "), "");
    assert_eq!(trim_str("inner  space"), "inner  space");
}

#[test]
fn transcribe_body_has_instruction_and_inline_audio() {
    let body = transcribe_request_body(&vec![0u8, 1, 2]);
    assert_eq!(
        body,
        "{\"contents\":[{\"parts\":[{\"text\":\"Please transcribe this audio.\"},\
         {\"inline_data\":{\"mime_type\":\"audio/wav\",\"data\":\"AAEC\"}}]}]}"
    );
}

#[test]
fn translate_body_embeds_language_and_text() {
    let body = translate_request_body("hi", "French");
    assert_eq!(
        body,
        "{\"contents\":[{\"parts\":[{\"text\":\"Translate the following text to French. \
         Return only the translated text without any extra formatting or explanation:\
         \\u000a\\u000ahi\"}]}]}"
    );
}

#[test]
fn summary_and_title_bodies_embed_their_prompts() {
    let body = summarize_request_body("abc");
    assert_eq!(
        body,
        "{\"contents\":[{\"parts\":[{\"text\":\"Provide a concise summary of the following \
         text. Keep it brief and capture the main points:\\u000a\\u000aabc\"}]}]}"
    );
    let body = title_request_body("xyz");
    assert_eq!(
        body,
        "{\"contents\":[{\"parts\":[{\"text\":\"Generate a short, descriptive title (2-4 words) \
         for this voice memo based on its content. Return only the title:\\u000a\\u000axyz\"}]}]}"
    );
}

#[test]
fn extract_returns_trimmed_candidate_text() {
    let reply = "{\"candidates\":[{\"content\":{\"parts\":[{\"text\":\"  hello world\\n\"}]}}]}";
    assert_eq!(gemini_extract(true, reply).unwrap(), "hello world");
}

#[test]
fn extract_surfaces_failure_body_verbatim() {
    let r = gemini_extract(false, "quota exceeded");
    assert_eq!(r.unwrap_err(), "Gemini API request failed: quota exceeded");
}

#[test]
fn extract_reports_unexpected_shape_with_the_body() {
    let r = gemini_extract(true, "{\"candidates\":[]}");
    assert_eq!(
        r.unwrap_err(),
        "Failed to parse Gemini API response. Full response: {\"candidates\":[]}"
    );
}

#[test]
fn prepared_generation_carries_the_decrypted_key() {
    let mut store = Store::new();
    let cfg = config();
    let token = signup_and_login(&mut store, &cfg);
    Api.save_api_keys(
        &mut store,
        &cfg,
        token.as_str(),
        1100,
        ApiKeyPayload { gemini_api_key: Some("g-123".to_string()), elevenlabs_api_key: None },
    ).unwrap();
    let prepared = GeminiApi.gemini_client(
        &store,
        &cfg,
        token.as_str(),
        1200,
        &SummaryRequest { text: "abc".to_string() },
    ).unwrap();
    assert_eq!(prepared.api_key, "g-123");
    assert_eq!(prepared.body, summarize_request_body("abc"));
}

#[test]
fn generation_without_stored_key_reports_it() {
    let mut store = Store::new();
    let cfg = config();
    let token = signup_and_login(&mut store, &cfg);
    let r = GeminiApi.gemini_client(
        &store,
        &cfg,
        token.as_str(),
        1100,
        &SummaryRequest { text: "abc".to_string() },
    );
    assert_eq!(r.unwrap_err(), "Gemini API key not found for this user");
}
