use smart_memo::memo::{MemoApi, MemoInput, MemoUpdate};
use smart_memo::store::Store;
use smart_memo::user::{LoginPayload, SignupPayload, UserApi};
use smart_memo::{ApiError, Config};

fn config() -> Config {
    Config::new(b"01234567890123456789012345678901".to_vec(), b"point".to_vec()).unwrap()
}

fn signup_and_login(store: &mut Store, cfg: &Config, name: &str, email: &str) -> String {
    UserApi.signup(
        store,
        SignupPayload {
            username: name.to_string(),
            email: email.to_string(),
            password: "password1".to_string(),
        },
        1000,
    ).unwrap();
    UserApi.login(
        store,
        cfg,
        LoginPayload { email: email.to_string(), password: "password1".to_string() },
        1000,
    ).unwrap().token
}

fn input(title: &str, duration: &str) -> MemoInput {
    MemoInput {
        id: None,
        title: title.to_string(),
        transcript: None,
        translate: None,
        summary: None,
        tags: None,
        duration: duration.to_string(),
        audio_blob: None,
    }
}

#[test]
fn save_without_id_creates_fresh_rows() {
    let mut store = Store::new();
    let cfg = config();
    let token = signup_and_login(&mut store, &cfg, "alice", "a@x.com");
    let r1 = MemoApi.save_memo(&mut store, &cfg, token.as_str(), 1000, input("One", "00:01"))
        .unwrap();
    let r2 = MemoApi.save_memo(&mut store, &cfg, token.as_str(), 1001, input("Two", "00:02"))
        .unwrap();
    assert_eq!(r1.message, "Memo saved");
    assert_eq!(r2.message, "Memo saved");
    assert_ne!(r1.memo_id, r2.memo_id);
    let all = MemoApi.get_memos(&store, &cfg, token.as_str(), 1002).unwrap();
    assert_eq!(all.len(), 2);
    assert_ne!(all[0].id, all[1].id);
}

#[test]
fn save_with_foreign_id_is_rejected_and_mutates_nothing() {
    let mut store = Store::new();
    let cfg = config();
    let alice = signup_and_login(&mut store, &cfg, "alice", "a@x.com");
    let bob = signup_and_login(&mut store, &cfg, "bobby", "b@x.com");
    let saved = MemoApi.save_memo(&mut store, &cfg, alice.as_str(), 1000, input("Mine", "00:01"))
        .unwrap();
    let mut steal = input("Stolen", "99:99");
    steal.id = Some(saved.memo_id.clone());
    let r = MemoApi.save_memo(&mut store, &cfg, bob.as_str(), 1001, steal);
    match r {
        Err(ApiError::Unauthorized(m)) => assert_eq!(m, "Unauthorized"),
        other => panic!("unexpected: {:?}", other.map(|_| ())),
    }
    let memo = MemoApi.get_memo_by_id(&store, &cfg, alice.as_str(), 1002, saved.memo_id.as_str())
        .unwrap();
    assert_eq!(memo.title, "Mine");
    assert_eq!(memo.duration, "00:01");
}

#[test]
fn save_with_own_id_overwrites_in_place() {
    let mut store = Store::new();
    let cfg = config();
    let token = signup_and_login(&mut store, &cfg, "alice", "a@x.com");
    let saved = MemoApi.save_memo(&mut store, &cfg, token.as_str(), 1000, input("Old", "00:01"))
        .unwrap();
    let mut updated = input("New", "00:02");
    updated.id = Some(saved.memo_id.clone());
    updated.transcript = Some("words".to_string());
    let r = MemoApi.save_memo(&mut store, &cfg, token.as_str(), 1001, updated).unwrap();
    assert_eq!(r.message, "Memo updated");
    assert_eq!(r.memo_id, saved.memo_id);
    let all = MemoApi.get_memos(&store, &cfg, token.as_str(), 1002).unwrap();
    assert_eq!(all.len(), 1);
    assert_eq!(all[0].title, "New");
    assert_eq!(all[0].transcript.as_deref(), Some("words"));
}

#[test]
fn save_requires_title_and_duration() {
    let mut store = Store::new();
    let cfg = config();
    let token = signup_and_login(&mut store, &cfg, "alice", "a@x.com");
    let r = MemoApi.save_memo(&mut store, &cfg, token.as_str(), 1000, input("   ", "00:01"));
    match r {
        Err(ApiError::BadRequest(m)) => assert_eq!(m, "Title and duration are required"),
        other => panic!("unexpected: {:?}", other.map(|_| ())),
    }
}

#[test]
fn save_with_bad_token_is_unauthorized() {
    let mut store = Store::new();
    let cfg = config();
    signup_and_login(&mut store, &cfg, "alice", "a@x.com");
    let r = MemoApi.save_memo(&mut store, &cfg, "garbage", 1000, input("T", "00:01"));
    match r {
        Err(ApiError::Unauthorized(m)) => assert_eq!(m, "Invalid or expired token"),
        other => panic!("unexpected: {:?}", other.map(|_| ())),
    }
}

#[test]
fn delete_twice_reports_not_found_second_time() {
    let mut store = Store::new();
    let cfg = config();
    let token = signup_and_login(&mut store, &cfg, "alice", "a@x.com");
    let saved = MemoApi.save_memo(&mut store, &cfg, token.as_str(), 1000, input("Gone", "00:01"))
        .unwrap();
    let first = MemoApi.delete_memo(&mut store, &cfg, token.as_str(), 1001, saved.memo_id.as_str())
        .unwrap();
    assert_eq!(first.message, "Memo deleted");
    assert_eq!(first.memo_id, saved.memo_id);
    let second = MemoApi.delete_memo(&mut store, &cfg, token.as_str(), 1002, saved.memo_id.as_str());
    match second {
        Err(ApiError::NotFound(m)) => assert_eq!(m, "Memo not found or access denied"),
        other => panic!("unexpected: {:?}", other.map(|_| ())),
    }
}

#[test]
fn delete_all_with_zero_memos_reports_zero() {
    let mut store = Store::new();
    let cfg = config();
    let token = signup_and_login(&mut store, &cfg, "alice", "a@x.com");
    let r = MemoApi.delete_all_memos(&mut store, &cfg, token.as_str(), 1000).unwrap();
    assert_eq!(r.message, "Deleted 0 memo(s)");
}

#[test]
fn delete_all_removes_only_the_requesters_memos() {
    let mut store = Store::new();
    let cfg = config();
    let alice = signup_and_login(&mut store, &cfg, "alice", "a@x.com");
    let bob = signup_and_login(&mut store, &cfg, "bobby", "b@x.com");
    MemoApi.save_memo(&mut store, &cfg, alice.as_str(), 1000, input("A1", "00:01")).unwrap();
    MemoApi.save_memo(&mut store, &cfg, alice.as_str(), 1001, input("A2", "00:02")).unwrap();
    MemoApi.save_memo(&mut store, &cfg, bob.as_str(), 1002, input("B1", "00:03")).unwrap();
    let r = MemoApi.delete_all_memos(&mut store, &cfg, alice.as_str(), 1003).unwrap();
    assert_eq!(r.message, "Deleted 2 memo(s)");
    assert_eq!(MemoApi.get_memos(&store, &cfg, alice.as_str(), 1004).unwrap().len(), 0);
    assert_eq!(MemoApi.get_memos(&store, &cfg, bob.as_str(), 1005).unwrap().len(), 1);
}

#[test]
fn partial_update_keeps_untouched_fields() {
    let mut store = Store::new();
    let cfg = config();
    let token = signup_and_login(&mut store, &cfg, "alice", "a@x.com");
    let mut full = input("Title", "00:05");
    full.transcript = Some("the transcript".to_string());
    full.tags = Some(vec!["one".to_string(), "two".to_string()]);
    let saved = MemoApi.save_memo(&mut store, &cfg, token.as_str(), 1000, full).unwrap();
    let update = MemoUpdate {
        title: None,
        transcript: None,
        translate: None,
        summary: Some("just a summary".to_string()),
        tags: None,
    };
    MemoApi.update_memo(&mut store, &cfg, token.as_str(), 1001, saved.memo_id.as_str(), update)
        .unwrap();
    let memo = MemoApi.get_memo_by_id(&store, &cfg, token.as_str(), 1002, saved.memo_id.as_str())
        .unwrap();
    assert_eq!(memo.title, "Title");
    assert_eq!(memo.transcript.as_deref(), Some("the transcript"));
    assert_eq!(memo.tags, Some(vec!["one".to_string(), "two".to_string()]));
    assert_eq!(memo.summary.as_deref(), Some("just a summary"));
}

#[test]
fn update_with_empty_tag_list_stores_empty_not_absent() {
    let mut store = Store::new();
    let cfg = config();
    let token = signup_and_login(&mut store, &cfg, "alice", "a@x.com");
    let mut full = input("Title", "00:05");
    full.tags = Some(vec!["one".to_string()]);
    let saved = MemoApi.save_memo(&mut store, &cfg, token.as_str(), 1000, full).unwrap();
    let update = MemoUpdate {
        title: None,
        transcript: None,
        translate: None,
        summary: None,
        tags: Some(vec![]),
    };
    MemoApi.update_memo(&mut store, &cfg, token.as_str(), 1001, saved.memo_id.as_str(), update)
        .unwrap();
    let memo = MemoApi.get_memo_by_id(&store, &cfg, token.as_str(), 1002, saved.memo_id.as_str())
        .unwrap();
    assert_eq!(memo.tags, Some(vec![]));
}

#[test]
fn update_ignores_blank_title_but_clears_blank_summary() {
    let mut store = Store::new();
    let cfg = config();
    let token = signup_and_login(&mut store, &cfg, "alice", "a@x.com");
    let mut full = input("Keep me", "00:05");
    full.summary = Some("old summary".to_string());
    let saved = MemoApi.save_memo(&mut store, &cfg, token.as_str(), 1000, full).unwrap();
    let update = MemoUpdate {
        title: Some("   ".to_string()),
        transcript: None,
        translate: None,
        summary: Some("   ".to_string()),
        tags: None,
    };
    MemoApi.update_memo(&mut store, &cfg, token.as_str(), 1001, saved.memo_id.as_str(), update)
        .unwrap();
    let memo = MemoApi.get_memo_by_id(&store, &cfg, token.as_str(), 1002, saved.memo_id.as_str())
        .unwrap();
    assert_eq!(memo.title, "Keep me");
    assert_eq!(memo.summary, None);
}

#[test]
fn foreign_memo_reads_as_not_found() {
    let mut store = Store::new();
    let cfg = config();
    let alice = signup_and_login(&mut store, &cfg, "alice", "a@x.com");
    let bob = signup_and_login(&mut store, &cfg, "bobby", "b@x.com");
    let saved = MemoApi.save_memo(&mut store, &cfg, alice.as_str(), 1000, input("Mine", "00:01"))
        .unwrap();
    let r = MemoApi.get_memo_by_id(&store, &cfg, bob.as_str(), 1001, saved.memo_id.as_str());
    match r {
        Err(ApiError::NotFound(m)) => assert_eq!(m, "Memo not found or access denied"),
        other => panic!("unexpected: {:?}", other.map(|_| ())),
    }
}

#[test]
fn list_with_bad_token_is_unauthorized() {
    let mut store = Store::new();
    let cfg = config();
    signup_and_login(&mut store, &cfg, "alice", "a@x.com");
    let r = MemoApi.get_memos(&store, &cfg, "garbage", 1000);
    match r {
        Err(ApiError::Unauthorized(m)) => assert_eq!(m, "Invalid or expired token"),
        other => panic!("unexpected: {:?}", other.map(|_| ())),
    }
}

#[test]
fn unparseable_memo_id_is_bad_request() {
    let mut store = Store::new();
    let cfg = config();
    let token = signup_and_login(&mut store, &cfg, "alice", "a@x.com");
    let r = MemoApi.get_memo_by_id(&store, &cfg, token.as_str(), 1000, "not-a-uuid");
    match r {
        Err(ApiError::BadRequest(m)) => assert_eq!(m, "Invalid memo ID"),
        other => panic!("unexpected: {:?}", other.map(|_| ())),
    }
}

#[test]
fn token_with_unparseable_subject_is_rejected() {
    let mut store = Store::new();
    let cfg = config();
    signup_and_login(&mut store, &cfg, "alice", "a@x.com");
    let token =
        smart_memo::token::issue_token(b"point", "zzz", "alice", "a@x.com", 1000);
    let r = MemoApi.get_memo_by_id(&store, &cfg, token.as_str(), 1100, "not-a-uuid");
    match r {
        Err(ApiError::Unauthorized(m)) => assert_eq!(m, "Invalid user ID"),
        other => panic!("unexpected: {:?}", other.map(|_| ())),
    }
}

#[test]
fn end_to_end_signup_login_save_list_delete() {
    let mut store = Store::new();
    let cfg = config();
    UserApi.signup(
        &mut store,
        SignupPayload {
            username: "alice".to_string(),
            email: "alice@x.com".to_string(),
            password: "password1".to_string(),
        },
        1000,
    ).unwrap();
    let token = UserApi.login(
        &store,
        &cfg,
        LoginPayload { email: "alice@x.com".to_string(), password: "password1".to_string() },
        1000,
    ).unwrap().token;
    let saved = MemoApi.save_memo(&mut store, &cfg, token.as_str(), 1234, input("Idea", "00:05"))
        .unwrap();
    let all = MemoApi.get_memos(&store, &cfg, token.as_str(), 1300).unwrap();
    assert_eq!(all.len(), 1);
    assert_eq!(all[0].id, saved.memo_id);
    assert_eq!(all[0].title, "Idea");
    assert_eq!(all[0].duration, "00:05");
    assert_eq!(all[0].created_at, "1234");
    MemoApi.delete_memo(&mut store, &cfg, token.as_str(), 1400, saved.memo_id.as_str()).unwrap();
    let empty = MemoApi.get_memos(&store, &cfg, token.as_str(), 1500).unwrap();
    assert!(empty.is_empty());
}
