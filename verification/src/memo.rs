//! Memo CRUD, ownership-scoped: every read, update and delete is filtered by
//! the requesting user, so a memo is visible only to its owner.

use vstd::prelude::*;
use vstd::pervasive::VecAdditionalExecFns;
use crate::ids::{uuid_format, uuid_parse, uuid_parse_of, uuid_str_of};
use crate::store::{opt_bytes_clone, opt_string_clone, MemoRecord, MemoV, Store, UserV};
use crate::text::{dec_digits, is_blank, is_blank_str, u64_to_dec};
use crate::token::{resolve_user_id, token_claims_spec, token_user, AuthFailure};
use crate::{ApiError, Config};

verus! {

/// The body of a save request: a full memo, with an optional id selecting an
/// existing row to overwrite.
pub struct MemoInput {
    pub id: Option<String>,
    pub title: String,
    pub transcript: Option<String>,
    pub translate: Option<String>,
    pub summary: Option<String>,
    pub tags: Option<Vec<String>>,
    pub duration: String,
    pub audio_blob: Option<Vec<u8>>,
}

/// The body of an audio-only save request.
pub struct SaveAudioMemoPayload {
    pub title: String,
    pub duration: String,
    pub audio_blob: String,
}

/// The body of a partial update: absent fields are left untouched.
pub struct MemoUpdate {
    pub title: Option<String>,
    pub transcript: Option<String>,
    pub translate: Option<String>,
    pub summary: Option<String>,
    pub tags: Option<Vec<String>>,
}

/// The response to a save, update or delete.
pub struct MemoResponse {
    pub message: String,
    pub memo_id: String,
}

/// A memo as handed back to the caller: ids and timestamps as strings, tags
/// deserialized.
pub struct MemoOutput {
    pub id: String,
    pub title: String,
    pub transcript: Option<String>,
    pub translate: Option<String>,
    pub summary: Option<String>,
    pub tags: Option<Vec<String>>,
    pub duration: String,
    pub created_at: String,
    pub audio_blob: Option<Vec<u8>>,
}

#[verifier::ext_equal]
pub ghost struct MemoOutputV {
    pub id: Seq<char>,
    pub title: Seq<char>,
    pub transcript: Option<Seq<char>>,
    pub translate: Option<Seq<char>>,
    pub summary: Option<Seq<char>>,
    pub tags: Option<Seq<Seq<char>>>,
    pub duration: Seq<char>,
    pub created_at: Seq<char>,
    pub audio_blob: Option<Seq<u8>>,
}

impl DeepView for MemoOutput {
    type V = MemoOutputV;

    open spec fn deep_view(&self) -> MemoOutputV {
        MemoOutputV {
            id: self.id@,
            title: self.title@,
            transcript: self.transcript.deep_view(),
            translate: self.translate.deep_view(),
            summary: self.summary.deep_view(),
            tags: self.tags.deep_view(),
            duration: self.duration@,
            created_at: self.created_at@,
            audio_blob: self.audio_blob.deep_view(),
        }
    }
}

/// The JSON serialization of a tag list; a function of the list alone.
pub uninterp spec fn tags_json(tags: Seq<Seq<char>>) -> Seq<char>;

/// What parsing a stored tag string yields, or nothing when the string is not
/// a JSON list of strings.
pub uninterp spec fn tags_parse(s: Seq<char>) -> Option<Seq<Seq<char>>>;

/// Relies on `serde_json::to_string` for a vector of strings, which cannot
/// fail there; the result is a function of the list alone, named `tags_json`.
#[verifier::external_body]
fn tags_to_json(tags: &Vec<String>) -> (r: String)
    ensures
        r@ == tags_json(tags.deep_view()),
{
    serde_json::to_string(tags).unwrap_or_default()
}

/// Relies on `serde_json::from_str` for a vector of strings: deterministic in
/// the string (named `tags_parse`) and the inverse of `to_string`.
#[verifier::external_body]
fn tags_from_json(s: &str) -> (r: Option<Vec<String>>)
    ensures
        (r is Some) == (tags_parse(s@) is Some),
        r matches Some(v) ==> tags_parse(s@) == Some(v.deep_view()),
        r is None ==> (forall|t: Seq<Seq<char>>| s@ != tags_json(t)),
        r matches Some(v) ==> (forall|t: Seq<Seq<char>>| s@ == tags_json(t) ==> v.deep_view() == t),
{
    serde_json::from_str::<Vec<String>>(s).ok()
}

/// How an optional text field is normalized before persisting: blank-after-trim
/// becomes absent, anything else is kept as given.
pub open spec fn clean_spec(v: Option<Seq<char>>) -> Option<Seq<char>> {
    match v {
        Option::Some(s) => if is_blank_str(s) {
            Option::None
        } else {
            Option::Some(s)
        },
        Option::None => Option::None,
    }
}

fn clean_field(v: Option<String>) -> (r: Option<String>)
    ensures
        r.deep_view() == clean_spec(v.deep_view()),
{
    match v {
        Some(s) => {
            if is_blank(s.as_str()) {
                None
            } else {
                Some(s)
            }
        },
        None => None,
    }
}

/// The stored (serialized) form of an optional tag list.
pub open spec fn tags_serialized(t: Option<Seq<Seq<char>>>) -> Option<Seq<char>> {
    match t {
        Option::Some(v) => Option::Some(tags_json(v)),
        Option::None => Option::None,
    }
}

/// Whether some user row carries this id.
pub open spec fn user_exists(users: Seq<UserV>, uid: u128) -> bool {
    exists|i: int| 0 <= i < users.len() && (#[trigger] users[i]).id == uid
}

/// The index of the memo with this id (unique when the store is well formed).
pub open spec fn memo_index_of(memos: Seq<MemoV>, mid: u128) -> Option<int> {
    if exists|i: int| 0 <= i < memos.len() && (#[trigger] memos[i]).id == mid {
        Option::Some(choose|i: int| 0 <= i < memos.len() && (#[trigger] memos[i]).id == mid)
    } else {
        Option::None
    }
}

/// The row a save request with an explicit id resolves to: none when the id is
/// absent, unparseable, or matches no row (those cases fall through to insert).
pub open spec fn explicit_target(memos: Seq<MemoV>, id_input: Option<Seq<char>>) -> Option<int> {
    match id_input {
        Option::Some(s) => match uuid_parse_of(s) {
            Option::Some(mid) => memo_index_of(memos, mid),
            Option::None => Option::None,
        },
        Option::None => Option::None,
    }
}

/// How a stored memo row is shaped for the caller.
pub open spec fn output_of(m: MemoV) -> MemoOutputV {
    MemoOutputV {
        id: uuid_str_of(m.id),
        title: m.title,
        transcript: m.transcript,
        translate: m.translate,
        summary: m.summary,
        tags: (match m.tags {
            Option::Some(s) => tags_parse(s),
            Option::None => Option::None,
        }),
        duration: m.duration,
        created_at: dec_digits(m.created_at as int),
        audio_blob: m.audio_blob,
    }
}

/// Shapes one stored row for the caller; malformed tag data becomes absent
/// tags, and a stored serialization of a tag list deserializes back to it.
fn memo_to_output(m: &MemoRecord) -> (r: MemoOutput)
    ensures
        r.deep_view() == output_of(m.deep_view()),
        forall|t: Seq<Seq<char>>|
            m.deep_view().tags == Some(tags_json(t)) ==> r.deep_view().tags == Some(t),
{
    let tags: Option<Vec<String>> = match &m.tags {
        Some(s) => tags_from_json(s.as_str()),
        None => None,
    };
    MemoOutput {
        id: uuid_format(m.id),
        title: m.title.clone(),
        transcript: opt_string_clone(&m.transcript),
        translate: opt_string_clone(&m.translate),
        summary: opt_string_clone(&m.summary),
        tags,
        duration: m.duration.clone(),
        created_at: u64_to_dec(m.created_at),
        audio_blob: opt_bytes_clone(&m.audio_blob),
    }
}

proof fn lemma_filter_partition(s: Seq<MemoV>, uid: u128)
    ensures
        s.filter(|m: MemoV| m.user_id != uid).len() + s.filter(|m: MemoV| m.user_id == uid).len()
            == s.len(),
    decreases s.len(),
{
    broadcast use Seq::lemma_filter_push;

    if s.len() == 0 {
        reveal(Seq::filter);
    } else {
        let pre = s.drop_last();
        lemma_filter_partition(pre, uid);
        assert(s =~= pre.push(s.last()));
    }
}

/// The memo endpoints.
pub struct MemoApi;

impl MemoApi {
    /// All memos owned by the requester, in storage order; an unusable token
    /// is a typed authentication failure.
    pub fn get_memos(&self, store: &Store, cfg: &Config, token: &str, now: u64) -> (r: Result<
        Vec<MemoOutput>,
        ApiError,
    >)
        requires
            store.wf(),
        ensures
            token_claims_spec(cfg.jwt_secret@, token@, now) is None ==> (r matches Err(
                ApiError::Unauthorized(m),
            ) && m@ == "Invalid or expired token"@),
            (token_claims_spec(cfg.jwt_secret@, token@, now) is Some && token_user(
                cfg.jwt_secret@,
                token@,
                now,
            ) is None) ==> (r matches Err(ApiError::Unauthorized(m)) && m@ == "Invalid user ID"@),
            (r is Ok) == (token_user(cfg.jwt_secret@, token@, now) is Some),
            token_user(cfg.jwt_secret@, token@, now) matches Some(uid) ==> (r matches Ok(list)
                && ({
                let owned = store@.memos.filter(|m: MemoV| m.user_id == uid);
                &&& list.deep_view().len() == owned.len()
                &&& (forall|j: int|
                    0 <= j < owned.len() ==> list.deep_view()[j] == output_of(#[trigger] owned[j]))
                &&& (forall|j: int, t: Seq<Seq<char>>|
                    (0 <= j < owned.len() && (#[trigger] owned[j]).tags == Some(
                        #[trigger] tags_json(t),
                    )) ==> list.deep_view()[j].tags == Some(t))
            })),
    {
        let uid = match resolve_user_id(cfg, token, now) {
            Ok(uid) => uid,
            Err(AuthFailure::InvalidToken) => {
                return Err(ApiError::Unauthorized("Invalid or expired token".to_owned()));
            },
            Err(AuthFailure::InvalidSubject) => {
                return Err(ApiError::Unauthorized("Invalid user ID".to_owned()));
            },
        };
        let ghost pred = |m: MemoV| m.user_id == uid;
        let mut out: Vec<MemoOutput> = Vec::new();
        let n: usize = store.memos.len();
        let mut i: usize = 0;
        while i < n
            invariant
                0 <= i <= n,
                n == store@.memos.len(),
                pred == (|m: MemoV| m.user_id == uid),
                out.deep_view().len() == store@.memos.take(i as int).filter(pred).len(),
                forall|j: int|
                    0 <= j < out.deep_view().len() ==> out.deep_view()[j] == output_of(
                        #[trigger] store@.memos.take(i as int).filter(pred)[j],
                    ),
                forall|j: int, t: Seq<Seq<char>>|
                    (0 <= j < out.deep_view().len() && (#[trigger] store@.memos.take(
                        i as int,
                    ).filter(pred)[j]).tags == Some(#[trigger] tags_json(t)))
                        ==> out.deep_view()[j].tags == Some(t),
            decreases n - i,
        {
            let ghost prev = store@.memos.take(i as int).filter(pred);
            let ghost cur = store@.memos[i as int];
            proof {
                assert(store@.memos.take(i + 1) =~= store@.memos.take(i as int).push(cur));
                assert(store@.memos.take(i + 1).filter(pred) == store@.memos.take(
                    i as int,
                ).push(cur).filter(pred));
                store@.memos.take(i as int).lemma_filter_push(cur, pred);
                if pred(cur) {
                    assert(store@.memos.take(i as int).push(cur).filter(pred) == prev.push(cur));
                } else {
                    assert(store@.memos.take(i as int).push(cur).filter(pred) == prev);
                }
            }
            if store.memos[i].user_id == uid {
                let item = memo_to_output(&store.memos[i]);
                let ghost out_prev = out.deep_view();
                out.push(item);
                proof {
                    assert(out.deep_view() =~= out_prev.push(item.deep_view()));
                }
            }
            i = i + 1;
        }
        proof {
            assert(store@.memos.take(n as int) =~= store@.memos);
        }
        Ok(out)
    }

    /// One memo by id; absence and foreign ownership are indistinguishable.
    pub fn get_memo_by_id(
        &self,
        store: &Store,
        cfg: &Config,
        token: &str,
        now: u64,
        memo_id: &str,
    ) -> (r: Result<MemoOutput, ApiError>)
        requires
            store.wf(),
        ensures
            token_claims_spec(cfg.jwt_secret@, token@, now) is None ==> (r matches Err(
                ApiError::Unauthorized(m),
            ) && m@ == "Invalid or expired token"@),
            (token_claims_spec(cfg.jwt_secret@, token@, now) is Some && token_user(
                cfg.jwt_secret@,
                token@,
                now,
            ) is None) ==> (r matches Err(ApiError::Unauthorized(m)) && m@ == "Invalid user ID"@),
            token_user(cfg.jwt_secret@, token@, now) matches Some(uid) ==> ({
                match uuid_parse_of(memo_id@) {
                    Option::None => r matches Err(ApiError::BadRequest(m)) && m@
                        == "Invalid memo ID"@,
                    Option::Some(mid) => {
                        match memo_index_of(store@.memos, mid) {
                            Option::Some(i) => {
                                if store@.memos[i].user_id == uid {
                                    r matches Ok(out) && out.deep_view() == output_of(
                                        store@.memos[i],
                                    ) && (forall|t: Seq<Seq<char>>|
                                        store@.memos[i].tags == Some(#[trigger] tags_json(t))
                                            ==> out.deep_view().tags == Some(t))
                                } else {
                                    r matches Err(ApiError::NotFound(m)) && m@
                                        == "Memo not found or access denied"@
                                }
                            },
                            Option::None => r matches Err(ApiError::NotFound(m)) && m@
                                == "Memo not found or access denied"@,
                        }
                    },
                }
            }),
    {
        let uid = match resolve_user_id(cfg, token, now) {
            Ok(uid) => uid,
            Err(AuthFailure::InvalidToken) => {
                return Err(ApiError::Unauthorized("Invalid or expired token".to_owned()));
            },
            Err(AuthFailure::InvalidSubject) => {
                return Err(ApiError::Unauthorized("Invalid user ID".to_owned()));
            },
        };
        let mid = match uuid_parse(memo_id) {
            Some(mid) => mid,
            None => {
                return Err(ApiError::BadRequest("Invalid memo ID".to_owned()));
            },
        };
        match store.find_memo_by_id(mid) {
            Some(i) => {
                proof {
                    assert(memo_index_of(store@.memos, mid) matches Some(j) && store@.memos[j]
                        == store@.memos[i as int]) by {
                        let j = choose|j: int|
                            0 <= j < store@.memos.len() && (#[trigger] store@.memos[j]).id == mid;
                        if j != i as int {
                            assert(store@.memos[j].id != store@.memos[i as int].id);
                        }
                    }
                }
                if store.memos[i].user_id == uid {
                    Ok(memo_to_output(&store.memos[i]))
                } else {
                    Err(ApiError::NotFound("Memo not found or access denied".to_owned()))
                }
            },
            None => Err(ApiError::NotFound("Memo not found or access denied".to_owned())),
        }
    }

    /// Deletes one memo if the requester owns it; zero rows gone is reported
    /// as not found.
    pub fn delete_memo(
        &self,
        store: &mut Store,
        cfg: &Config,
        token: &str,
        now: u64,
        memo_id: &str,
    ) -> (r: Result<MemoResponse, ApiError>)
        requires
            old(store).wf(),
        ensures
            final(store).wf(),
            r is Err ==> final(store)@ == old(store)@,
            token_claims_spec(cfg.jwt_secret@, token@, now) is None ==> (r matches Err(
                ApiError::Unauthorized(m),
            ) && m@ == "Invalid or expired token"@),
            (token_claims_spec(cfg.jwt_secret@, token@, now) is Some && token_user(
                cfg.jwt_secret@,
                token@,
                now,
            ) is None) ==> (r matches Err(ApiError::Unauthorized(m)) && m@ == "Invalid user ID"@),
            token_user(cfg.jwt_secret@, token@, now) matches Some(uid) ==> ({
                match uuid_parse_of(memo_id@) {
                    Option::None => r matches Err(ApiError::BadRequest(m)) && m@
                        == "Invalid memo ID"@,
                    Option::Some(mid) => {
                        match memo_index_of(old(store)@.memos, mid) {
                            Option::Some(i) => {
                                if old(store)@.memos[i].user_id == uid {
                                    r matches Ok(resp) && ({
                                        &&& final(store)@.memos == old(store)@.memos.remove(i)
                                        &&& final(store)@.users == old(store)@.users
                                        &&& final(store)@.helper == old(store)@.helper
                                        &&& final(store)@.next_id == old(store)@.next_id
                                        &&& resp.message@ == "Memo deleted"@
                                        &&& resp.memo_id@ == memo_id@
                                    })
                                } else {
                                    r matches Err(ApiError::NotFound(m)) && m@
                                        == "Memo not found or access denied"@
                                }
                            },
                            Option::None => r matches Err(ApiError::NotFound(m)) && m@
                                == "Memo not found or access denied"@,
                        }
                    },
                }
            }),
    {
        let uid = match resolve_user_id(cfg, token, now) {
            Ok(uid) => uid,
            Err(AuthFailure::InvalidToken) => {
                return Err(ApiError::Unauthorized("Invalid or expired token".to_owned()));
            },
            Err(AuthFailure::InvalidSubject) => {
                return Err(ApiError::Unauthorized("Invalid user ID".to_owned()));
            },
        };
        let mid = match uuid_parse(memo_id) {
            Some(mid) => mid,
            None => {
                return Err(ApiError::BadRequest("Invalid memo ID".to_owned()));
            },
        };
        match store.find_memo_by_id(mid) {
            Some(i) => {
                proof {
                    assert(memo_index_of(store@.memos, mid) matches Some(j) && j == i as int) by {
                        let j = choose|j: int|
                            0 <= j < store@.memos.len() && (#[trigger] store@.memos[j]).id == mid;
                        if j != i as int {
                            assert(store@.memos[j].id != store@.memos[i as int].id);
                        }
                    }
                }
                if store.memos[i].user_id == uid {
                    store.memos.remove(i);
                    proof {
                        assert(store@.memos =~= old(store)@.memos.remove(i as int));
                        crate::store::lemma_wf_remove_memo(old(store)@, store@, i as int);
                    }
                    Ok(
                        MemoResponse {
                            message: "Memo deleted".to_owned(),
                            memo_id: memo_id.to_owned(),
                        },
                    )
                } else {
                    Err(ApiError::NotFound("Memo not found or access denied".to_owned()))
                }
            },
            None => Err(ApiError::NotFound("Memo not found or access denied".to_owned())),
        }
    }

    /// Deletes every memo the requester owns and reports how many went; zero
    /// is a valid outcome, not an error.
    pub fn delete_all_memos(&self, store: &mut Store, cfg: &Config, token: &str, now: u64) -> (r:
        Result<MemoResponse, ApiError>)
        requires
            old(store).wf(),
        ensures
            final(store).wf(),
            r is Err ==> final(store)@ == old(store)@,
            token_claims_spec(cfg.jwt_secret@, token@, now) is None ==> (r matches Err(
                ApiError::Unauthorized(m),
            ) && m@ == "Invalid or expired token"@),
            (token_claims_spec(cfg.jwt_secret@, token@, now) is Some && token_user(
                cfg.jwt_secret@,
                token@,
                now,
            ) is None) ==> (r matches Err(ApiError::Unauthorized(m)) && m@ == "Invalid user ID"@),
            token_user(cfg.jwt_secret@, token@, now) matches Some(uid) ==> (r matches Ok(resp) && ({
                let removed = old(store)@.memos.filter(|m: MemoV| m.user_id == uid).len();
                &&& final(store)@.memos == old(store)@.memos.filter(|m: MemoV| m.user_id != uid)
                &&& final(store)@.users == old(store)@.users
                &&& final(store)@.helper == old(store)@.helper
                &&& final(store)@.next_id == old(store)@.next_id
                &&& resp.message@ == "Deleted "@ + dec_digits(removed as int) + " memo(s)"@
                &&& resp.memo_id@ == Seq::<char>::empty()
            })),
    {
        let uid = match resolve_user_id(cfg, token, now) {
            Ok(uid) => uid,
            Err(AuthFailure::InvalidToken) => {
                return Err(ApiError::Unauthorized("Invalid or expired token".to_owned()));
            },
            Err(AuthFailure::InvalidSubject) => {
                return Err(ApiError::Unauthorized("Invalid user ID".to_owned()));
            },
        };
        let ghost pre = store@;
        let ghost keep = |m: MemoV| m.user_id != uid;
        let n0: usize = store.memos.len();
        let mut removed: u64 = 0;
        let mut i: usize = 0;
        let ghost k: int = 0;
        proof {
            assert(pre.memos.take(0).filter(keep) =~= Seq::<MemoV>::empty()) by {
                assert(pre.memos.take(0) =~= Seq::<MemoV>::empty());
                reveal(Seq::filter);
            }
            assert(pre.memos.skip(0) =~= pre.memos);
        }
        while i < store.memos.len()
            invariant
                store.wf(),
                keep == (|m: MemoV| m.user_id != uid),
                0 <= i as int,
                i as int <= store@.memos.len(),
                0 <= k <= pre.memos.len(),
                store@.memos == pre.memos.take(k).filter(keep) + pre.memos.skip(k),
                i as int == pre.memos.take(k).filter(keep).len(),
                removed as int == k - i,
                k - i <= n0,
                n0 == pre.memos.len(),
                store@.users == pre.users,
                store@.helper == pre.helper,
                store@.next_id == pre.next_id,
            decreases store@.memos.len() - i,
        {
            let ghost snap = store@;
            let ghost cur = pre.memos[k];
            proof {
                assert(store@.memos[i as int] == pre.memos.skip(k)[0]);
                assert(pre.memos.skip(k)[0] == pre.memos[k]);
                assert(pre.memos.take(k + 1) =~= pre.memos.take(k).push(cur));
                assert(pre.memos.take(k + 1).filter(keep) == pre.memos.take(k).push(cur).filter(
                    keep,
                ));
                pre.memos.take(k).lemma_filter_push(cur, keep);
                if keep(cur) {
                    assert(pre.memos.take(k).push(cur).filter(keep) == pre.memos.take(k).filter(
                        keep,
                    ).push(cur));
                } else {
                    assert(pre.memos.take(k).push(cur).filter(keep) == pre.memos.take(k).filter(
                        keep,
                    ));
                }
            }
            if store.memos[i].user_id == uid {
                store.memos.remove(i);
                proof {
                    assert(removed < u64::MAX) by {
                        assert(removed as int <= n0 as int);
                        assert(n0 as int <= usize::MAX as int);
                    }
                }
                removed = removed + 1;
                proof {
                    assert(store@.memos =~= snap.memos.remove(i as int));
                    crate::store::lemma_wf_remove_memo(snap, store@, i as int);
                    assert(store@.memos =~= pre.memos.take(k + 1).filter(keep) + pre.memos.skip(
                        k + 1,
                    ));
                    k = k + 1;
                }
            } else {
                i = i + 1;
                proof {
                    assert(store@.memos =~= pre.memos.take(k + 1).filter(keep) + pre.memos.skip(
                        k + 1,
                    ));
                    k = k + 1;
                }
            }
        }
        proof {
            assert(pre.memos.skip(k).len() == 0);
            assert(k == pre.memos.len());
            assert(pre.memos.take(k) =~= pre.memos);
            lemma_filter_partition(pre.memos, uid);
        }
        let mut message = "Deleted ".to_owned();
        message.append(u64_to_dec(removed).as_str());
        message.append(" memo(s)");
        Ok(MemoResponse { message, memo_id: String::new() })
    }

    /// Saves a memo: an owned existing id means a full overwrite of that row;
    /// anything else (no id, unparseable id, unknown id) inserts a fresh row.
    /// An id owned by another user is rejected and mutates nothing.
    pub fn save_memo(
        &self,
        store: &mut Store,
        cfg: &Config,
        token: &str,
        now: u64,
        payload: MemoInput,
    ) -> (r: Result<MemoResponse, ApiError>)
        requires
            old(store).wf(),
        ensures
            final(store).wf(),
            r is Err ==> final(store)@ == old(store)@,
            token_claims_spec(cfg.jwt_secret@, token@, now) is None ==> (r matches Err(
                ApiError::Unauthorized(m),
            ) && m@ == "Invalid or expired token"@),
            (token_claims_spec(cfg.jwt_secret@, token@, now) is Some && token_user(
                cfg.jwt_secret@,
                token@,
                now,
            ) is None) ==> (r matches Err(ApiError::Unauthorized(m)) && m@
                == "Invalid user ID format"@),
            token_user(cfg.jwt_secret@, token@, now) matches Some(uid) ==> ({
                if !user_exists(old(store)@.users, uid) {
                    r matches Err(ApiError::NotFound(m)) && m@ == "User "@ + uuid_str_of(uid)
                        + " not found"@
                } else if is_blank_str(payload.title@) || is_blank_str(payload.duration@) {
                    r matches Err(ApiError::BadRequest(m)) && m@
                        == "Title and duration are required"@
                } else {
                    match explicit_target(old(store)@.memos, payload.id.deep_view()) {
                        Option::Some(i) => {
                            if old(store)@.memos[i].user_id != uid {
                                r matches Err(ApiError::Unauthorized(m)) && m@ == "Unauthorized"@
                            } else {
                                r matches Ok(resp) && ({
                                    let m0 = old(store)@.memos[i];
                                    &&& final(store)@.memos == old(store)@.memos.update(
                                        i,
                                        (MemoV {
                                            id: m0.id,
                                            user_id: m0.user_id,
                                            title: payload.title@,
                                            audio_blob: (match payload.audio_blob.deep_view() {
                                                Option::Some(b) => Option::Some(b),
                                                Option::None => m0.audio_blob,
                                            }),
                                            transcript: clean_spec(payload.transcript.deep_view()),
                                            translate: clean_spec(payload.translate.deep_view()),
                                            summary: clean_spec(payload.summary.deep_view()),
                                            tags: tags_serialized(payload.tags.deep_view()),
                                            duration: payload.duration@,
                                            created_at: m0.created_at,
                                        }),
                                    )
                                    &&& final(store)@.users == old(store)@.users
                                    &&& final(store)@.helper == old(store)@.helper
                                    &&& final(store)@.next_id == old(store)@.next_id
                                    &&& resp.message@ == "Memo updated"@
                                    &&& resp.memo_id@ == uuid_str_of(m0.id)
                                })
                            }
                        },
                        Option::None => ({
                            &&& (old(store)@.next_id < u128::MAX ==> r is Ok)
                            &&& ({
                                ||| (r matches Err(e) && e is Internal && final(store)@ == old(
                                    store,
                                )@)
                                ||| (r matches Ok(resp) && ({
                                &&& final(store)@.memos == old(store)@.memos.push(
                                    (MemoV {
                                        id: old(store)@.next_id,
                                        user_id: uid,
                                        title: payload.title@,
                                        audio_blob: payload.audio_blob.deep_view(),
                                        transcript: clean_spec(payload.transcript.deep_view()),
                                        translate: clean_spec(payload.translate.deep_view()),
                                        summary: clean_spec(payload.summary.deep_view()),
                                        tags: tags_serialized(payload.tags.deep_view()),
                                        duration: payload.duration@,
                                        created_at: now,
                                    }),
                                )
                                &&& (forall|j: int|
                                    0 <= j < old(store)@.memos.len() ==> (
                                    #[trigger] old(store)@.memos[j]).id != old(store)@.next_id)
                                &&& final(store)@.users == old(store)@.users
                                &&& final(store)@.helper == old(store)@.helper
                                    &&& resp.message@ == "Memo saved"@
                                    &&& resp.memo_id@ == uuid_str_of(old(store)@.next_id)
                                }))
                            })
                        }),
                    }
                }
            }),
    {
        let uid = match resolve_user_id(cfg, token, now) {
            Ok(uid) => uid,
            Err(AuthFailure::InvalidToken) => {
                return Err(ApiError::Unauthorized("Invalid or expired token".to_owned()));
            },
            Err(AuthFailure::InvalidSubject) => {
                return Err(ApiError::Unauthorized("Invalid user ID format".to_owned()));
            },
        };
        if store.find_user_by_id(uid).is_none() {
            let mut msg = "User ".to_owned();
            msg.append(uuid_format(uid).as_str());
            msg.append(" not found");
            return Err(ApiError::NotFound(msg));
        }
        if is_blank(payload.title.as_str()) || is_blank(payload.duration.as_str()) {
            return Err(ApiError::BadRequest("Title and duration are required".to_owned()));
        }
        let MemoInput {
            id: input_id,
            title,
            transcript,
            translate,
            summary,
            tags,
            duration,
            audio_blob,
        } = payload;
        let tags_string: Option<String> = match &tags {
            Some(v) => Some(tags_to_json(v)),
            None => None,
        };
        let target = resolve_save_target(store, &input_id);
        match target {
            Some(i) => {
                if store.memos[i].user_id != uid {
                    return Err(ApiError::Unauthorized("Unauthorized".to_owned()));
                }
                let m_id = store.memos[i].id;
                let m_user = store.memos[i].user_id;
                let m_created = store.memos[i].created_at;
                let audio: Option<Vec<u8>> = match audio_blob {
                    Some(b) => Some(b),
                    None => opt_bytes_clone(&store.memos[i].audio_blob),
                };
                let new_rec = MemoRecord {
                    id: m_id,
                    user_id: m_user,
                    title,
                    audio_blob: audio,
                    transcript: clean_field(transcript),
                    translate: clean_field(translate),
                    summary: clean_field(summary),
                    tags: tags_string,
                    duration,
                    created_at: m_created,
                };
                let ghost snap = store@;
                let ghost new_v = new_rec.deep_view();
                store.memos.set(i, new_rec);
                proof {
                    assert(store@.memos =~= snap.memos.update(i as int, new_v));
                    crate::store::lemma_wf_memos_same_ids(snap, store@);
                    assert(new_v =~= (MemoV {
                        id: snap.memos[i as int].id,
                        user_id: snap.memos[i as int].user_id,
                        title: payload.title@,
                        audio_blob: (match payload.audio_blob.deep_view() {
                            Option::Some(b) => Option::Some(b),
                            Option::None => snap.memos[i as int].audio_blob,
                        }),
                        transcript: clean_spec(payload.transcript.deep_view()),
                        translate: clean_spec(payload.translate.deep_view()),
                        summary: clean_spec(payload.summary.deep_view()),
                        tags: tags_serialized(payload.tags.deep_view()),
                        duration: payload.duration@,
                        created_at: snap.memos[i as int].created_at,
                    }));
                }
                Ok(MemoResponse { message: "Memo updated".to_owned(), memo_id: uuid_format(m_id) })
            },
            None => {
                // The stored id is always the server's next counter draw,
                // distinct from every stored row id; a supplied id that
                // resolves to no row is discarded, never adopted. Counter ids
                // are predictable, though: a caller naming the not-yet-used
                // next id falls through to this insert and the fresh id then
                // coincides with the supplied string — harmless (the row is
                // newly created and owned by the caller), but arrangeable in
                // a way random ids would not be.
                let id = match store.fresh_id() {
                    Some(id) => id,
                    None => {
                        return Err(ApiError::Internal("Save failed".to_owned()));
                    },
                };
                let new_rec = MemoRecord {
                    id,
                    user_id: uid,
                    title,
                    audio_blob,
                    transcript: clean_field(transcript),
                    translate: clean_field(translate),
                    summary: clean_field(summary),
                    tags: tags_string,
                    duration,
                    created_at: now,
                };
                let ghost snap = store@;
                let ghost new_v = new_rec.deep_view();
                store.memos.push(new_rec);
                proof {
                    assert(store@.memos =~= snap.memos.push(new_v));
                    crate::store::lemma_wf_push_memo(snap, store@, new_v);
                }
                Ok(MemoResponse { message: "Memo saved".to_owned(), memo_id: uuid_format(id) })
            },
        }
    }

    /// Partially updates an owned memo: each present field replaces the stored
    /// value (a blank title is ignored; blank optional texts clear the field;
    /// a present tag list fully replaces the stored one); absent fields stay.
    pub fn update_memo(
        &self,
        store: &mut Store,
        cfg: &Config,
        token: &str,
        now: u64,
        memo_id: &str,
        payload: MemoUpdate,
    ) -> (r: Result<MemoResponse, ApiError>)
        requires
            old(store).wf(),
        ensures
            final(store).wf(),
            r is Err ==> final(store)@ == old(store)@,
            token_claims_spec(cfg.jwt_secret@, token@, now) is None ==> (r matches Err(
                ApiError::Unauthorized(m),
            ) && m@ == "Invalid or expired token"@),
            (token_claims_spec(cfg.jwt_secret@, token@, now) is Some && token_user(
                cfg.jwt_secret@,
                token@,
                now,
            ) is None) ==> (r matches Err(ApiError::Unauthorized(m)) && m@ == "Invalid user ID"@),
            token_user(cfg.jwt_secret@, token@, now) matches Some(uid) ==> ({
                match uuid_parse_of(memo_id@) {
                    Option::None => r matches Err(ApiError::BadRequest(m)) && m@
                        == "Invalid memo ID"@,
                    Option::Some(mid) => {
                        match memo_index_of(old(store)@.memos, mid) {
                            Option::Some(i) => {
                                if old(store)@.memos[i].user_id != uid {
                                    r matches Err(ApiError::NotFound(m)) && m@
                                        == "Memo not found or access denied"@
                                } else {
                                    r matches Ok(resp) && ({
                                        let m0 = old(store)@.memos[i];
                                        &&& final(store)@.memos == old(store)@.memos.update(
                                            i,
                                            (MemoV {
                                                id: m0.id,
                                                user_id: m0.user_id,
                                                title: (match payload.title.deep_view() {
                                                    Option::Some(t) => if is_blank_str(t) {
                                                        m0.title
                                                    } else {
                                                        t
                                                    },
                                                    Option::None => m0.title,
                                                }),
                                                audio_blob: m0.audio_blob,
                                                transcript: (match payload.transcript.deep_view() {
                                                    Option::Some(t) => clean_spec(Option::Some(t)),
                                                    Option::None => m0.transcript,
                                                }),
                                                translate: (match payload.translate.deep_view() {
                                                    Option::Some(t) => clean_spec(Option::Some(t)),
                                                    Option::None => m0.translate,
                                                }),
                                                summary: (match payload.summary.deep_view() {
                                                    Option::Some(t) => clean_spec(Option::Some(t)),
                                                    Option::None => m0.summary,
                                                }),
                                                tags: (match payload.tags.deep_view() {
                                                    Option::Some(v) => Option::Some(tags_json(v)),
                                                    Option::None => m0.tags,
                                                }),
                                                duration: m0.duration,
                                                created_at: m0.created_at,
                                            }),
                                        )
                                        &&& final(store)@.users == old(store)@.users
                                        &&& final(store)@.helper == old(store)@.helper
                                        &&& final(store)@.next_id == old(store)@.next_id
                                        &&& resp.message@ == "Memo updated successfully"@
                                        &&& resp.memo_id@ == uuid_str_of(mid)
                                    })
                                }
                            },
                            Option::None => r matches Err(ApiError::NotFound(m)) && m@
                                == "Memo not found or access denied"@,
                        }
                    },
                }
            }),
    {
        let uid = match resolve_user_id(cfg, token, now) {
            Ok(uid) => uid,
            Err(AuthFailure::InvalidToken) => {
                return Err(ApiError::Unauthorized("Invalid or expired token".to_owned()));
            },
            Err(AuthFailure::InvalidSubject) => {
                return Err(ApiError::Unauthorized("Invalid user ID".to_owned()));
            },
        };
        let mid = match uuid_parse(memo_id) {
            Some(mid) => mid,
            None => {
                return Err(ApiError::BadRequest("Invalid memo ID".to_owned()));
            },
        };
        let i = match store.find_memo_by_id(mid) {
            Some(i) => i,
            None => {
                return Err(ApiError::NotFound("Memo not found or access denied".to_owned()));
            },
        };
        proof {
            assert(memo_index_of(store@.memos, mid) matches Some(j) && j == i as int) by {
                let j = choose|j: int|
                    0 <= j < store@.memos.len() && (#[trigger] store@.memos[j]).id == mid;
                if j != i as int {
                    assert(store@.memos[j].id != store@.memos[i as int].id);
                }
            }
        }
        if store.memos[i].user_id != uid {
            return Err(ApiError::NotFound("Memo not found or access denied".to_owned()));
        }
        let m_id = store.memos[i].id;
        let m_user = store.memos[i].user_id;
        let m_created = store.memos[i].created_at;
        let new_title: String = match payload.title {
            Some(t) => {
                if is_blank(t.as_str()) {
                    store.memos[i].title.clone()
                } else {
                    t
                }
            },
            None => store.memos[i].title.clone(),
        };
        let new_transcript: Option<String> = match payload.transcript {
            Some(t) => clean_field(Some(t)),
            None => opt_string_clone(&store.memos[i].transcript),
        };
        let new_translate: Option<String> = match payload.translate {
            Some(t) => clean_field(Some(t)),
            None => opt_string_clone(&store.memos[i].translate),
        };
        let new_summary: Option<String> = match payload.summary {
            Some(t) => clean_field(Some(t)),
            None => opt_string_clone(&store.memos[i].summary),
        };
        let new_tags: Option<String> = match payload.tags {
            Some(v) => Some(tags_to_json(&v)),
            None => opt_string_clone(&store.memos[i].tags),
        };
        let new_rec = MemoRecord {
            id: m_id,
            user_id: m_user,
            title: new_title,
            audio_blob: opt_bytes_clone(&store.memos[i].audio_blob),
            transcript: new_transcript,
            translate: new_translate,
            summary: new_summary,
            tags: new_tags,
            duration: store.memos[i].duration.clone(),
            created_at: m_created,
        };
        let ghost snap = store@;
        let ghost new_v = new_rec.deep_view();
        store.memos.set(i, new_rec);
        proof {
            assert(store@.memos =~= snap.memos.update(i as int, new_v));
            crate::store::lemma_wf_memos_same_ids(snap, store@);
        }
        Ok(
            MemoResponse {
                message: "Memo updated successfully".to_owned(),
                memo_id: uuid_format(m_id),
            },
        )
    }
}

/// Resolves a save request's optional explicit id to a row index, mirroring
/// `explicit_target`.
fn resolve_save_target(store: &Store, input_id: &Option<String>) -> (r: Option<usize>)
    requires
        store.wf(),
    ensures
        r matches Some(i) ==> explicit_target(store@.memos, input_id.deep_view()) == Some(i as int)
            && i < store@.memos.len(),
        r is None ==> explicit_target(store@.memos, input_id.deep_view()) is None,
{
    match input_id {
        Some(id_str) => match uuid_parse(id_str.as_str()) {
            Some(mid) => match store.find_memo_by_id(mid) {
                Some(i) => {
                    proof {
                        assert(memo_index_of(store@.memos, mid) matches Some(j) && j == i as int)
                            by {
                            let j = choose|j: int|
                                0 <= j < store@.memos.len() && (#[trigger] store@.memos[j]).id
                                    == mid;
                            if j != i as int {
                                assert(store@.memos[j].id != store@.memos[i as int].id);
                            }
                        }
                    }
                    Some(i)
                },
                None => None,
            },
            None => None,
        },
        None => None,
    }
}

} // verus!
