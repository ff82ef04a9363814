//! Credential store operations: saving, reading and deleting per-user
//! third-party API keys (encrypted at rest), and the helper flag.

use vstd::prelude::*;
use vstd::pervasive::VecAdditionalExecFns;
use crate::cipher::{decrypt, decrypt_spec, encrypt, is_encryption_of, CipherError};
use crate::ids::{uuid_format, uuid_str_of};
use crate::memo::user_exists;
use crate::store::{clone_user, opt_string_clone, HelperRecord, HelperV, Store, UserRecord};
use crate::token::{resolve_user_id, token_claims_spec, token_user, AuthFailure};
use crate::{ApiError, Config};

verus! {

/// The body of a key-saving request; an absent key is left as stored.
pub struct ApiKeyPayload {
    pub gemini_api_key: Option<String>,
    pub elevenlabs_api_key: Option<String>,
}

/// Key material handed back to the caller, in plaintext.
pub struct ApiKeyResponse {
    pub gemini_api_key: Option<String>,
    pub elevenlabs_api_key: Option<String>,
    pub message: String,
}

pub struct HelperStatusPayload {
    pub status: bool,
}

pub struct HelperStatusResponse {
    pub status: bool,
    pub message: String,
}

pub struct DeleteResponse {
    pub message: String,
}

/// The index of the credential row of this user (unique when the store is
/// well formed).
pub open spec fn helper_index_of(helper: Seq<HelperV>, uid: u128) -> Option<int> {
    if exists|i: int| 0 <= i < helper.len() && (#[trigger] helper[i]).user_id == uid {
        Option::Some(choose|i: int| 0 <= i < helper.len() && (#[trigger] helper[i]).user_id == uid)
    } else {
        Option::None
    }
}

/// Validates the token, parses its subject, and resolves the user row.
pub fn get_user_from_token(store: &Store, cfg: &Config, token: &str, now: u64) -> (r: Result<
    UserRecord,
    ApiError,
>)
    requires
        store.wf(),
    ensures
        token_claims_spec(cfg.jwt_secret@, token@, now) is None ==> (r matches Err(
            ApiError::Unauthorized(m),
        ) && m@ == "Invalid or expired token"@),
        (token_claims_spec(cfg.jwt_secret@, token@, now) is Some && token_user(
            cfg.jwt_secret@,
            token@,
            now,
        ) is None) ==> (r matches Err(ApiError::Unauthorized(m)) && m@
            == "Invalid user ID format in token"@),
        token_user(cfg.jwt_secret@, token@, now) matches Some(uid) ==> ({
            if user_exists(store@.users, uid) {
                r matches Ok(u) && u.deep_view().id == uid && (exists|i: int|
                    0 <= i < store@.users.len() && u.deep_view() == #[trigger] store@.users[i])
            } else {
                r matches Err(ApiError::NotFound(m)) && m@ == "User "@ + uuid_str_of(uid)
                    + " not found in database"@
            }
        }),
{
    let uid = match resolve_user_id(cfg, token, now) {
        Ok(uid) => uid,
        Err(AuthFailure::InvalidToken) => {
            return Err(ApiError::Unauthorized("Invalid or expired token".to_owned()));
        },
        Err(AuthFailure::InvalidSubject) => {
            return Err(ApiError::Unauthorized("Invalid user ID format in token".to_owned()));
        },
    };
    match store.find_user_by_id(uid) {
        Some(i) => Ok(clone_user(&store.users[i])),
        None => {
            let mut msg = "User ".to_owned();
            msg.append(uuid_format(uid).as_str());
            msg.append(" not found in database");
            Err(ApiError::NotFound(msg))
        },
    }
}

/// Finds the credential row of this user, mirroring `helper_index_of`.
pub fn find_helper_index(store: &Store, uid: u128) -> (r: Option<usize>)
    requires
        store.wf(),
    ensures
        r matches Some(i) ==> helper_index_of(store@.helper, uid) == Some(i as int) && i
            < store@.helper.len(),
        r is None ==> helper_index_of(store@.helper, uid) is None,
{
    match store.find_helper_by_user(uid) {
        Some(i) => {
            proof {
                assert(helper_index_of(store@.helper, uid) matches Some(j) && j == i as int) by {
                    let j = choose|j: int|
                        0 <= j < store@.helper.len() && (#[trigger] store@.helper[j]).user_id
                            == uid;
                    if j != i as int {
                        assert(store@.helper[j].user_id != store@.helper[i as int].user_id);
                    }
                }
            }
            Some(i)
        },
        None => None,
    }
}

/// The credential-key and helper-flag endpoints.
pub struct Api;

impl Api {
    /// Encrypts each supplied key and upserts the user's credential row,
    /// overwriting only the keys actually supplied. A cipher failure aborts
    /// before any write. The response echoes the plaintext keys.
    pub fn save_api_keys(
        &self,
        store: &mut Store,
        cfg: &Config,
        token: &str,
        now: u64,
        payload: ApiKeyPayload,
    ) -> (r: Result<ApiKeyResponse, ApiError>)
        requires
            old(store).wf(),
            cfg.wf(),
        ensures
            final(store).wf(),
            r is Err ==> final(store)@ == old(store)@,
            token_claims_spec(cfg.jwt_secret@, token@, now) is None ==> (r matches Err(
                ApiError::Unauthorized(m),
            ) && m@ == "Invalid or expired token"@),
            (token_claims_spec(cfg.jwt_secret@, token@, now) is Some && token_user(
                cfg.jwt_secret@,
                token@,
                now,
            ) is None) ==> (r matches Err(ApiError::Unauthorized(m)) && m@
                == "Invalid user ID format in token"@),
            token_user(cfg.jwt_secret@, token@, now) matches Some(uid) ==> (!user_exists(
                old(store)@.users,
                uid,
            ) ==> (r matches Err(ApiError::NotFound(m)) && m@ == "User "@ + uuid_str_of(uid)
                + " not found in database"@)),
            token_user(cfg.jwt_secret@, token@, now) matches Some(uid) ==> (user_exists(
                old(store)@.users,
                uid,
            ) ==> ({
                &&& (r matches Err(e) ==> e is Internal)
                &&& ((payload.gemini_api_key is None && payload.elevenlabs_api_key is None
                    && helper_index_of(old(store)@.helper, uid) is Some) ==> r is Ok)
                &&& ((payload.gemini_api_key is None && payload.elevenlabs_api_key is None
                    && old(store)@.next_id < u128::MAX) ==> r is Ok)
                &&& (r matches Ok(resp) ==> ({
                    &&& resp.gemini_api_key.deep_view() == payload.gemini_api_key.deep_view()
                    &&& resp.elevenlabs_api_key.deep_view()
                        == payload.elevenlabs_api_key.deep_view()
                    &&& resp.message@ == "API keys saved successfully"@
                    &&& final(store)@.users == old(store)@.users
                    &&& final(store)@.memos == old(store)@.memos
                    &&& (match helper_index_of(old(store)@.helper, uid) {
                        Option::Some(i) => ({
                            let h0 = old(store)@.helper[i];
                            let h1 = final(store)@.helper[i];
                            &&& final(store)@.helper == old(store)@.helper.update(i, h1)
                            &&& final(store)@.next_id == old(store)@.next_id
                            &&& h1.id == h0.id
                            &&& h1.user_id == h0.user_id
                            &&& h1.action == h0.action
                            &&& h1.helper_status == h0.helper_status
                            &&& h1.timestamp == now
                            &&& (match payload.gemini_api_key.deep_view() {
                                Option::Some(p) => h1.gemini_key matches Some(ct)
                                    && is_encryption_of(cfg.cipher_key@, ct, p),
                                Option::None => h1.gemini_key == h0.gemini_key,
                            })
                            &&& (match payload.elevenlabs_api_key.deep_view() {
                                Option::Some(p) => h1.elevenlabs_key matches Some(ct)
                                    && is_encryption_of(cfg.cipher_key@, ct, p),
                                Option::None => h1.elevenlabs_key == h0.elevenlabs_key,
                            })
                        }),
                        Option::None => ({
                            let h1 = final(store)@.helper.last();
                            &&& final(store)@.helper == old(store)@.helper.push(h1)
                            &&& h1.user_id == uid
                            &&& h1.id == old(store)@.next_id
                            &&& h1.action == "api_keys_save"@
                            &&& h1.timestamp == now
                            &&& h1.helper_status == false
                            &&& (match payload.gemini_api_key.deep_view() {
                                Option::Some(p) => h1.gemini_key matches Some(ct)
                                    && is_encryption_of(cfg.cipher_key@, ct, p),
                                Option::None => h1.gemini_key is None,
                            })
                            &&& (match payload.elevenlabs_api_key.deep_view() {
                                Option::Some(p) => h1.elevenlabs_key matches Some(ct)
                                    && is_encryption_of(cfg.cipher_key@, ct, p),
                                Option::None => h1.elevenlabs_key is None,
                            })
                        }),
                    })
                }))
            })),
    {
        let user = match get_user_from_token(store, cfg, token, now) {
            Ok(u) => u,
            Err(e) => {
                return Err(e);
            },
        };
        let uid = user.id;
        let encrypted_gemini: Option<String> = match &payload.gemini_api_key {
            Some(p) => match encrypt(cfg.cipher_key.as_slice(), p.as_str()) {
                Ok(ct) => Some(ct),
                Err(_) => {
                    return Err(ApiError::Internal("Failed to process Gemini API key.".to_owned()));
                },
            },
            None => None,
        };
        let encrypted_elevenlabs: Option<String> = match &payload.elevenlabs_api_key {
            Some(p) => match encrypt(cfg.cipher_key.as_slice(), p.as_str()) {
                Ok(ct) => Some(ct),
                Err(_) => {
                    return Err(
                        ApiError::Internal("Failed to process ElevenLabs API key.".to_owned()),
                    );
                },
            },
            None => None,
        };
        match find_helper_index(store, uid) {
            Some(i) => {
                let h0 = &store.helper[i];
                let new_rec = HelperRecord {
                    id: h0.id,
                    user_id: h0.user_id,
                    gemini_key: (match encrypted_gemini {
                        Some(ct) => Some(ct),
                        None => opt_string_clone(&h0.gemini_key),
                    }),
                    elevenlabs_key: (match encrypted_elevenlabs {
                        Some(ct) => Some(ct),
                        None => opt_string_clone(&h0.elevenlabs_key),
                    }),
                    action: h0.action.clone(),
                    timestamp: now,
                    helper_status: h0.helper_status,
                };
                let ghost snap = store@;
                let ghost new_v = new_rec.deep_view();
                store.helper.set(i, new_rec);
                proof {
                    assert(store@.helper =~= snap.helper.update(i as int, new_v));
                    crate::store::lemma_wf_helper_same_ids(snap, store@);
                }
                Ok(
                    ApiKeyResponse {
                        gemini_api_key: payload.gemini_api_key,
                        elevenlabs_api_key: payload.elevenlabs_api_key,
                        message: "API keys saved successfully".to_owned(),
                    },
                )
            },
            None => {
                let id = match store.fresh_id() {
                    Some(id) => id,
                    None => {
                        return Err(ApiError::Internal("Failed to save API keys.".to_owned()));
                    },
                };
                let new_rec = HelperRecord {
                    id,
                    user_id: uid,
                    gemini_key: encrypted_gemini,
                    elevenlabs_key: encrypted_elevenlabs,
                    action: "api_keys_save".to_owned(),
                    timestamp: now,
                    helper_status: false,
                };
                let ghost snap = store@;
                let ghost new_v = new_rec.deep_view();
                store.helper.push(new_rec);
                proof {
                    assert(store@.helper =~= snap.helper.push(new_v));
                    crate::store::lemma_wf_push_helper(snap, store@, new_v);
                }
                Ok(
                    ApiKeyResponse {
                        gemini_api_key: payload.gemini_api_key,
                        elevenlabs_api_key: payload.elevenlabs_api_key,
                        message: "API keys saved successfully".to_owned(),
                    },
                )
            },
        }
    }

    /// Reads and decrypts the user's stored keys. A key that fails to decrypt
    /// comes back absent; the read as a whole still succeeds.
    pub fn get_api_keys(&self, store: &Store, cfg: &Config, token: &str, now: u64) -> (r: Result<
        ApiKeyResponse,
        ApiError,
    >)
        requires
            store.wf(),
            cfg.wf(),
        ensures
            token_claims_spec(cfg.jwt_secret@, token@, now) is None ==> (r matches Err(
                ApiError::Unauthorized(m),
            ) && m@ == "Invalid or expired token"@),
            (token_claims_spec(cfg.jwt_secret@, token@, now) is Some && token_user(
                cfg.jwt_secret@,
                token@,
                now,
            ) is None) ==> (r matches Err(ApiError::Unauthorized(m)) && m@
                == "Invalid user ID format in token"@),
            token_user(cfg.jwt_secret@, token@, now) matches Some(uid) ==> (!user_exists(
                store@.users,
                uid,
            ) ==> (r matches Err(e) && e is NotFound)),
            token_user(cfg.jwt_secret@, token@, now) matches Some(uid) ==> (user_exists(
                store@.users,
                uid,
            ) ==> (match helper_index_of(store@.helper, uid) {
                Option::None => r matches Err(ApiError::NotFound(m)) && m@
                    == "No API keys found for this user."@,
                Option::Some(i) => r matches Ok(resp) && ({
                    let h = store@.helper[i];
                    &&& resp.message@ == "API keys retrieved successfully"@
                    &&& (match h.gemini_key {
                        Option::Some(ct) => ({
                            &&& resp.gemini_api_key.deep_view() == (match decrypt_spec(
                                cfg.cipher_key@,
                                ct,
                            ) {
                                Result::<Seq<char>, CipherError>::Ok(p) => Option::Some(p),
                                Result::<Seq<char>, CipherError>::Err(_) => Option::None,
                            })
                            &&& (forall|p: Seq<char>|
                                is_encryption_of(cfg.cipher_key@, ct, p)
                                    ==> resp.gemini_api_key.deep_view() == Option::Some(p))
                        }),
                        Option::None => resp.gemini_api_key is None,
                    })
                    &&& (match h.elevenlabs_key {
                        Option::Some(ct) => ({
                            &&& resp.elevenlabs_api_key.deep_view() == (match decrypt_spec(
                                cfg.cipher_key@,
                                ct,
                            ) {
                                Result::<Seq<char>, CipherError>::Ok(p) => Option::Some(p),
                                Result::<Seq<char>, CipherError>::Err(_) => Option::None,
                            })
                            &&& (forall|p: Seq<char>|
                                is_encryption_of(cfg.cipher_key@, ct, p)
                                    ==> resp.elevenlabs_api_key.deep_view() == Option::Some(p))
                        }),
                        Option::None => resp.elevenlabs_api_key is None,
                    })
                }),
            })),
    {
        let user = match get_user_from_token(store, cfg, token, now) {
            Ok(u) => u,
            Err(e) => {
                return Err(e);
            },
        };
        let uid = user.id;
        let i = match find_helper_index(store, uid) {
            Some(i) => i,
            None => {
                return Err(ApiError::NotFound("No API keys found for this user.".to_owned()));
            },
        };
        let gemini_plain: Option<String> = match &store.helper[i].gemini_key {
            Some(ct) => match decrypt(cfg.cipher_key.as_slice(), ct.as_str()) {
                Ok(p) => Some(p),
                Err(_) => None,
            },
            None => None,
        };
        let elevenlabs_plain: Option<String> = match &store.helper[i].elevenlabs_key {
            Some(ct) => match decrypt(cfg.cipher_key.as_slice(), ct.as_str()) {
                Ok(p) => Some(p),
                Err(_) => None,
            },
            None => None,
        };
        Ok(
            ApiKeyResponse {
                gemini_api_key: gemini_plain,
                elevenlabs_api_key: elevenlabs_plain,
                message: "API keys retrieved successfully".to_owned(),
            },
        )
    }

    /// Clears the stored Gemini key; the other key is untouched.
    pub fn delete_gemini_key(&self, store: &mut Store, cfg: &Config, token: &str, now: u64) -> (r:
        Result<DeleteResponse, ApiError>)
        requires
            old(store).wf(),
        ensures
            final(store).wf(),
            r is Err ==> final(store)@ == old(store)@,
            token_claims_spec(cfg.jwt_secret@, token@, now) is None ==> (r matches Err(
                ApiError::Unauthorized(m),
            ) && m@ == "Invalid or expired token"@),
            (token_claims_spec(cfg.jwt_secret@, token@, now) is Some && token_user(
                cfg.jwt_secret@,
                token@,
                now,
            ) is None) ==> (r matches Err(ApiError::Unauthorized(m)) && m@
                == "Invalid user ID format in token"@),
            token_user(cfg.jwt_secret@, token@, now) matches Some(uid) ==> (!user_exists(
                old(store)@.users,
                uid,
            ) ==> (r matches Err(ApiError::NotFound(m)) && m@ == "User "@ + uuid_str_of(uid)
                + " not found in database"@)),
            token_user(cfg.jwt_secret@, token@, now) matches Some(uid) ==> (user_exists(
                old(store)@.users,
                uid,
            ) ==> (match helper_index_of(old(store)@.helper, uid) {
                Option::None => r matches Err(ApiError::NotFound(m)) && m@
                    == "API key record not found for user."@,
                Option::Some(i) => r matches Ok(resp) && ({
                    let h0 = old(store)@.helper[i];
                    &&& final(store)@.helper == old(store)@.helper.update(
                        i,
                        (HelperV { gemini_key: Option::None, ..h0 }),
                    )
                    &&& final(store)@.users == old(store)@.users
                    &&& final(store)@.memos == old(store)@.memos
                    &&& final(store)@.next_id == old(store)@.next_id
                    &&& resp.message@ == "Gemini API key deleted successfully"@
                }),
            })),
    {
        let user = match get_user_from_token(store, cfg, token, now) {
            Ok(u) => u,
            Err(e) => {
                return Err(e);
            },
        };
        let i = match find_helper_index(store, user.id) {
            Some(i) => i,
            None => {
                return Err(ApiError::NotFound("API key record not found for user.".to_owned()));
            },
        };
        let h0 = &store.helper[i];
        let new_rec = HelperRecord {
            id: h0.id,
            user_id: h0.user_id,
            gemini_key: None,
            elevenlabs_key: opt_string_clone(&h0.elevenlabs_key),
            action: h0.action.clone(),
            timestamp: h0.timestamp,
            helper_status: h0.helper_status,
        };
        let ghost snap = store@;
        let ghost new_v = new_rec.deep_view();
        store.helper.set(i, new_rec);
        proof {
            assert(store@.helper =~= snap.helper.update(i as int, new_v));
            crate::store::lemma_wf_helper_same_ids(snap, store@);
            assert(new_v =~= (HelperV { gemini_key: Option::None, ..snap.helper[i as int] }));
        }
        Ok(DeleteResponse { message: "Gemini API key deleted successfully".to_owned() })
    }

    /// Clears the stored ElevenLabs key; the other key is untouched.
    pub fn delete_elevenlabs_key(
        &self,
        store: &mut Store,
        cfg: &Config,
        token: &str,
        now: u64,
    ) -> (r: Result<DeleteResponse, ApiError>)
        requires
            old(store).wf(),
        ensures
            final(store).wf(),
            r is Err ==> final(store)@ == old(store)@,
            token_claims_spec(cfg.jwt_secret@, token@, now) is None ==> (r matches Err(
                ApiError::Unauthorized(m),
            ) && m@ == "Invalid or expired token"@),
            (token_claims_spec(cfg.jwt_secret@, token@, now) is Some && token_user(
                cfg.jwt_secret@,
                token@,
                now,
            ) is None) ==> (r matches Err(ApiError::Unauthorized(m)) && m@
                == "Invalid user ID format in token"@),
            token_user(cfg.jwt_secret@, token@, now) matches Some(uid) ==> (!user_exists(
                old(store)@.users,
                uid,
            ) ==> (r matches Err(ApiError::NotFound(m)) && m@ == "User "@ + uuid_str_of(uid)
                + " not found in database"@)),
            token_user(cfg.jwt_secret@, token@, now) matches Some(uid) ==> (user_exists(
                old(store)@.users,
                uid,
            ) ==> (match helper_index_of(old(store)@.helper, uid) {
                Option::None => r matches Err(ApiError::NotFound(m)) && m@
                    == "API key record not found for user."@,
                Option::Some(i) => r matches Ok(resp) && ({
                    let h0 = old(store)@.helper[i];
                    &&& final(store)@.helper == old(store)@.helper.update(
                        i,
                        (HelperV { elevenlabs_key: Option::None, ..h0 }),
                    )
                    &&& final(store)@.users == old(store)@.users
                    &&& final(store)@.memos == old(store)@.memos
                    &&& final(store)@.next_id == old(store)@.next_id
                    &&& resp.message@ == "ElevenLabs API key deleted successfully"@
                }),
            })),
    {
        let user = match get_user_from_token(store, cfg, token, now) {
            Ok(u) => u,
            Err(e) => {
                return Err(e);
            },
        };
        let i = match find_helper_index(store, user.id) {
            Some(i) => i,
            None => {
                return Err(ApiError::NotFound("API key record not found for user.".to_owned()));
            },
        };
        let h0 = &store.helper[i];
        let new_rec = HelperRecord {
            id: h0.id,
            user_id: h0.user_id,
            gemini_key: opt_string_clone(&h0.gemini_key),
            elevenlabs_key: None,
            action: h0.action.clone(),
            timestamp: h0.timestamp,
            helper_status: h0.helper_status,
        };
        let ghost snap = store@;
        let ghost new_v = new_rec.deep_view();
        store.helper.set(i, new_rec);
        proof {
            assert(store@.helper =~= snap.helper.update(i as int, new_v));
            crate::store::lemma_wf_helper_same_ids(snap, store@);
            assert(new_v =~= (HelperV { elevenlabs_key: Option::None, ..snap.helper[i as int] }));
        }
        Ok(DeleteResponse { message: "ElevenLabs API key deleted successfully".to_owned() })
    }

    /// Sets the helper flag, creating the credential row lazily on first use.
    pub fn update_helper_status(
        &self,
        store: &mut Store,
        cfg: &Config,
        token: &str,
        now: u64,
        payload: HelperStatusPayload,
    ) -> (r: Result<HelperStatusResponse, ApiError>)
        requires
            old(store).wf(),
        ensures
            final(store).wf(),
            r is Err ==> final(store)@ == old(store)@,
            token_claims_spec(cfg.jwt_secret@, token@, now) is None ==> (r matches Err(
                ApiError::Unauthorized(m),
            ) && m@ == "Invalid or expired token"@),
            (token_claims_spec(cfg.jwt_secret@, token@, now) is Some && token_user(
                cfg.jwt_secret@,
                token@,
                now,
            ) is None) ==> (r matches Err(ApiError::Unauthorized(m)) && m@
                == "Invalid user ID format in token"@),
            token_user(cfg.jwt_secret@, token@, now) matches Some(uid) ==> (!user_exists(
                old(store)@.users,
                uid,
            ) ==> (r matches Err(ApiError::NotFound(m)) && m@ == "User "@ + uuid_str_of(uid)
                + " not found in database"@)),
            token_user(cfg.jwt_secret@, token@, now) matches Some(uid) ==> (user_exists(
                old(store)@.users,
                uid,
            ) ==> ({
                &&& (r matches Err(e) ==> e is Internal)
                &&& (helper_index_of(old(store)@.helper, uid) is Some ==> r is Ok)
                &&& (old(store)@.next_id < u128::MAX ==> r is Ok)
                &&& (r matches Ok(resp) ==> ({
                    &&& resp.status == payload.status
                    &&& resp.message@ == "Helper status updated successfully"@
                    &&& final(store)@.users == old(store)@.users
                    &&& final(store)@.memos == old(store)@.memos
                    &&& (match helper_index_of(old(store)@.helper, uid) {
                        Option::Some(i) => ({
                            let h0 = old(store)@.helper[i];
                            &&& final(store)@.helper == old(store)@.helper.update(
                                i,
                                (HelperV { helper_status: payload.status, ..h0 }),
                            )
                            &&& final(store)@.next_id == old(store)@.next_id
                        }),
                        Option::None => ({
                            let h1 = final(store)@.helper.last();
                            &&& final(store)@.helper == old(store)@.helper.push(h1)
                            &&& h1.user_id == uid
                            &&& h1.id == old(store)@.next_id
                            &&& h1.helper_status == payload.status
                            &&& h1.action == "helper_status_update"@
                            &&& h1.timestamp == now
                            &&& h1.gemini_key is None
                            &&& h1.elevenlabs_key is None
                        }),
                    })
                }))
            })),
    {
        let user = match get_user_from_token(store, cfg, token, now) {
            Ok(u) => u,
            Err(e) => {
                return Err(e);
            },
        };
        let uid = user.id;
        match find_helper_index(store, uid) {
            Some(i) => {
                let h0 = &store.helper[i];
                let new_rec = HelperRecord {
                    id: h0.id,
                    user_id: h0.user_id,
                    gemini_key: opt_string_clone(&h0.gemini_key),
                    elevenlabs_key: opt_string_clone(&h0.elevenlabs_key),
                    action: h0.action.clone(),
                    timestamp: h0.timestamp,
                    helper_status: payload.status,
                };
                let ghost snap = store@;
                let ghost new_v = new_rec.deep_view();
                store.helper.set(i, new_rec);
                proof {
                    assert(store@.helper =~= snap.helper.update(i as int, new_v));
                    crate::store::lemma_wf_helper_same_ids(snap, store@);
                    assert(new_v =~= (HelperV {
                        helper_status: payload.status,
                        ..snap.helper[i as int]
                    }));
                }
                Ok(
                    HelperStatusResponse {
                        status: payload.status,
                        message: "Helper status updated successfully".to_owned(),
                    },
                )
            },
            None => {
                let id = match store.fresh_id() {
                    Some(id) => id,
                    None => {
                        return Err(ApiError::Internal("Failed to update helper status".to_owned()));
                    },
                };
                let new_rec = HelperRecord {
                    id,
                    user_id: uid,
                    gemini_key: None,
                    elevenlabs_key: None,
                    action: "helper_status_update".to_owned(),
                    timestamp: now,
                    helper_status: payload.status,
                };
                let ghost snap = store@;
                let ghost new_v = new_rec.deep_view();
                store.helper.push(new_rec);
                proof {
                    assert(store@.helper =~= snap.helper.push(new_v));
                    crate::store::lemma_wf_push_helper(snap, store@, new_v);
                }
                Ok(
                    HelperStatusResponse {
                        status: payload.status,
                        message: "Helper status updated successfully".to_owned(),
                    },
                )
            },
        }
    }

    /// Reads the helper flag; a missing credential row reads as `false`, not
    /// as an error.
    pub fn get_helper_status(&self, store: &Store, cfg: &Config, token: &str, now: u64) -> (r:
        Result<HelperStatusResponse, ApiError>)
        requires
            store.wf(),
        ensures
            token_claims_spec(cfg.jwt_secret@, token@, now) is None ==> (r matches Err(
                ApiError::Unauthorized(m),
            ) && m@ == "Invalid or expired token"@),
            (token_claims_spec(cfg.jwt_secret@, token@, now) is Some && token_user(
                cfg.jwt_secret@,
                token@,
                now,
            ) is None) ==> (r matches Err(ApiError::Unauthorized(m)) && m@
                == "Invalid user ID format in token"@),
            token_user(cfg.jwt_secret@, token@, now) matches Some(uid) ==> (!user_exists(
                store@.users,
                uid,
            ) ==> (r matches Err(ApiError::NotFound(m)) && m@ == "User "@ + uuid_str_of(uid)
                + " not found in database"@)),
            token_user(cfg.jwt_secret@, token@, now) matches Some(uid) ==> (user_exists(
                store@.users,
                uid,
            ) ==> (match helper_index_of(store@.helper, uid) {
                Option::Some(i) => r matches Ok(resp) && resp.status
                    == store@.helper[i].helper_status && resp.message@
                    == "Helper status retrieved successfully"@,
                Option::None => r matches Ok(resp) && resp.status == false && resp.message@
                    == "No helper record found; returning default status."@,
            })),
    {
        let user = match get_user_from_token(store, cfg, token, now) {
            Ok(u) => u,
            Err(e) => {
                return Err(e);
            },
        };
        match find_helper_index(store, user.id) {
            Some(i) => Ok(
                HelperStatusResponse {
                    status: store.helper[i].helper_status,
                    message: "Helper status retrieved successfully".to_owned(),
                },
            ),
            None => Ok(
                HelperStatusResponse {
                    status: false,
                    message: "No helper record found; returning default status.".to_owned(),
                },
            ),
        }
    }
}

} // verus!
