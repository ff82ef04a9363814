//! Generation gateway: shapes the request body for the four generation
//! operations (transcribe, translate, summarize, title), resolves the
//! per-user decrypted key, and extracts the text from a reply. The HTTP
//! exchange itself happens outside the library.

use vstd::prelude::*;
use crate::cipher::{b64_encode, b64_of, decrypt, decrypt_spec, is_encryption_of, CipherError};
use crate::memo_api_store_ops::{get_user_from_token, helper_index_of};
use crate::store::Store;
use crate::text::{is_space_char, space_char};
use crate::token::token_user;
use crate::Config;

verus! {

/// The body of a transcription request.
pub struct AudioBufferRequest {
    pub audio_bytes: Vec<u8>,
}

/// The body of a translation request.
pub struct TranslateRequest {
    pub lang: String,
    pub text: String,
}

/// The body of a title-generation request.
pub struct GenerateTitle {
    pub transcript: String,
}

/// The body of a summarization request.
pub struct SummaryRequest {
    pub text: String,
}

/// A fully shaped upstream call: the JSON body to post and the caller's
/// decrypted key to send as the query credential.
#[derive(Debug)]
pub struct PreparedGeneration {
    pub body: String,
    pub api_key: String,
}

// --- trimming ---
/// `s` with leading whitespace removed.
pub open spec fn trim_front(s: Seq<char>) -> Seq<char>
    decreases s.len(),
{
    if s.len() > 0 && is_space_char(s[0]) {
        trim_front(s.drop_first())
    } else {
        s
    }
}

/// `s` with trailing whitespace removed.
pub open spec fn trim_back(s: Seq<char>) -> Seq<char>
    decreases s.len(),
{
    if s.len() > 0 && is_space_char(s.last()) {
        trim_back(s.drop_last())
    } else {
        s
    }
}

/// `s` with whitespace removed from both ends.
pub open spec fn trim_spec(s: Seq<char>) -> Seq<char> {
    trim_back(trim_front(s))
}

proof fn lemma_trim_front_skip(s: Seq<char>, k: int)
    requires
        0 <= k <= s.len(),
        forall|j: int| 0 <= j < k ==> is_space_char(s[j]),
        k == s.len() || !is_space_char(s[k]),
    ensures
        trim_front(s) == s.skip(k),
    decreases k,
{
    if k == 0 {
        assert(s.skip(0) =~= s);
    } else {
        assert(is_space_char(s[0]));
        lemma_trim_front_skip(s.drop_first(), k - 1);
        assert(s.drop_first().skip(k - 1) =~= s.skip(k));
    }
}

proof fn lemma_trim_back_take(s: Seq<char>, k: int)
    requires
        0 <= k <= s.len(),
        forall|j: int| k <= j < s.len() ==> is_space_char(s[j]),
        k == 0 || !is_space_char(s[k - 1]),
    ensures
        trim_back(s) == s.take(k),
    decreases s.len() - k,
{
    if k == s.len() {
        assert(s.take(k) =~= s);
    } else {
        assert(is_space_char(s.last()));
        lemma_trim_back_take(s.drop_last(), k);
        assert(s.drop_last().take(k) =~= s.take(k));
    }
}

/// Removes whitespace from both ends of the string.
pub fn trim_str(s: &str) -> (r: String)
    ensures
        r@ == trim_spec(s@),
{
    let n: usize = s.unicode_len();
    let mut start: usize = 0;
    while start < n && space_char(s.get_char(start))
        invariant
            0 <= start <= n,
            n == s@.len(),
            forall|j: int| 0 <= j < start ==> is_space_char(s@[j]),
        decreases n - start,
    {
        start = start + 1;
    }
    let mut end: usize = n;
    while end > start && space_char(s.get_char(end - 1))
        invariant
            start <= end <= n,
            n == s@.len(),
            forall|j: int| end <= j < n ==> is_space_char(s@[j]),
        decreases end,
    {
        end = end - 1;
    }
    let sub = s.substring_char(start, end);
    proof {
        lemma_trim_front_skip(s@, start as int);
        let f = s@.skip(start as int);
        lemma_trim_back_take(f, end - start);
        assert(f.take(end - start) =~= s@.subrange(start as int, end as int));
    }
    sub.to_owned()
}

// --- JSON string escaping for the request bodies the gateway builds ---
/// The lower-case hex digit for `d`.
pub open spec fn hex_char(d: int) -> char {
    seq!['0', '1', '2', '3', '4', '5', '6', '7', '8', '9', 'a', 'b', 'c', 'd', 'e', 'f'][d]
}

/// How one character appears inside a JSON string literal: quotes and
/// backslashes escaped, control characters as `\u00XX`.
pub open spec fn esc_char(c: char) -> Seq<char> {
    if c == '"' {
        seq!['\\', '"']
    } else if c == '\\' {
        seq!['\\', '\\']
    } else if (c as u32) < 32 {
        seq!['\\', 'u', '0', '0', hex_char((c as u32) as int / 16), hex_char((c as u32) as int % 16)]
    } else {
        seq![c]
    }
}

/// The JSON-escaped form of a string.
pub open spec fn json_escaped(s: Seq<char>) -> Seq<char>
    decreases s.len(),
{
    if s.len() == 0 {
        Seq::<char>::empty()
    } else {
        json_escaped(s.drop_last()) + esc_char(s.last())
    }
}

fn hex_str(d: u32) -> (r: &'static str)
    requires
        d < 16,
    ensures
        r@ == seq![hex_char(d as int)],
{
    let r: &'static str = match d {
        0 => "0",
        1 => "1",
        2 => "2",
        3 => "3",
        4 => "4",
        5 => "5",
        6 => "6",
        7 => "7",
        8 => "8",
        9 => "9",
        10 => "a",
        11 => "b",
        12 => "c",
        13 => "d",
        14 => "e",
        _ => "f",
    };
    proof {
        reveal_strlit("0");
        reveal_strlit("1");
        reveal_strlit("2");
        reveal_strlit("3");
        reveal_strlit("4");
        reveal_strlit("5");
        reveal_strlit("6");
        reveal_strlit("7");
        reveal_strlit("8");
        reveal_strlit("9");
        reveal_strlit("a");
        reveal_strlit("b");
        reveal_strlit("c");
        reveal_strlit("d");
        reveal_strlit("e");
        reveal_strlit("f");
        assert(r@ =~= seq![hex_char(d as int)]);
    }
    r
}

/// Escapes a string for inclusion in a JSON string literal.
pub fn json_escape(s: &str) -> (r: String)
    ensures
        r@ == json_escaped(s@),
{
    let n: usize = s.unicode_len();
    let mut out = String::new();
    let mut i: usize = 0;
    proof {
        assert(s@.take(0) =~= Seq::<char>::empty());
    }
    while i < n
        invariant
            0 <= i <= n,
            n == s@.len(),
            out@ == json_escaped(s@.take(i as int)),
        decreases n - i,
    {
        let c = s.get_char(i);
        if c == '"' {
            out.append("\\\"");
            proof {
                reveal_strlit("\\\"");
                assert("\\\""@ =~= esc_char(c));
            }
        } else if c == '\\' {
            out.append("\\\\");
            proof {
                reveal_strlit("\\\\");
                assert("\\\\"@ =~= esc_char(c));
            }
        } else if (c as u32) < 32 {
            let code: u32 = c as u32;
            out.append("\\u00");
            out.append(hex_str(code / 16));
            out.append(hex_str(code % 16));
            proof {
                reveal_strlit("\\u00");
                assert("\\u00"@ + seq![hex_char(code as int / 16)] + seq![
                    hex_char(code as int % 16),
                ] =~= esc_char(c));
            }
        } else {
            out.append(s.substring_char(i, i + 1));
            proof {
                assert(s@.subrange(i as int, i + 1) =~= esc_char(c));
            }
        }
        proof {
            assert(s@.take(i + 1).drop_last() =~= s@.take(i as int));
            assert(s@.take(i + 1).last() == c);
        }
        i = i + 1;
    }
    proof {
        assert(s@.take(n as int) =~= s@);
    }
    out
}

// --- prompt and body shapes ---
/// The instruction sent for transcription.
pub open spec fn transcribe_instruction() -> Seq<char> {
    "Please transcribe this audio."@
}

/// The prompt sent for translation.
pub open spec fn translate_prompt_spec(lang: Seq<char>, text: Seq<char>) -> Seq<char> {
    "Translate the following text to "@ + lang
        + ". Return only the translated text without any extra formatting or explanation:\n\n"@
        + text
}

/// The prompt sent for summarization.
pub open spec fn summarize_prompt_spec(text: Seq<char>) -> Seq<char> {
    "Provide a concise summary of the following text. Keep it brief and capture the main points:\n\n"@
        + text
}

/// The prompt sent for title generation.
pub open spec fn title_prompt_spec(transcript: Seq<char>) -> Seq<char> {
    "Generate a short, descriptive title (2-4 words) for this voice memo based on its content. Return only the title:\n\n"@
        + transcript
}

/// A text part of the request content.
pub open spec fn text_part_spec(text: Seq<char>) -> Seq<char> {
    "{\"text\":\""@ + json_escaped(text) + "\"}"@
}

/// An inline-audio part of the request content (base64 WAV data).
pub open spec fn audio_part_spec(b64: Seq<char>) -> Seq<char> {
    "{\"inline_data\":{\"mime_type\":\"audio/wav\",\"data\":\""@ + b64 + "\"}}"@
}

/// A content envelope holding one part.
pub open spec fn content_one_spec(part: Seq<char>) -> Seq<char> {
    "{\"parts\":["@ + part + "]}"@
}

/// A content envelope holding two parts.
pub open spec fn content_two_spec(p1: Seq<char>, p2: Seq<char>) -> Seq<char> {
    "{\"parts\":["@ + p1 + ","@ + p2 + "]}"@
}

/// The full request body: the content wrapped in the `contents` list.
pub open spec fn request_body_spec(content: Seq<char>) -> Seq<char> {
    "{\"contents\":["@ + content + "]}"@
}

/// The body posted for transcription of the given audio bytes.
pub open spec fn transcribe_body_spec(audio: Seq<u8>) -> Seq<char> {
    request_body_spec(
        content_two_spec(
            text_part_spec(transcribe_instruction()),
            audio_part_spec(b64_of(audio)),
        ),
    )
}

/// The body posted for translation.
pub open spec fn translate_body_spec(lang: Seq<char>, text: Seq<char>) -> Seq<char> {
    request_body_spec(content_one_spec(text_part_spec(translate_prompt_spec(lang, text))))
}

/// The body posted for summarization.
pub open spec fn summarize_body_spec(text: Seq<char>) -> Seq<char> {
    request_body_spec(content_one_spec(text_part_spec(summarize_prompt_spec(text))))
}

/// The body posted for title generation.
pub open spec fn title_body_spec(transcript: Seq<char>) -> Seq<char> {
    request_body_spec(content_one_spec(text_part_spec(title_prompt_spec(transcript))))
}

fn text_part(text: &str) -> (r: String)
    ensures
        r@ == text_part_spec(text@),
{
    let mut s = "{\"text\":\"".to_owned();
    s.append(json_escape(text).as_str());
    s.append("\"}");
    s
}

/// Wraps a single content object in the request body envelope.
pub fn gemini_request_body(content: &str) -> (r: String)
    ensures
        r@ == request_body_spec(content@),
{
    let mut s = "{\"contents\":[".to_owned();
    s.append(content);
    s.append("]}");
    s
}

/// Builds the transcription request body: instruction plus inline audio.
pub fn transcribe_request_body(audio_bytes: &Vec<u8>) -> (r: String)
    ensures
        r@ == transcribe_body_spec(audio_bytes@),
{
    let mut content = "{\"parts\":[".to_owned();
    content.append(text_part("Please transcribe this audio.").as_str());
    content.append(",");
    content.append("{\"inline_data\":{\"mime_type\":\"audio/wav\",\"data\":\"");
    content.append(b64_encode(audio_bytes.as_slice()).as_str());
    content.append("\"}}");
    content.append("]}");
    gemini_request_body(content.as_str())
}

/// Builds the translation request body.
pub fn translate_request_body(text: &str, target_lang: &str) -> (r: String)
    ensures
        r@ == translate_body_spec(target_lang@, text@),
{
    let mut prompt = "Translate the following text to ".to_owned();
    prompt.append(target_lang);
    prompt.append(
        ". Return only the translated text without any extra formatting or explanation:\n\n",
    );
    prompt.append(text);
    let mut content = "{\"parts\":[".to_owned();
    content.append(text_part(prompt.as_str()).as_str());
    content.append("]}");
    gemini_request_body(content.as_str())
}

/// Builds the summarization request body.
pub fn summarize_request_body(text: &str) -> (r: String)
    ensures
        r@ == summarize_body_spec(text@),
{
    let mut prompt =
        "Provide a concise summary of the following text. Keep it brief and capture the main points:\n\n".to_owned();
    prompt.append(text);
    let mut content = "{\"parts\":[".to_owned();
    content.append(text_part(prompt.as_str()).as_str());
    content.append("]}");
    gemini_request_body(content.as_str())
}

/// Builds the title-generation request body.
pub fn title_request_body(transcript: &str) -> (r: String)
    ensures
        r@ == title_body_spec(transcript@),
{
    let mut prompt =
        "Generate a short, descriptive title (2-4 words) for this voice memo based on its content. Return only the title:\n\n".to_owned();
    prompt.append(transcript);
    let mut content = "{\"parts\":[".to_owned();
    content.append(text_part(prompt.as_str()).as_str());
    content.append("]}");
    gemini_request_body(content.as_str())
}

/// The text at `candidates[0].content.parts[0].text` of a reply body, or
/// nothing when the body does not have that exact shape.
pub uninterp spec fn candidate_text_of(body: Seq<char>) -> Option<Seq<char>>;

/// Relies on `serde_json` (`from_str`, `Value::get`, `Value::as_str`): the
/// first candidate's first part's text, a function of the body alone, named
/// `candidate_text_of`.
#[verifier::external_body]
fn candidate_text(body: &str) -> (r: Option<String>)
    ensures
        (r is Some) == (candidate_text_of(body@) is Some),
        r matches Some(t) ==> candidate_text_of(body@) == Some(t@),
{
    let v: serde_json::Value = serde_json::from_str(body).ok()?;
    let t = v.get("candidates")?.get(0)?.get("content")?.get("parts")?.get(0)?.get("text")?
        .as_str()?;
    Some(t.to_string())
}

/// Shapes an upstream reply: a failure status surfaces the body verbatim, a
/// success is parsed for the first candidate's text, which is trimmed.
pub fn gemini_extract(success: bool, body: &str) -> (r: Result<String, String>)
    ensures
        !success ==> (r matches Err(m) && m@ == "Gemini API request failed: "@ + body@),
        success ==> (match candidate_text_of(body@) {
            Option::Some(t) => r matches Ok(s) && s@ == trim_spec(t),
            Option::None => r matches Err(m) && m@
                == "Failed to parse Gemini API response. Full response: "@ + body@,
        }),
{
    if !success {
        let mut m = "Gemini API request failed: ".to_owned();
        m.append(body);
        return Err(m);
    }
    match candidate_text(body) {
        Some(t) => Ok(trim_str(t.as_str())),
        None => {
            let mut m = "Failed to parse Gemini API response. Full response: ".to_owned();
            m.append(body);
            Err(m)
        },
    }
}

/// Resolves the requester's decrypted Gemini key: the credential row must
/// exist, hold a key, and the key must decrypt.
pub fn get_decrypted_gemini_key(store: &Store, cfg: &Config, user_id: u128) -> (r: Result<
    String,
    String,
>)
    requires
        store.wf(),
        cfg.wf(),
    ensures
        (match helper_index_of(store@.helper, user_id) {
            Option::None => r matches Err(m) && m@ == "Gemini API key not found for this user"@,
            Option::Some(i) => (match store@.helper[i].gemini_key {
                Option::None => r matches Err(m) && m@ == "Failed to decrypt Gemini API key"@,
                Option::Some(ct) => ({
                    &&& (match decrypt_spec(cfg.cipher_key@, ct) {
                        Result::<Seq<char>, CipherError>::Ok(p) => r matches Ok(s) && s@ == p,
                        Result::<Seq<char>, CipherError>::Err(_) => r matches Err(m) && m@
                            == "Failed to decrypt Gemini API key"@,
                    })
                    &&& (forall|p: Seq<char>|
                        is_encryption_of(cfg.cipher_key@, ct, p) ==> (r matches Ok(s) && s@ == p))
                }),
            }),
        }),
{
    let i = match crate::memo_api_store_ops::find_helper_index(store, user_id) {
        Some(i) => i,
        None => {
            return Err("Gemini API key not found for this user".to_owned());
        },
    };
    match &store.helper[i].gemini_key {
        Some(ct) => match decrypt(cfg.cipher_key.as_slice(), ct.as_str()) {
            Ok(p) => Ok(p),
            Err(_) => Err("Failed to decrypt Gemini API key".to_owned()),
        },
        None => Err("Failed to decrypt Gemini API key".to_owned()),
    }
}

/// The generation endpoints: each authenticates, resolves the key, and shapes
/// the upstream request; the caller performs the exchange and hands the reply
/// to `gemini_extract`.
pub struct GeminiApi;

impl GeminiApi {
    /// Prepares a transcription call for the given audio.
    pub fn transcribe_audio(
        &self,
        store: &Store,
        cfg: &Config,
        token: &str,
        now: u64,
        payload: &AudioBufferRequest,
    ) -> (r: Result<PreparedGeneration, String>)
        requires
            store.wf(),
            cfg.wf(),
        ensures
            (r is Ok) == (generation_key_spec(
                store@,
                cfg.cipher_key@,
                cfg.jwt_secret@,
                token@,
                now,
            ) is Some),
            r matches Ok(p) ==> p.body@ == transcribe_body_spec(payload.audio_bytes@)
                && generation_key_spec(store@, cfg.cipher_key@, cfg.jwt_secret@, token@, now)
                == Some(p.api_key@),
            resolved_key_inverts_encryption(
                store@,
                cfg.cipher_key@,
                cfg.jwt_secret@,
                token@,
                now,
                (match r {
                    Result::<PreparedGeneration, String>::Ok(ref p) => Option::Some(p.api_key@),
                    Result::<PreparedGeneration, String>::Err(_) => Option::None,
                }),
            ),
            r matches Err(m) ==> m@ == generation_err_spec(store@, cfg.jwt_secret@, token@, now),
    {
        let key = match Self::resolve_key(store, cfg, token, now) {
            Ok(k) => k,
            Err(m) => {
                return Err(m);
            },
        };
        Ok(
            PreparedGeneration {
                body: transcribe_request_body(&payload.audio_bytes),
                api_key: key,
            },
        )
    }

    /// Prepares a translation call.
    pub fn gemini_translate(
        &self,
        store: &Store,
        cfg: &Config,
        token: &str,
        now: u64,
        payload: &TranslateRequest,
    ) -> (r: Result<PreparedGeneration, String>)
        requires
            store.wf(),
            cfg.wf(),
        ensures
            (r is Ok) == (generation_key_spec(
                store@,
                cfg.cipher_key@,
                cfg.jwt_secret@,
                token@,
                now,
            ) is Some),
            r matches Ok(p) ==> p.body@ == translate_body_spec(payload.lang@, payload.text@)
                && generation_key_spec(store@, cfg.cipher_key@, cfg.jwt_secret@, token@, now)
                == Some(p.api_key@),
            resolved_key_inverts_encryption(
                store@,
                cfg.cipher_key@,
                cfg.jwt_secret@,
                token@,
                now,
                (match r {
                    Result::<PreparedGeneration, String>::Ok(ref p) => Option::Some(p.api_key@),
                    Result::<PreparedGeneration, String>::Err(_) => Option::None,
                }),
            ),
            r matches Err(m) ==> m@ == generation_err_spec(store@, cfg.jwt_secret@, token@, now),
    {
        let key = match Self::resolve_key(store, cfg, token, now) {
            Ok(k) => k,
            Err(m) => {
                return Err(m);
            },
        };
        Ok(
            PreparedGeneration {
                body: translate_request_body(payload.text.as_str(), payload.lang.as_str()),
                api_key: key,
            },
        )
    }

    /// Prepares a summarization call.
    pub fn gemini_client(
        &self,
        store: &Store,
        cfg: &Config,
        token: &str,
        now: u64,
        payload: &SummaryRequest,
    ) -> (r: Result<PreparedGeneration, String>)
        requires
            store.wf(),
            cfg.wf(),
        ensures
            (r is Ok) == (generation_key_spec(
                store@,
                cfg.cipher_key@,
                cfg.jwt_secret@,
                token@,
                now,
            ) is Some),
            r matches Ok(p) ==> p.body@ == summarize_body_spec(payload.text@)
                && generation_key_spec(store@, cfg.cipher_key@, cfg.jwt_secret@, token@, now)
                == Some(p.api_key@),
            resolved_key_inverts_encryption(
                store@,
                cfg.cipher_key@,
                cfg.jwt_secret@,
                token@,
                now,
                (match r {
                    Result::<PreparedGeneration, String>::Ok(ref p) => Option::Some(p.api_key@),
                    Result::<PreparedGeneration, String>::Err(_) => Option::None,
                }),
            ),
            r matches Err(m) ==> m@ == generation_err_spec(store@, cfg.jwt_secret@, token@, now),
    {
        let key = match Self::resolve_key(store, cfg, token, now) {
            Ok(k) => k,
            Err(m) => {
                return Err(m);
            },
        };
        Ok(
            PreparedGeneration {
                body: summarize_request_body(payload.text.as_str()),
                api_key: key,
            },
        )
    }

    /// Prepares a title-generation call.
    pub fn gemini_generate_memo_name(
        &self,
        store: &Store,
        cfg: &Config,
        token: &str,
        now: u64,
        payload: &GenerateTitle,
    ) -> (r: Result<PreparedGeneration, String>)
        requires
            store.wf(),
            cfg.wf(),
        ensures
            (r is Ok) == (generation_key_spec(
                store@,
                cfg.cipher_key@,
                cfg.jwt_secret@,
                token@,
                now,
            ) is Some),
            r matches Ok(p) ==> p.body@ == title_body_spec(payload.transcript@)
                && generation_key_spec(store@, cfg.cipher_key@, cfg.jwt_secret@, token@, now)
                == Some(p.api_key@),
            resolved_key_inverts_encryption(
                store@,
                cfg.cipher_key@,
                cfg.jwt_secret@,
                token@,
                now,
                (match r {
                    Result::<PreparedGeneration, String>::Ok(ref p) => Option::Some(p.api_key@),
                    Result::<PreparedGeneration, String>::Err(_) => Option::None,
                }),
            ),
            r matches Err(m) ==> m@ == generation_err_spec(store@, cfg.jwt_secret@, token@, now),
    {
        let key = match Self::resolve_key(store, cfg, token, now) {
            Ok(k) => k,
            Err(m) => {
                return Err(m);
            },
        };
        Ok(
            PreparedGeneration {
                body: title_request_body(payload.transcript.as_str()),
                api_key: key,
            },
        )
    }

    /// Authenticates the requester and resolves the decrypted key, with the
    /// user-facing message on each failure.
    fn resolve_key(store: &Store, cfg: &Config, token: &str, now: u64) -> (r: Result<
        String,
        String,
    >)
        requires
            store.wf(),
            cfg.wf(),
        ensures
            (r is Ok) == (generation_key_spec(
                store@,
                cfg.cipher_key@,
                cfg.jwt_secret@,
                token@,
                now,
            ) is Some),
            r matches Ok(k) ==> generation_key_spec(
                store@,
                cfg.cipher_key@,
                cfg.jwt_secret@,
                token@,
                now,
            ) == Some(k@),
            resolved_key_inverts_encryption(
                store@,
                cfg.cipher_key@,
                cfg.jwt_secret@,
                token@,
                now,
                (match r {
                    Result::<String, String>::Ok(ref k) => Option::Some(k@),
                    Result::<String, String>::Err(_) => Option::None,
                }),
            ),
            r matches Err(m) ==> m@ == generation_err_spec(store@, cfg.jwt_secret@, token@, now),
    {
        let user = match get_user_from_token(store, cfg, token, now) {
            Ok(u) => u,
            Err(e) => {
                let mut m = "User fetch error: ".to_owned();
                m.append(e.message().as_str());
                return Err(m);
            },
        };
        get_decrypted_gemini_key(store, cfg, user.id)
    }
}

/// The user-facing message a failed key resolution produces, by cause: the
/// authentication message wrapped in "User fetch error: ", a missing
/// credential row, or a missing/undecryptable stored key (those two are
/// deliberately not distinguished).
pub open spec fn generation_err_spec(
    s: crate::store::StoreV,
    secret: Seq<u8>,
    token: Seq<char>,
    now: u64,
) -> Seq<char> {
    match crate::token::token_claims_spec(secret, token, now) {
        Option::None => "User fetch error: "@ + "Invalid or expired token"@,
        Option::Some(c) => match crate::ids::uuid_parse_of(c.0) {
            Option::None => "User fetch error: "@ + "Invalid user ID format in token"@,
            Option::Some(uid) => {
                if !crate::memo::user_exists(s.users, uid) {
                    "User fetch error: "@ + "User "@ + crate::ids::uuid_str_of(uid)
                        + " not found in database"@
                } else if helper_index_of(s.helper, uid) is None {
                    "Gemini API key not found for this user"@
                } else {
                    "Failed to decrypt Gemini API key"@
                }
            },
        },
    }
}

/// The decrypted Gemini key the gateway resolves for a request: the token
/// must verify, its subject must be an existing user, the user must have a
/// credential row holding a Gemini ciphertext, and the ciphertext must
/// decrypt.
pub open spec fn generation_key_spec(
    s: crate::store::StoreV,
    cipher_key: Seq<u8>,
    secret: Seq<u8>,
    token: Seq<char>,
    now: u64,
) -> Option<Seq<char>> {
    match token_user(secret, token, now) {
        Option::None => Option::None,
        Option::Some(uid) => {
            if !crate::memo::user_exists(s.users, uid) {
                Option::None
            } else {
                match helper_index_of(s.helper, uid) {
                    Option::None => Option::None,
                    Option::Some(i) => match s.helper[i].gemini_key {
                        Option::None => Option::None,
                        Option::Some(ct) => match decrypt_spec(cipher_key, ct) {
                            Result::<Seq<char>, CipherError>::Ok(p) => Option::Some(p),
                            Result::<Seq<char>, CipherError>::Err(_) => Option::None,
                        },
                    },
                }
            }
        },
    }
}

/// Whatever nonce the stored Gemini ciphertext was sealed with, a key the
/// gateway hands out for it is the sealed plaintext.
pub open spec fn resolved_key_inverts_encryption(
    s: crate::store::StoreV,
    cipher_key: Seq<u8>,
    secret: Seq<u8>,
    token: Seq<char>,
    now: u64,
    r: Option<Seq<char>>,
) -> bool {
    token_user(secret, token, now) matches Some(uid) ==> (crate::memo::user_exists(s.users, uid)
        ==> (match helper_index_of(s.helper, uid) {
        Option::Some(i) => (match s.helper[i].gemini_key {
            Option::Some(ct) => forall|p: Seq<char>|
                is_encryption_of(cipher_key, ct, p) ==> r == Option::Some(p),
            Option::None => true,
        }),
        Option::None => true,
    }))
}

} // verus!
