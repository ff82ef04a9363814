//! Credential cipher: authenticated encryption of short secret strings with a
//! fixed 32-byte key, a fresh random 12-byte nonce per message, and base64 wire
//! encoding of `nonce || ciphertext_and_tag`.

use vstd::prelude::*;
use vstd::slice::slice_subrange;
use vstd::utf8::{decode_utf8, encode_utf8, valid_utf8};
use aes_gcm::aead::{Aead, Generate};
use aes_gcm::KeyInit;
use base64::Engine;

verus! {

/// How the credential cipher can fail.
#[derive(Debug, Clone, Copy, PartialEq, Eq, Structural)]
pub enum CipherError {
    /// Encrypting failed (nonce generation or the cipher itself).
    EncryptionFailed,
    /// The wire string is not valid base64.
    DecodeError,
    /// The decoded payload is shorter than a nonce.
    MalformedPayload,
    /// The authentication tag check failed: wrong key, corrupted or truncated data.
    AuthenticationFailed,
    /// The recovered bytes are not valid text.
    EncodingError,
}

/// The AES-256-GCM ciphertext (with appended tag) for the given key, nonce and
/// plaintext bytes.
pub uninterp spec fn aead_seal(key: Seq<u8>, nonce: Seq<u8>, plaintext: Seq<u8>) -> Seq<u8>;

/// What AES-256-GCM decryption yields for the given key, nonce and ciphertext:
/// the plaintext bytes, or nothing when the tag check fails.
pub uninterp spec fn aead_open(key: Seq<u8>, nonce: Seq<u8>, ciphertext: Seq<u8>) -> Option<Seq<u8>>;

/// The standard (padded) base64 encoding of the given bytes.
pub uninterp spec fn b64_of(bytes: Seq<u8>) -> Seq<char>;

/// What standard base64 decoding yields for the given string, or nothing when
/// the string is not valid base64.
pub uninterp spec fn b64_parse(s: Seq<char>) -> Option<Seq<u8>>;

/// Relies on `Generate::try_generate` for `aes_gcm` nonces: a random 96-bit
/// nonce from the system RNG. Nothing is assumed of the value beyond its length.
#[verifier::external_body]
fn generate_nonce_bytes() -> (r: Option<Vec<u8>>)
    ensures
        r matches Some(v) ==> v@.len() == 12,
{
    match <aes_gcm::aead::Nonce<aes_gcm::Aes256Gcm> as Generate>::try_generate() {
        Ok(n) => Some(n.as_slice().to_vec()),
        Err(_) => None,
    }
}

/// Relies on `aes_gcm::Aes256Gcm::encrypt`: the ciphertext-with-tag is a
/// function of key, nonce and plaintext alone, named `aead_seal`.
#[verifier::external_body]
fn aead_encrypt(key: &[u8], nonce: &[u8], plaintext: &[u8]) -> (r: Option<Vec<u8>>)
    requires
        key@.len() == 32,
        nonce@.len() == 12,
    ensures
        r matches Some(ct) ==> ct@ == aead_seal(key@, nonce@, plaintext@),
        r matches Some(ct) ==> ct@.len() == plaintext@.len() + 16,
{
    let key_arr: &aes_gcm::Key<aes_gcm::Aes256Gcm> = key.try_into().unwrap();
    let cipher = aes_gcm::Aes256Gcm::new(key_arr);
    let nonce_arr: &aes_gcm::aead::Nonce<aes_gcm::Aes256Gcm> = nonce.try_into().unwrap();
    cipher.encrypt(nonce_arr, plaintext).ok()
}

/// Relies on `aes_gcm::Aes256Gcm::decrypt`: deterministic in key, nonce and
/// ciphertext (named `aead_open`), the inverse of `encrypt` on a sealed
/// ciphertext, and — the tag check — succeeding only on sealed ciphertexts.
#[verifier::external_body]
fn aead_decrypt(key: &[u8], nonce: &[u8], ciphertext: &[u8]) -> (r: Option<Vec<u8>>)
    requires
        key@.len() == 32,
        nonce@.len() == 12,
    ensures
        (r is Some) == (aead_open(key@, nonce@, ciphertext@) is Some),
        r matches Some(p) ==> aead_open(key@, nonce@, ciphertext@) == Some(p@),
        r matches Some(p) ==> ciphertext@ == aead_seal(key@, nonce@, p@),
        r is None ==> (forall|pt: Seq<u8>| ciphertext@ != aead_seal(key@, nonce@, pt)),
        r matches Some(p) ==> (forall|pt: Seq<u8>|
            ciphertext@ == aead_seal(key@, nonce@, pt) ==> p@ == pt),
{
    let key_arr: &aes_gcm::Key<aes_gcm::Aes256Gcm> = key.try_into().unwrap();
    let cipher = aes_gcm::Aes256Gcm::new(key_arr);
    let nonce_arr: &aes_gcm::aead::Nonce<aes_gcm::Aes256Gcm> = nonce.try_into().unwrap();
    cipher.decrypt(nonce_arr, ciphertext).ok()
}

/// Relies on `base64::engine::general_purpose::STANDARD.encode`: the encoding
/// is a function of the bytes alone, named `b64_of`.
#[verifier::external_body]
pub(crate) fn b64_encode(bytes: &[u8]) -> (r: String)
    ensures
        r@ == b64_of(bytes@),
{
    base64::engine::general_purpose::STANDARD.encode(bytes)
}

/// Relies on `base64::engine::general_purpose::STANDARD.decode`: deterministic
/// in the input string (named `b64_parse`), the inverse of `encode`, and —
/// padding and trailing bits required canonical — accepting only strings that
/// are themselves encodings.
#[verifier::external_body]
fn b64_decode(s: &str) -> (r: Option<Vec<u8>>)
    ensures
        (r is Some) == (b64_parse(s@) is Some),
        r matches Some(v) ==> b64_parse(s@) == Some(v@),
        r matches Some(v) ==> s@ == b64_of(v@),
        r is None ==> (forall|bs: Seq<u8>| s@ != b64_of(bs)),
        r matches Some(v) ==> (forall|bs: Seq<u8>| s@ == b64_of(bs) ==> v@ == bs),
{
    base64::engine::general_purpose::STANDARD.decode(s).ok()
}

/// Relies on `String::from_utf8`: succeeds exactly on valid UTF-8 and returns
/// the decoded characters (`vstd`'s own UTF-8 model states both sides).
#[verifier::external_body]
fn string_from_utf8(bytes: Vec<u8>) -> (r: Option<String>)
    ensures
        r is Some <==> valid_utf8(bytes@),
        r matches Some(s) ==> s@ == decode_utf8(bytes@),
{
    String::from_utf8(bytes).ok()
}

/// The wire form that `encrypt` produces for plaintext `p` under `key` when the
/// fresh nonce came out as `nonce`.
pub open spec fn sealed_token(key: Seq<u8>, nonce: Seq<u8>, p: Seq<char>) -> Seq<char> {
    b64_of(nonce + aead_seal(key, nonce, encode_utf8(p)))
}

/// Whether `tok` is a possible encryption of `p` under `key` (for some nonce).
pub open spec fn is_encryption_of(key: Seq<u8>, tok: Seq<char>, p: Seq<char>) -> bool {
    exists|nonce: Seq<u8>| nonce.len() == 12 && tok == sealed_token(key, nonce, p)
}

/// What `decrypt` returns for a given key and wire string.
pub open spec fn decrypt_spec(key: Seq<u8>, token: Seq<char>) -> Result<Seq<char>, CipherError> {
    match b64_parse(token) {
        Option::None => Err(CipherError::DecodeError),
        Option::Some(bytes) => {
            if bytes.len() < 12 {
                Err(CipherError::MalformedPayload)
            } else {
                match aead_open(key, bytes.subrange(0, 12), bytes.subrange(12, bytes.len() as int)) {
                    Option::None => Err(CipherError::AuthenticationFailed),
                    Option::Some(pt) => {
                        if valid_utf8(pt) {
                            Ok(decode_utf8(pt))
                        } else {
                            Err(CipherError::EncodingError)
                        }
                    },
                }
            }
        },
    }
}

/// Encrypts `plain_text` under `key` with a fresh random nonce; the result is
/// base64 of `nonce || ciphertext_and_tag`.
pub fn encrypt(key: &[u8], plain_text: &str) -> (r: Result<String, CipherError>)
    requires
        key@.len() == 32,
    ensures
        r matches Ok(tok) ==> is_encryption_of(key@, tok@, plain_text@),
        r matches Ok(tok) ==> (exists|nonce: Seq<u8>|
            nonce.len() == 12 && tok@ == sealed_token(key@, nonce, plain_text@) && aead_seal(
                key@,
                nonce,
                encode_utf8(plain_text@),
            ).len() == encode_utf8(plain_text@).len() + 16),
        r matches Err(e) ==> e == CipherError::EncryptionFailed,
{
    let nonce = match generate_nonce_bytes() {
        Some(v) => v,
        None => {
            return Err(CipherError::EncryptionFailed);
        },
    };
    let ct = match aead_encrypt(key, nonce.as_slice(), plain_text.as_bytes()) {
        Some(v) => v,
        None => {
            return Err(CipherError::EncryptionFailed);
        },
    };
    let ghost nonce_bytes: Seq<u8> = nonce@;
    let mut combined = nonce;
    let n: usize = ct.len();
    let mut i: usize = 0;
    while i < n
        invariant
            0 <= i <= n,
            n == ct@.len(),
            combined@ == nonce_bytes + ct@.take(i as int),
        decreases n - i,
    {
        combined.push(ct[i]);
        proof {
            assert(nonce_bytes + ct@.take(i as int) + seq![ct@[i as int]] =~= nonce_bytes
                + ct@.take(i + 1));
        }
        i = i + 1;
    }
    proof {
        assert(combined@ =~= nonce_bytes + ct@);
    }
    let tok = b64_encode(combined.as_slice());
    proof {
        assert(tok@ == sealed_token(key@, nonce_bytes, plain_text@));
        assert(aead_seal(key@, nonce_bytes, encode_utf8(plain_text@)).len() == encode_utf8(
            plain_text@,
        ).len() + 16);
    }
    Ok(tok)
}

/// Decrypts a wire string produced by `encrypt`. Exactly mirrors
/// `decrypt_spec`; recovers the plaintext from any possible encryption of it
/// under the same key; and succeeds only on a genuine encryption, so a
/// tampered payload is rejected and no garbage text ever comes back.
pub fn decrypt(key: &[u8], encoded: &str) -> (r: Result<String, CipherError>)
    requires
        key@.len() == 32,
    ensures
        r matches Ok(p) ==> decrypt_spec(key@, encoded@) == Ok::<Seq<char>, CipherError>(p@),
        r matches Err(e) ==> decrypt_spec(key@, encoded@) == Err::<Seq<char>, CipherError>(e),
        forall|p: Seq<char>| is_encryption_of(key@, encoded@, p) ==> (r matches Ok(s) && s@ == p),
        r matches Ok(s) ==> is_encryption_of(key@, encoded@, s@),
{
    let combined = match b64_decode(encoded) {
        Some(v) => v,
        None => {
            proof {
                assert forall|p: Seq<char>| !is_encryption_of(key@, encoded@, p) by {
                    if is_encryption_of(key@, encoded@, p) {
                        let nonce = choose|nonce: Seq<u8>|
                            nonce.len() == 12 && encoded@ == sealed_token(key@, nonce, p);
                        assert(encoded@ == b64_of(nonce + aead_seal(key@, nonce, encode_utf8(p))));
                    }
                }
            }
            return Err(CipherError::DecodeError);
        },
    };
    let ghost wit = |p: Seq<char>|
        choose|nonce: Seq<u8>| nonce.len() == 12 && encoded@ == sealed_token(key@, nonce, p);
    proof {
        assert forall|p: Seq<char>| is_encryption_of(key@, encoded@, p) implies combined@ == wit(p)
            + aead_seal(key@, wit(p), encode_utf8(p)) && wit(p).len() == 12 by {
            assert(encoded@ == b64_of(wit(p) + aead_seal(key@, wit(p), encode_utf8(p))));
        }
    }
    if combined.len() < 12 {
        return Err(CipherError::MalformedPayload);
    }
    let nonce = slice_subrange(combined.as_slice(), 0, 12);
    let ct = slice_subrange(combined.as_slice(), 12, combined.len());
    proof {
        assert forall|p: Seq<char>| is_encryption_of(key@, encoded@, p) implies nonce@ == wit(p)
            && ct@ == aead_seal(key@, wit(p), encode_utf8(p)) by {
            assert(nonce@ =~= wit(p));
            assert(ct@ =~= aead_seal(key@, wit(p), encode_utf8(p)));
        }
    }
    let pt = match aead_decrypt(key, nonce, ct) {
        Some(v) => v,
        None => {
            return Err(CipherError::AuthenticationFailed);
        },
    };
    let ghost pt_bytes: Seq<u8> = pt@;
    proof {
        assert forall|p: Seq<char>| is_encryption_of(key@, encoded@, p) implies pt_bytes
            == encode_utf8(p) by {
            assert(ct@ == aead_seal(key@, nonce@, encode_utf8(p)));
        }
    }
    match string_from_utf8(pt) {
        Some(s) => {
            proof {
                assert forall|p: Seq<char>| is_encryption_of(key@, encoded@, p) implies s@ == p by {
                    vstd::utf8::encode_utf8_decode_utf8(p);
                }
                vstd::utf8::decode_utf8_encode_utf8(pt_bytes);
                assert(combined@ =~= nonce@ + ct@);
                assert(encoded@ == b64_of(combined@));
                assert(ct@ == aead_seal(key@, nonce@, encode_utf8(s@)));
                assert(encoded@ == sealed_token(key@, nonce@, s@));
                assert(nonce@.len() == 12);
            }
            Ok(s)
        },
        None => {
            proof {
                assert forall|p: Seq<char>| !is_encryption_of(key@, encoded@, p) by {
                    if is_encryption_of(key@, encoded@, p) {
                        vstd::utf8::encode_utf8_valid_utf8(p);
                    }
                }
            }
            Err(CipherError::EncodingError)
        },
    }
}

} // verus!
