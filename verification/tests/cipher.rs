use smart_memo::cipher::{decrypt, encrypt, CipherError};

const KEY: &[u8] = b"01234567890123456789012345678901";

#[test]
fn encrypt_then_decrypt_recovers_plaintext() {
    let token = encrypt(KEY, "my-secret-api-key").unwrap();
    let back = decrypt(KEY, token.as_str()).unwrap();
    assert_eq!(back, "my-secret-api-key");
}

#[test]
fn encrypt_empty_string_roundtrips() {
    let token = encrypt(KEY, "").unwrap();
    assert_eq!(decrypt(KEY, token.as_str()).unwrap(), "");
}

#[test]
fn encrypt_twice_differs() {
    let a = encrypt(KEY, "same plaintext").unwrap();
    let b = encrypt(KEY, "same plaintext").unwrap();
    assert_ne!(a, b);
}

#[test]
fn decrypt_rejects_invalid_base64() {
    let r = decrypt(KEY, "!!!not base64!!!");
    assert!(matches!(r, Err(CipherError::DecodeError)));
}

#[test]
fn decrypt_rejects_short_payload() {
    // "c2hvcnQ=" decodes to the five bytes of "short": fewer than a nonce.
    let r = decrypt(KEY, "c2hvcnQ=");
    assert!(matches!(r, Err(CipherError::MalformedPayload)));
}

#[test]
fn decrypt_rejects_flipped_bits() {
    let token = encrypt(KEY, "tamper with me").unwrap();
    let mut chars: Vec<char> = token.chars().collect();
    // Flip one character in the middle to another base64 alphabet character.
    let mid = chars.len() / 2;
    chars[mid] = if chars[mid] == 'A' { 'B' } else { 'A' };
    let tampered: String = chars.into_iter().collect();
    let r = decrypt(KEY, tampered.as_str());
    assert!(matches!(
        r,
        Err(CipherError::AuthenticationFailed) | Err(CipherError::DecodeError)
    ));
}

#[test]
fn decrypt_with_wrong_key_fails() {
    let token = encrypt(KEY, "locked").unwrap();
    let other: &[u8] = b"abcdefghijklmnopqrstuvwxyz012345";
    let r = decrypt(other, token.as_str());
    assert!(matches!(r, Err(CipherError::AuthenticationFailed)));
}

#[test]
fn decrypt_never_returns_garbage_on_corruption() {
    let token = encrypt(KEY, "precious").unwrap();
    for i in 0..token.len() {
        let mut chars: Vec<char> = token.chars().collect();
        chars[i] = if chars[i] == 'x' { 'y' } else { 'x' };
        let tampered: String = chars.into_iter().collect();
        if let Ok(p) = decrypt(KEY, tampered.as_str()) {
            // The only admissible success is the true plaintext (e.g. when the
            // flip hit a base64 character that decodes identically).
            assert_eq!(p, "precious");
        }
    }
}
