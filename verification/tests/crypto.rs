use aes_gcm::aead::{Aead, KeyInit};
use aes_gcm::Aes256Gcm;
use base64::Engine;
use halopsa_mcp::crypto::{hash_token, TokenCipher};
use sha2::{Digest, Sha256};

fn seal_raw(secret: &str, nonce: [u8; 12], plaintext: &[u8]) -> String {
    let key = Sha256::digest(secret.as_bytes());
    let cipher = Aes256Gcm::new_from_slice(&key).unwrap();
    let ct = cipher.encrypt(aes_gcm::Nonce::from_slice(&nonce), plaintext).unwrap();
    let mut combined = nonce.to_vec();
    combined.extend_from_slice(&ct);
    base64::engine::general_purpose::STANDARD.encode(combined)
}

#[test]
fn encrypt_then_decrypt_gives_the_plaintext_back() {
    let c = TokenCipher::new("server-secret");
    for pt in ["", "halo-access-token", "ünïcödé 🎉"] {
        let enc = c.encrypt(pt);
        assert_eq!(c.decrypt(&enc), Ok(pt.to_string()));
    }
}

#[test]
fn each_encryption_uses_a_fresh_nonce() {
    let c = TokenCipher::new("k");
    let a = c.encrypt("same");
    let b = c.encrypt("same");
    assert_ne!(a, b);
    assert_eq!(c.decrypt(&a), Ok("same".to_string()));
    assert_eq!(c.decrypt(&b), Ok("same".to_string()));
}

#[test]
fn ciphertext_is_nonce_then_sealed_bytes_under_sha256_key() {
    // A value sealed by hand with SHA-256(secret) as the key decrypts.
    let enc = seal_raw("server-secret", [7u8; 12], b"tok");
    assert_eq!(TokenCipher::new("server-secret").decrypt(&enc), Ok("tok".to_string()));
    let enc = TokenCipher::new("server-secret").encrypt("abc");
    let raw = base64::engine::general_purpose::STANDARD.decode(enc).unwrap();
    assert_eq!(raw.len(), 12 + 3 + 16);
}

#[test]
fn decrypt_reports_bad_base64() {
    let e = TokenCipher::new("k").decrypt("!!!not base64").unwrap_err();
    assert!(e.starts_with("Base64 decode failed: "), "{e}");
}

#[test]
fn decrypt_reports_short_ciphertext() {
    let short = base64::engine::general_purpose::STANDARD.encode([1u8, 2, 3]);
    assert_eq!(TokenCipher::new("k").decrypt(&short), Err("Ciphertext too short".to_string()));
}

#[test]
fn decrypt_reports_wrong_key_and_tampering() {
    let enc = TokenCipher::new("one").encrypt("secret");
    assert_eq!(
        TokenCipher::new("two").decrypt(&enc),
        Err("Decryption failed: aead::Error".to_string())
    );
    let mut raw = base64::engine::general_purpose::STANDARD.decode(&enc).unwrap();
    let last = raw.len() - 1;
    raw[last] ^= 1;
    let tampered = base64::engine::general_purpose::STANDARD.encode(raw);
    assert_eq!(
        TokenCipher::new("one").decrypt(&tampered),
        Err("Decryption failed: aead::Error".to_string())
    );
}

#[test]
fn decrypt_reports_non_utf8_plaintext() {
    let enc = seal_raw("k", [0u8; 12], &[0xff, 0xfe]);
    let e = TokenCipher::new("k").decrypt(&enc).unwrap_err();
    assert!(e.starts_with("UTF-8 decode failed: "), "{e}");
}

#[test]
fn token_hash_is_hex_sha256() {
    assert_eq!(
        hash_token("abc"),
        "ba7816bf8f01cfea414140de5dae2223b00361a396177a9cb410ff61f20015ad"
    );
    assert_eq!(
        hash_token(""),
        "e3b0c44298fc1c149afbf4c8996fb92427ae41e4649b934ca495991b7852b855"
    );
}

#[test]
fn decrypt_of_three_encoded_bytes_is_too_short() {
    // "AAAA" is valid Base64 for three zero bytes, fewer than a nonce.
    assert_eq!(TokenCipher::new("k").decrypt("AAAA"), Err("Ciphertext too short".to_string()));
}
