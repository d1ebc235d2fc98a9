use vstd::prelude::*;
use vstd::string::StringSliceAdditionalSpecFns;
use vstd::utf8::{decode_utf8, encode_utf8, valid_utf8};
use aes_gcm::aead::{Aead, AeadCore, KeyInit, OsRng};
use aes_gcm::Aes256Gcm;

use crate::digest::{base64_len_fits, base64_std_decode, base64_std_decoded, base64_std_encode, base64_std_encoded, sha256, sha256_hex, sha256_spec};
use crate::text::{concat_str, hex_lower};

verus! {

/// Largest plaintext AES-256-GCM accepts (`aes_gcm::P_MAX`, 2^36 bytes).
pub const AES_GCM_P_MAX: u64 = 68719476736;

/// Length of an AES-GCM nonce in bytes.
pub const NONCE_LEN: usize = 12;

/// The AES-256-GCM ciphertext (with its 16-byte tag appended) of a
/// plaintext under a key and nonce.
pub uninterp spec fn aes256gcm_seal(key: Seq<u8>, nonce: Seq<u8>, plaintext: Seq<u8>) -> Seq<u8>;

/// What AES-256-GCM decryption gives for a ciphertext under a key and nonce:
/// the plaintext, or `None` when authentication fails.
pub uninterp spec fn aes256gcm_open(key: Seq<u8>, nonce: Seq<u8>, ciphertext: Seq<u8>) -> Option<
    Seq<u8>,
>;

/// `Aes256Gcm::generate_nonce(&mut OsRng)`: twelve random bytes; nothing
/// else is said of them.
#[verifier::external_body]
fn random_nonce() -> (r: Vec<u8>)
    ensures
        r@.len() == NONCE_LEN,
{
    Aes256Gcm::generate_nonce(&mut OsRng).to_vec()
}

/// `Aes256Gcm::encrypt` with no associated data: the named ciphertext, the
/// plaintext's length plus the 16-byte tag, which decryption under the same
/// key and nonce turns back into the plaintext. The crate only refuses a
/// plaintext longer than `P_MAX`, which `requires` rules out.
#[verifier::external_body]
fn aes_seal(key: &[u8], nonce: &[u8], plaintext: &[u8]) -> (r: Vec<u8>)
    requires
        key@.len() == 32,
        nonce@.len() == NONCE_LEN,
        plaintext@.len() <= AES_GCM_P_MAX,
    ensures
        r@ == aes256gcm_seal(key@, nonce@, plaintext@),
        r@.len() == plaintext@.len() + 16,
        aes256gcm_open(key@, nonce@, r@) == Some(plaintext@),
{
    let cipher = Aes256Gcm::new(aes_gcm::Key::<Aes256Gcm>::from_slice(key));
    cipher.encrypt(aes_gcm::Nonce::from_slice(nonce), plaintext).expect("AES-GCM encryption failed")
}

/// `Aes256Gcm::decrypt` with no associated data: the named opening.
#[verifier::external_body]
fn aes_open(key: &[u8], nonce: &[u8], ciphertext: &[u8]) -> (r: Option<Vec<u8>>)
    requires
        key@.len() == 32,
        nonce@.len() == NONCE_LEN,
    ensures
        match r {
            Some(p) => aes256gcm_open(key@, nonce@, ciphertext@) == Some(p@),
            None => aes256gcm_open(key@, nonce@, ciphertext@) is None,
        },
{
    let cipher = Aes256Gcm::new(aes_gcm::Key::<Aes256Gcm>::from_slice(key));
    cipher.decrypt(aes_gcm::Nonce::from_slice(nonce), ciphertext).ok()
}

/// `String::from_utf8`: the decoded text when the bytes are valid UTF-8,
/// otherwise the standard library's error message (its text left unsaid).
#[verifier::external_body]
fn string_from_utf8(bytes: Vec<u8>) -> (r: Result<String, String>)
    ensures
        match r {
            Ok(s) => valid_utf8(bytes@) && s@ == decode_utf8(bytes@),
            Err(_) => !valid_utf8(bytes@),
        },
{
    String::from_utf8(bytes).map_err(|e| e.to_string())
}

/// Why a stored credential could not be turned back into text.
pub enum DecryptOutcome {
    Plain(Seq<char>),
    BadBase64,
    TooShort,
    Rejected,
    BadUtf8,
}

/// What decrypting a stored value yields under `key`: Base64-decode it,
/// split off the 12-byte nonce, open the rest with AES-256-GCM and read the
/// plaintext as UTF-8.
pub open spec fn spec_decrypt(key: Seq<u8>, encoded: Seq<u8>) -> DecryptOutcome {
    match base64_std_decoded(encoded) {
        None => DecryptOutcome::BadBase64,
        Some(combined) => if combined.len() < NONCE_LEN {
            DecryptOutcome::TooShort
        } else {
            match aes256gcm_open(
                key,
                combined.take(NONCE_LEN as int),
                combined.skip(NONCE_LEN as int),
            ) {
                None => DecryptOutcome::Rejected,
                Some(p) => if valid_utf8(p) {
                    DecryptOutcome::Plain(decode_utf8(p))
                } else {
                    DecryptOutcome::BadUtf8
                },
            }
        },
    }
}

/// `encoded` is the stored form of `plaintext` under `key`: Base64 of a
/// 12-byte nonce followed by the AES-256-GCM sealing, under that nonce, of
/// the plaintext's UTF-8 bytes, a ciphertext that opens to those bytes.
pub open spec fn is_encryption_of(key: Seq<u8>, plaintext: Seq<char>, encoded: Seq<u8>) -> bool {
    exists|nonce: Seq<u8>, ct: Seq<u8>|
        #![trigger aes256gcm_open(key, nonce, ct)]
        nonce.len() == NONCE_LEN && ct == aes256gcm_seal(key, nonce, encode_utf8(plaintext))
            && encoded == encode_utf8(base64_std_encoded(nonce + ct))
            && base64_std_decoded(encoded) == Some(nonce + ct)
            && aes256gcm_open(key, nonce, ct) == Some(encode_utf8(plaintext))
}

/// Encrypts HaloPSA credentials at rest with AES-256-GCM under a key
/// derived from the configured secret.
pub struct TokenCipher {
    key: Vec<u8>,
}

impl TokenCipher {
    #[verifier::type_invariant]
    spec fn key_is_aes256(self) -> bool {
        self.key@.len() == 32
    }

    /// The 32-byte AES key.
    pub closed spec fn key(self) -> Seq<u8> {
        self.key@
    }

    /// Derives the AES-256 key as the SHA-256 digest of the configured
    /// secret's UTF-8 bytes.
    pub fn new(secret: &str) -> (r: Self)
        ensures
            r.key() == sha256_spec(secret.spec_bytes()),
    {
        let key = sha256(secret.as_bytes());
        TokenCipher { key }
    }

    /// Encrypts `plaintext` under a fresh random nonce and returns
    /// Base64(nonce || ciphertext). Plaintexts beyond AES-GCM's limit, or
    /// whose Base64 form would not fit in memory, make the cipher or the
    /// encoder panic, so they are left out.
    pub fn encrypt(&self, plaintext: &str) -> (r: String)
        requires
            plaintext.spec_bytes().len() <= AES_GCM_P_MAX,
            base64_len_fits(plaintext.spec_bytes().len() + 28),
        ensures
            is_encryption_of(self.key(), plaintext@, encode_utf8(r@)),
    {
        proof {
            use_type_invariant(self);
        }
        let nonce = random_nonce();
        let pt = plaintext.as_bytes();
        let ct = aes_seal(self.key.as_slice(), nonce.as_slice(), pt);
        let mut combined = nonce.clone();
        let mut i: usize = 0;
        while i < ct.len()
            invariant
                nonce@.len() == NONCE_LEN,
                0 <= i <= ct@.len(),
                combined@ == nonce@ + ct@.take(i as int),
            decreases ct@.len() - i,
        {
            combined.push(ct[i]);
            proof {
                assert(ct@.take(i + 1) =~= ct@.take(i as int).push(ct@[i as int]));
            }
            i = i + 1;
        }
        proof {
            assert(ct@.take(ct@.len() as int) =~= ct@);
        }
        let r = base64_std_encode(combined.as_slice());
        proof {
            assert(aes256gcm_open(self.key(), nonce@, ct@) == Some(encode_utf8(plaintext@)));
            assert(base64_std_decoded(encode_utf8(r@)) == Some(nonce@ + ct@));
            assert(pt@ == encode_utf8(plaintext@));
            assert(exists|nonce: Seq<u8>, ct: Seq<u8>|
                #![trigger aes256gcm_open(self.key(), nonce, ct)]
                nonce.len() == NONCE_LEN && ct == aes256gcm_seal(self.key(), nonce, encode_utf8(plaintext@))
                    && encode_utf8(r@) == encode_utf8(base64_std_encoded(nonce + ct))
                    && base64_std_decoded(encode_utf8(r@)) == Some(nonce + ct)
                    && aes256gcm_open(self.key(), nonce, ct) == Some(encode_utf8(plaintext@)));
        }
        r
    }

    /// Reverses `encrypt`: the plaintext, or an error naming the step that
    /// failed ("Base64 decode failed: ...", "Ciphertext too short",
    /// "Decryption failed: aead::Error", "UTF-8 decode failed: ...").
    pub fn decrypt(&self, encoded: &str) -> (r: Result<String, String>)
        ensures
            match spec_decrypt(self.key(), encoded.spec_bytes()) {
                DecryptOutcome::Plain(p) => r matches Ok(s) && s@ == p,
                DecryptOutcome::BadBase64 => r matches Err(e) && "Base64 decode failed: "@.is_prefix_of(e@),
                DecryptOutcome::TooShort => r matches Err(e) && e@ == "Ciphertext too short"@,
                DecryptOutcome::Rejected => r matches Err(e) && e@ == "Decryption failed: aead::Error"@,
                DecryptOutcome::BadUtf8 => r matches Err(e) && "UTF-8 decode failed: "@.is_prefix_of(e@),
            },
    {
        proof {
            use_type_invariant(self);
            reveal_strlit("Base64 decode failed: ");
            reveal_strlit("Ciphertext too short");
            reveal_strlit("Decryption failed: ");
            reveal_strlit("UTF-8 decode failed: ");
            reveal_strlit("aead::Error");
        }
        let combined = match base64_std_decode(encoded) {
            Ok(v) => v,
            Err(msg) => {
                return Err(concat_str("Base64 decode failed: ", msg.as_str()));
            },
        };
        if combined.len() < NONCE_LEN {
            return Err("Ciphertext too short".to_owned());
        }
        let (nonce_bytes, ciphertext) = combined.as_slice().split_at(NONCE_LEN);
        proof {
            assert(nonce_bytes@ =~= combined@.take(NONCE_LEN as int));
            assert(ciphertext@ =~= combined@.skip(NONCE_LEN as int));
        }
        let plain = match aes_open(self.key.as_slice(), nonce_bytes, ciphertext) {
            Some(p) => p,
            None => {
                return Err("Decryption failed: aead::Error".to_owned());
            },
        };
        match string_from_utf8(plain) {
            Ok(s) => Ok(s),
            Err(msg) => Err(concat_str("UTF-8 decode failed: ", msg.as_str())),
        }
    }
}

/// Law: whatever `encrypt` stored for a plaintext, `decrypt` under the same
/// key gives that plaintext back.
pub proof fn lemma_decrypt_inverts_encrypt(key: Seq<u8>, plaintext: Seq<char>, encoded: Seq<u8>)
    requires
        is_encryption_of(key, plaintext, encoded),
    ensures
        spec_decrypt(key, encoded) == DecryptOutcome::Plain(plaintext),
{
    broadcast use vstd::utf8::encode_utf8_valid_utf8, vstd::utf8::encode_utf8_decode_utf8;

    let (nonce, ct) = choose|nonce: Seq<u8>, ct: Seq<u8>|
        #![trigger aes256gcm_open(key, nonce, ct)]
        nonce.len() == NONCE_LEN && ct == aes256gcm_seal(key, nonce, encode_utf8(plaintext))
            && encoded == encode_utf8(base64_std_encoded(nonce + ct))
            && base64_std_decoded(encoded) == Some(nonce + ct)
            && aes256gcm_open(key, nonce, ct) == Some(encode_utf8(plaintext));
    let combined = nonce + ct;
    assert(combined.take(NONCE_LEN as int) =~= nonce);
    assert(combined.skip(NONCE_LEN as int) =~= ct);
}

/// The key under which a stored MCP token is looked up: lowercase hex of its
/// SHA-256 digest, so the database never holds a usable bearer token.
pub fn hash_token(token: &str) -> (r: String)
    ensures
        r@ == hex_lower(sha256_spec(token.spec_bytes())),
{
    sha256_hex(token)
}

} // verus!
