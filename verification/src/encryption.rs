//! Sealing of secrets at rest with AES-256-GCM.
//!
//! A sealed secret is stored as one blob: a 12-byte nonce, drawn afresh for
//! every sealing, followed by the ciphertext and its 16-byte tag.

use vstd::prelude::*;
use aes_gcm::aead::{Aead, AeadCore, KeyInit, OsRng};
use aes_gcm::{Aes256Gcm, Key, Nonce};
use crate::encoding::{hex_decode, hex_decoded};
use crate::error::DatabaseError;

verus! {

/// Bytes in a vault seed.
pub const KEY_LEN: usize = 32;

/// Bytes in a nonce.
pub const NONCE_LEN: usize = 12;

/// The longest plaintext that AES-GCM seals: 2^36 bytes.
pub const MAX_PLAINTEXT: u64 = 0x10_0000_0000;

/// Ciphertext and tag that AES-256-GCM gives for a plaintext under a key and a
/// nonce, with no associated data.
pub uninterp spec fn aes_gcm_sealed(key: Seq<u8>, nonce: Seq<u8>, plaintext: Seq<u8>) -> Seq<u8>;

/// The plaintext that AES-256-GCM recovers from ciphertext and tag under a key
/// and a nonce; `None` where authentication fails.
pub uninterp spec fn aes_gcm_opened(key: Seq<u8>, nonce: Seq<u8>, sealed: Seq<u8>) -> Option<Seq<u8>>;

/// Whether a plaintext can be sealed: AES-GCM takes at most 2^36 bytes, and
/// the plaintext with its 16-byte tag has to fit in one allocation.
pub open spec fn sealable(plaintext: Seq<u8>) -> bool {
    plaintext.len() <= MAX_PLAINTEXT && plaintext.len() + 16 <= isize::MAX
}

/// The stored form of a plaintext sealed under `key` with `nonce`.
pub open spec fn sealed_blob(key: Seq<u8>, nonce: Seq<u8>, plaintext: Seq<u8>) -> Seq<u8> {
    nonce + aes_gcm_sealed(key, nonce, plaintext)
}

/// What a stored blob opens to under `key`: its first 12 bytes are the nonce,
/// the rest is ciphertext and tag. `None` where the blob is too short to hold
/// a nonce or fails authentication.
pub open spec fn opened_blob(key: Seq<u8>, blob: Seq<u8>) -> Option<Seq<u8>> {
    if blob.len() < NONCE_LEN {
        None
    } else {
        aes_gcm_opened(key, blob.take(NONCE_LEN as int), blob.skip(NONCE_LEN as int))
    }
}

/// The seed that a hexadecimal text denotes: its bytes, where there are
/// exactly 32 of them.
pub open spec fn seed_of(text: Seq<char>) -> Option<Seq<u8>> {
    match hex_decoded(text) {
        Some(bytes) => if bytes.len() == KEY_LEN {
            Some(bytes)
        } else {
            None
        },
        None => None,
    }
}

/// What `encrypt` owes for a key and a plaintext: a blob sealed under some
/// 12-byte nonce, which opens to the plaintext again; an error exactly where
/// the plaintext cannot be sealed.
pub open spec fn encrypt_post(
    key: Seq<u8>,
    plaintext: Seq<u8>,
    r: Result<Vec<u8>, DatabaseError>,
) -> bool {
    if sealable(plaintext) {
        &&& r matches Ok(blob)
        &&& exists|nonce: Seq<u8>|
            nonce.len() == NONCE_LEN && blob@ == #[trigger] sealed_blob(key, nonce, plaintext)
        &&& opened_blob(key, blob@) == Some(plaintext)
    } else {
        r matches Err(DatabaseError::SecretError(_))
    }
}

/// What `decrypt` owes for a key and a blob: the plaintext that the blob opens
/// to, or a decryption error where it opens to none.
pub open spec fn decrypt_post(key: Seq<u8>, blob: Seq<u8>, r: Result<Vec<u8>, DatabaseError>) -> bool {
    match opened_blob(key, blob) {
        Some(plaintext) => r matches Ok(v) && v@ == plaintext,
        None => r matches Err(DatabaseError::DecryptionError),
    }
}

/// `aes_gcm::Error`: the one error of sealing and opening, which tells
/// nothing more.
#[verifier::external_type_specification]
#[verifier::external_body]
pub struct ExAeadError(aes_gcm::Error);

/// `Aes256Gcm::generate_key` with the operating system's generator: 32 bytes.
#[verifier::external_body]
fn fresh_key() -> (r: Vec<u8>)
    ensures
        r@.len() == KEY_LEN,
{
    Aes256Gcm::generate_key(&mut OsRng).to_vec()
}

/// `Aes256Gcm::generate_nonce` with the operating system's generator: 12 bytes.
#[verifier::external_body]
fn fresh_nonce() -> (r: Vec<u8>)
    ensures
        r@.len() == NONCE_LEN,
{
    Aes256Gcm::generate_nonce(&mut OsRng).to_vec()
}

/// `Aead::encrypt` of `Aes256Gcm`: ciphertext and tag for a plaintext of at
/// most 2^36 bytes, an error for a longer one. What it returns, `Aead::decrypt`
/// opens to the plaintext under the same key and nonce.
#[verifier::external_body]
fn seal(key: &[u8], nonce: &[u8], plaintext: &[u8]) -> (r: Result<Vec<u8>, aes_gcm::Error>)
    requires
        key@.len() == KEY_LEN,
        nonce@.len() == NONCE_LEN,
        plaintext@.len() + 16 <= isize::MAX,
    ensures
        r is Ok <==> plaintext@.len() <= MAX_PLAINTEXT,
        r matches Ok(sealed) ==> sealed@ == aes_gcm_sealed(key@, nonce@, plaintext@),
        r matches Ok(sealed) ==> aes_gcm_opened(key@, nonce@, sealed@) == Some(plaintext@),
{
    Aes256Gcm::new(Key::<Aes256Gcm>::from_slice(key)).encrypt(Nonce::from_slice(nonce), plaintext)
}

/// `Aead::decrypt` of `Aes256Gcm`: the plaintext, or an error where the tag
/// does not authenticate the ciphertext under the key and nonce.
#[verifier::external_body]
fn open(key: &[u8], nonce: &[u8], sealed: &[u8]) -> (r: Result<Vec<u8>, aes_gcm::Error>)
    requires
        key@.len() == KEY_LEN,
        nonce@.len() == NONCE_LEN,
    ensures
        r is Ok <==> aes_gcm_opened(key@, nonce@, sealed@) is Some,
        r matches Ok(plaintext) ==> aes_gcm_opened(key@, nonce@, sealed@) == Some(plaintext@),
{
    Aes256Gcm::new(Key::<Aes256Gcm>::from_slice(key)).decrypt(Nonce::from_slice(nonce), sealed)
}

/// A fresh random 32-byte key.
pub fn generate_key() -> (r: Vec<u8>)
    ensures
        r@.len() == KEY_LEN,
{
    fresh_key()
}

/// Reads a vault seed from hexadecimal text: 64 digits, 32 bytes.
pub fn to_seed(key: &str) -> (r: Result<Vec<u8>, DatabaseError>)
    ensures
        match seed_of(key@) {
            Some(seed) => r matches Ok(v) && v@ == seed,
            None => r matches Err(DatabaseError::SecretError(_)),
        },
{
    match hex_decode(key) {
        Ok(bytes) => {
            if bytes.len() == KEY_LEN {
                Ok(bytes)
            } else {
                Err(DatabaseError::SecretError("a seed is 32 bytes: 64 hexadecimal digits".to_owned()))
            }
        },
        Err(_) => Err(DatabaseError::SecretError("a seed is written in hexadecimal".to_owned())),
    }
}

/// Seals `plaintext` under `key` with the given nonce and returns the blob:
/// the nonce, then ciphertext and tag.
pub fn encrypt_with_nonce(key: &[u8], nonce: &[u8], plaintext: &[u8]) -> (r: Result<
    Vec<u8>,
    DatabaseError,
>)
    requires
        key@.len() == KEY_LEN,
        nonce@.len() == NONCE_LEN,
    ensures
        sealable(plaintext@) ==> (r matches Ok(blob) && blob@ == sealed_blob(
            key@,
            nonce@,
            plaintext@,
        ) && opened_blob(key@, blob@) == Some(plaintext@)),
        !sealable(plaintext@) ==> r matches Err(DatabaseError::SecretError(_)),
{
    let n = plaintext.len();
    if n as u64 > MAX_PLAINTEXT || n > isize::MAX as usize - 16 {
        return Err(DatabaseError::SecretError("the plaintext is too long to seal".to_owned()));
    }
    match seal(key, nonce, plaintext) {
        Ok(sealed) => {
            let mut blob: Vec<u8> = Vec::new();
            blob.extend_from_slice(nonce);
            blob.extend_from_slice(sealed.as_slice());
            proof {
                assert(blob@ =~= sealed_blob(key@, nonce@, plaintext@));
                assert(blob@.take(NONCE_LEN as int) =~= nonce@);
                assert(blob@.skip(NONCE_LEN as int) =~= sealed@);
            }
            Ok(blob)
        },
        Err(_) => Err(DatabaseError::SecretError("the plaintext is too long to seal".to_owned())),
    }
}

/// Seals `plaintext` under `key` with a nonce drawn afresh for this call.
pub fn encrypt(key: &[u8], plaintext: &[u8]) -> (r: Result<Vec<u8>, DatabaseError>)
    requires
        key@.len() == KEY_LEN,
    ensures
        encrypt_post(key@, plaintext@, r),
{
    let nonce = fresh_nonce();
    let r = encrypt_with_nonce(key, nonce.as_slice(), plaintext);
    proof {
        if sealable(plaintext@) {
            assert(r->Ok_0@ == sealed_blob(key@, nonce@, plaintext@));
        }
    }
    r
}

/// Opens a blob made by `encrypt` under the same key.
pub fn decrypt(key: &[u8], encryptedtext: &[u8]) -> (r: Result<Vec<u8>, DatabaseError>)
    requires
        key@.len() == KEY_LEN,
    ensures
        decrypt_post(key@, encryptedtext@, r),
{
    if encryptedtext.len() < NONCE_LEN {
        return Err(DatabaseError::DecryptionError);
    }
    let (nonce, sealed) = encryptedtext.split_at(NONCE_LEN);
    match open(key, nonce, sealed) {
        Ok(plaintext) => Ok(plaintext),
        Err(_) => Err(DatabaseError::DecryptionError),
    }
}

/// Decrypting what `encrypt` returned, under the same key, gives the
/// plaintext back: for every 32-byte key and every plaintext that can be
/// sealed, if `sealed` is what `encrypt` returned for them and `opened` is
/// what `decrypt` returned for the key and the sealed blob, then `opened` is
/// the plaintext.
pub proof fn lemma_decrypt_inverts_encrypt(
    key: Seq<u8>,
    plaintext: Seq<u8>,
    sealed: Result<Vec<u8>, DatabaseError>,
    opened: Result<Vec<u8>, DatabaseError>,
)
    requires
        key.len() == KEY_LEN,
        sealable(plaintext),
        encrypt_post(key, plaintext, sealed),
        sealed matches Ok(blob) ==> decrypt_post(key, blob@, opened),
    ensures
        sealed is Ok,
        opened matches Ok(v) && v@ == plaintext,
{
}

/// `decrypt` never hands out bytes that failed authentication: it returns a
/// plaintext only where the blob opens to it, and the decryption error in
/// every other case.
pub proof fn lemma_decrypt_authenticates(
    key: Seq<u8>,
    blob: Seq<u8>,
    opened: Result<Vec<u8>, DatabaseError>,
)
    requires
        decrypt_post(key, blob, opened),
    ensures
        opened matches Ok(v) ==> opened_blob(key, blob) == Some(v@),
        opened matches Err(e) ==> e is DecryptionError && opened_blob(key, blob) is None,
        blob.len() < NONCE_LEN ==> opened is Err,
{
}

} // verus!
