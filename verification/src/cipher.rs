//! The calls into the cipher and the random source, with what is assumed of
//! them.
//!
//! The cipher is AES-256 in GCM mode: a 32-byte key, a 12-byte nonce, and a
//! 16-byte tag after the ciphertext. No associated data is used.

use crate::nonce::NONCE_LEN;
use ring::aead::{Aad, LessSafeKey, Nonce, UnboundKey, AES_256_GCM};
use ring::rand::{SecureRandom, SystemRandom};
use vstd::prelude::*;

verus! {

/// Length in bytes of a key.
pub const KEY_LEN: usize = 32;

/// Length in bytes of the tag that sealing appends.
pub const TAG_LEN: usize = 16;

/// What the cipher returns when it seals `plain` under `key` and `nonce`:
/// ciphertext and tag, or nothing where it refuses.
pub uninterp spec fn aes_256_gcm_seal(key: Seq<u8>, nonce: Seq<u8>, plain: Seq<u8>) -> Option<Seq<u8>>;

/// What the cipher returns when it opens `sealed` under `key` and `nonce`:
/// the plaintext, or nothing where it refuses or the tag does not match.
pub uninterp spec fn aes_256_gcm_open(key: Seq<u8>, nonce: Seq<u8>, sealed: Seq<u8>) -> Option<Seq<u8>>;

/// Calls `ring::aead::LessSafeKey::seal_in_place_append_tag` on a copy of
/// `plain`, with a key made by `ring::aead::UnboundKey::new` for
/// `AES_256_GCM`, the nonce as given and no associated data.
///
/// Taken on trust: the outcome depends on the three arguments alone; what is
/// returned is the plaintext's length and one tag long; and the same key and
/// nonce open it to the plaintext again.
#[verifier::external_body]
pub(crate) fn seal(key: &[u8], nonce: [u8; NONCE_LEN], plain: &[u8]) -> (r: Option<Vec<u8>>)
    ensures
        match r {
            Some(sealed) => {
                &&& aes_256_gcm_seal(key@, nonce@, plain@) == Some(sealed@)
                &&& sealed@.len() == plain@.len() + TAG_LEN
                &&& aes_256_gcm_open(key@, nonce@, sealed@) == Some(plain@)
            },
            None => aes_256_gcm_seal(key@, nonce@, plain@) is None,
        },
{
    let mut in_out = plain.to_vec();
    let key = LessSafeKey::new(UnboundKey::new(&AES_256_GCM, key).ok()?);
    let nonce = Nonce::assume_unique_for_key(nonce);
    key.seal_in_place_append_tag(nonce, Aad::empty(), &mut in_out).ok()?;
    Some(in_out)
}

/// Calls `ring::aead::LessSafeKey::open_in_place` on a copy of `sealed`, with
/// a key made by `ring::aead::UnboundKey::new` for `AES_256_GCM`, the nonce as
/// given and no associated data.
///
/// Taken on trust: the outcome depends on the three arguments alone, and a
/// plaintext that comes back is one tag shorter than what was opened.
#[verifier::external_body]
pub(crate) fn open(key: &[u8], nonce: [u8; NONCE_LEN], sealed: &[u8]) -> (r: Option<Vec<u8>>)
    ensures
        match r {
            Some(plain) => {
                &&& aes_256_gcm_open(key@, nonce@, sealed@) == Some(plain@)
                &&& plain@.len() + TAG_LEN == sealed@.len()
            },
            None => aes_256_gcm_open(key@, nonce@, sealed@) is None,
        },
{
    let mut in_out = sealed.to_vec();
    let key = LessSafeKey::new(UnboundKey::new(&AES_256_GCM, key).ok()?);
    let nonce = Nonce::assume_unique_for_key(nonce);
    Some(key.open_in_place(nonce, Aad::empty(), &mut in_out).ok()?.to_vec())
}

/// Calls `ring::rand::SystemRandom::fill` on a fresh buffer of `len` bytes.
///
/// Taken on trust: bytes that come back are `len` in number. Which bytes, and
/// whether any, is up to the system.
#[verifier::external_body]
pub(crate) fn random_bytes(len: usize) -> (r: Option<Vec<u8>>)
    ensures
        r matches Some(bytes) ==> bytes@.len() == len,
{
    let mut bytes = vec![0u8; len];
    SystemRandom::new().fill(&mut bytes).ok()?;
    Some(bytes)
}

} // verus!
