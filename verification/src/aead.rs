//! The authenticated cipher: AES-256-GCM through ring, behind trusted
//! wrappers.
//!
//! For a fixed 32-byte key and 12-byte nonce (and empty associated data),
//! GCM's counter-mode layer is a length-preserving bijection on plaintexts
//! and the tag is a function of the ciphertext, so the whole sealing is an
//! injective function of the plaintext, and opening succeeds exactly on its
//! range, recovering the sealed plaintext. `seal_of` names that function;
//! the wrappers state the two directions.
use vstd::prelude::*;

use crate::errors::OtError;
use crate::nonce::NONCE_LEN;

verus! {

/// Length in bytes of an AES-256 key.
pub const KEY_LEN: usize = 32;

/// Length in bytes of the GCM authentication tag.
pub const TAG_LEN: usize = 16;

/// Plaintexts up to this many bytes are guaranteed to seal. The cipher's own
/// limit is higher still (just under 2^36 bytes), so success within this
/// bound is owed, and the bound keeps every contract inside what the cipher
/// handles.
pub const MAX_MSG_LEN: usize = 0xffff_ffff;

/// The AES-256-GCM sealing of `msg` under `key` and `nonce` with empty
/// associated data: the ciphertext with the 16-byte tag appended. For a
/// fixed key and nonce it is a function of the plaintext alone.
pub uninterp spec fn seal_of(key: Seq<u8>, nonce: Seq<u8>, msg: Seq<u8>) -> Seq<u8>;

/// Relies on ring's `UnboundKey::new`, `LessSafeKey::new` and
/// `LessSafeKey::seal_in_place_append_tag` with `AES_256_GCM`:
/// `UnboundKey::new` fails exactly when the key is not 32 bytes;
/// `Nonce::try_assume_unique_for_key` fails exactly when the nonce is not 12
/// bytes; sealing fails only when the plaintext exceeds the cipher's limit,
/// far above `MAX_MSG_LEN`. On success the buffer is the ciphertext with the
/// tag appended, a function of key, nonce and plaintext alone.
#[verifier::external_body]
pub(crate) fn aead_seal(key: &Vec<u8>, nonce: &Vec<u8>, msg: &Vec<u8>) -> (r: Result<Vec<u8>, OtError>)
    ensures
        r matches Ok(c) ==> c@ == seal_of(key@, nonce@, msg@) && c@.len() == msg@.len() + TAG_LEN,
        r is Err ==> !(key@.len() == KEY_LEN && nonce@.len() == NONCE_LEN && msg@.len()
            <= MAX_MSG_LEN),
        r is Ok ==> key@.len() == KEY_LEN,
        r matches Err(e) ==> e == OtError::KeyConstructionFailure,
{
    let unbound = match ring::aead::UnboundKey::new(&ring::aead::AES_256_GCM, key.as_slice()) {
        Ok(k) => k,
        Err(_) => return Err(OtError::KeyConstructionFailure),
    };
    let sealing = ring::aead::LessSafeKey::new(unbound);
    let n = match ring::aead::Nonce::try_assume_unique_for_key(nonce.as_slice()) {
        Ok(n) => n,
        Err(_) => return Err(OtError::KeyConstructionFailure),
    };
    let mut buf = msg.clone();
    match sealing.seal_in_place_append_tag(n, ring::aead::Aad::empty(), &mut buf) {
        Ok(()) => Ok(buf),
        Err(_) => Err(OtError::KeyConstructionFailure),
    }
}

/// Relies on ring's `UnboundKey::new`, `LessSafeKey::new` and
/// `LessSafeKey::open_in_place` with `AES_256_GCM`: opening authenticates
/// the tag and succeeds exactly when the data is a sealing under this key
/// and nonce, in which case it returns the sealed plaintext.
#[verifier::external_body]
pub(crate) fn aead_open(key: &Vec<u8>, nonce: &Vec<u8>, data: &Vec<u8>) -> (r: Option<Vec<u8>>)
    ensures
        r matches Some(p) ==> data@ == seal_of(key@, nonce@, p@),
        r matches Some(p) ==> forall|m: Seq<u8>|
            data@ == #[trigger] seal_of(key@, nonce@, m) ==> p@ == m,
        r is None && key@.len() == KEY_LEN && nonce@.len() == NONCE_LEN ==> forall|m: Seq<u8>|
            m.len() <= MAX_MSG_LEN ==> data@ != #[trigger] seal_of(key@, nonce@, m),
{
    let unbound = match ring::aead::UnboundKey::new(&ring::aead::AES_256_GCM, key.as_slice()) {
        Ok(k) => k,
        Err(_) => return None,
    };
    let opening = ring::aead::LessSafeKey::new(unbound);
    let n = match ring::aead::Nonce::try_assume_unique_for_key(nonce.as_slice()) {
        Ok(n) => n,
        Err(_) => return None,
    };
    let mut buf = data.clone();
    match opening.open_in_place(n, ring::aead::Aad::empty(), &mut buf) {
        Ok(plain) => Some(plain.to_vec()),
        Err(_) => None,
    }
}

} // verus!
