//! The authenticated cipher that protects the master key and the database.
use vstd::prelude::*;
use aes_gcm::aead::AeadMut;
use aes_gcm::KeyInit;
use crate::encoding::bytes_of;

verus! {

/// Length of an AES-256 key in bytes.
pub const KEY_LEN: usize = 32;

/// Length of an AES-GCM nonce in bytes.
pub const NONCE_LEN: usize = 12;

/// Length of an AES-GCM authentication tag in bytes.
pub const TAG_LEN: usize = 16;

/// The plaintext that AES-256-GCM recovers from `sealed` (a ciphertext
/// followed by its tag) under `key` and `nonce`, with no associated data;
/// `None` where the tag does not verify.
pub uninterp spec fn aes256_gcm_plaintext(
    key: Seq<u8>,
    nonce: Seq<u8>,
    sealed: Seq<u8>,
) -> Option<Seq<u8>>;

/// Calls `Aes256Gcm::new` and `AeadMut::decrypt` of `aes_gcm`. Trusted: the
/// outcome is a function of key, nonce and sealed bytes alone. The key and
/// nonce lengths are required because the outside conversions panic on any
/// other length.
#[verifier::external_body]
pub(crate) fn aes256_gcm_open(key: &[u8], nonce: &[u8], sealed: &[u8]) -> (r: Option<Vec<u8>>)
    requires
        key@.len() == KEY_LEN,
        nonce@.len() == NONCE_LEN,
    ensures
        bytes_of(r) == aes256_gcm_plaintext(key@, nonce@, sealed@),
{
    let mut cipher = aes_gcm::Aes256Gcm::new(key.into());
    cipher.decrypt(aes_gcm::Nonce::from_slice(nonce), sealed).ok()
}

} // verus!
