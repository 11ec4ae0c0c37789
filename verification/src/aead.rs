//! AES-128-GCM, as this crate sees it.
//!
//! The cipher is `aes-gcm`'s and is not verified here. What the rest of the
//! crate knows about it is written out in this file: two names for what
//! sealing and opening return, and the contracts of the two functions that
//! call out.

use aes_gcm::aead::Aead;
use aes_gcm::{Aes128Gcm, Key, KeyInit, Nonce};
use vstd::prelude::*;

verus! {

/// Number of bytes in a cipher key.
pub const CIPHER_KEY_LEN: usize = 16;

/// Number of bytes in a nonce.
pub const NONCE_LEN: usize = 12;

/// Number of bytes in the tag that ends every ciphertext.
pub const TAG_LEN: usize = 16;

/// The longest plaintext, in bytes, that the cipher seals.
pub const MAX_PLAINTEXT_LEN: u64 = 0x10_0000_0000;

/// The cipher's error, which tells nothing but that it failed.
#[verifier::external_type_specification]
#[verifier::external_body]
pub struct ExAeadError(aes_gcm::Error);

/// The ciphertext, tag included, of a plaintext under a key and a nonce.
pub uninterp spec fn aes128gcm_sealed(key: Seq<u8>, nonce: Seq<u8>, plaintext: Seq<u8>) -> Seq<u8>;

/// The plaintext that a ciphertext opens to under a key and a nonce, or `None`
/// where the cipher rejects it.
pub uninterp spec fn aes128gcm_opened(key: Seq<u8>, nonce: Seq<u8>, ciphertext: Seq<u8>) -> Option<
    Seq<u8>,
>;

/// The part of a ciphertext before its tag.
pub open spec fn body_of(ciphertext: Seq<u8>) -> Seq<u8> {
    ciphertext.subrange(0, ciphertext.len() - TAG_LEN)
}

/// The last 16 bytes of a ciphertext.
pub open spec fn tag_of(ciphertext: Seq<u8>) -> Seq<u8> {
    ciphertext.subrange(ciphertext.len() - TAG_LEN, ciphertext.len() as int)
}

/// What is known of a ciphertext that the cipher has just produced from
/// `plaintext`: it is the plaintext's length and a tag long, it opens to the
/// plaintext under the same key and nonce, and its body is rejected under
/// every other tag.
pub open spec fn seals(key: Seq<u8>, nonce: Seq<u8>, plaintext: Seq<u8>, sealed: Seq<u8>) -> bool {
    &&& sealed.len() == plaintext.len() + TAG_LEN
    &&& aes128gcm_opened(key, nonce, sealed) == Some(plaintext)
    &&& forall|tag: Seq<u8>|
        #![trigger aes128gcm_opened(key, nonce, body_of(sealed) + tag)]
        tag.len() == TAG_LEN && tag != tag_of(sealed) ==> aes128gcm_opened(
            key,
            nonce,
            body_of(sealed) + tag,
        ) is None
}

/// Seals a plaintext, by `Aead::encrypt` on an `Aes128Gcm` of `aes-gcm`, with
/// no associated data.
///
/// Trusted. The cipher refuses exactly the plaintexts longer than
/// [`MAX_PLAINTEXT_LEN`]. Its ciphertext is a function of the three arguments
/// alone, named [`aes128gcm_sealed`]: the plaintext under the key stream,
/// then the tag computed over that. So [`seals`] holds of it: opening
/// recomputes the same tag, accepts it and no other, and undoes the key
/// stream.
#[verifier::external_body]
pub(crate) fn aes128gcm_seal(key: &[u8; 16], nonce: &[u8; 12], plaintext: &[u8]) -> (r: Result<
    Vec<u8>,
    aes_gcm::Error,
>)
    ensures
        r is Ok <==> plaintext@.len() <= MAX_PLAINTEXT_LEN,
        r matches Ok(sealed) ==> sealed@ == aes128gcm_sealed(key@, nonce@, plaintext@),
        r matches Ok(sealed) ==> seals(key@, nonce@, plaintext@, sealed@),
{
    Aes128Gcm::new(Key::<Aes128Gcm>::from_slice(key)).encrypt(Nonce::from_slice(nonce), plaintext)
}

/// Opens a ciphertext, by `Aead::decrypt` on an `Aes128Gcm` of `aes-gcm`,
/// with no associated data.
///
/// Trusted. Whether the cipher accepts, and what it then returns, is a
/// function of the three arguments alone, named [`aes128gcm_opened`]. What it
/// returns is the ciphertext without its tag, under the key stream.
#[verifier::external_body]
pub(crate) fn aes128gcm_open(key: &[u8; 16], nonce: &[u8; 12], ciphertext: &[u8]) -> (r: Result<
    Vec<u8>,
    aes_gcm::Error,
>)
    ensures
        r matches Ok(plaintext) ==> aes128gcm_opened(key@, nonce@, ciphertext@) == Some(
            plaintext@,
        ),
        r is Err ==> aes128gcm_opened(key@, nonce@, ciphertext@) is None,
        r matches Ok(plaintext) ==> plaintext@.len() + TAG_LEN == ciphertext@.len(),
{
    Aes128Gcm::new(Key::<Aes128Gcm>::from_slice(key)).decrypt(Nonce::from_slice(nonce), ciphertext)
}

} // verus!
