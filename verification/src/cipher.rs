//! Authenticated encryption of traffic under a session key.
//!
//! # Known weakness
//!
//! Every message is sealed under the same nonce, twelve zero bytes. Sealing is
//! therefore a function of key and plaintext: under one key, equal plaintexts
//! give equal ciphertexts, and two messages sealed under one session key no
//! longer have the confidentiality that GCM promises for nonces that never
//! repeat. The nonce is not sent; the peer opens with the same twelve zero
//! bytes. A session key should seal one message in each direction at most.
//! Nothing here counts messages or rotates keys.

use crate::aead::{
    aes128gcm_open, aes128gcm_opened, aes128gcm_seal, aes128gcm_sealed, body_of, seals, tag_of,
    CIPHER_KEY_LEN, MAX_PLAINTEXT_LEN, NONCE_LEN, TAG_LEN,
};
use crate::error::ChannelError;
use vstd::prelude::*;

verus! {

/// The nonce of every message: twelve zero bytes.
pub open spec fn zero_nonce() -> Seq<u8> {
    Seq::new(NONCE_LEN as nat, |i: int| 0u8)
}

/// The cipher key that a session key yields: its first 16 bytes.
pub open spec fn cipher_key(session_key: Seq<u8>) -> Seq<u8> {
    session_key.subrange(0, CIPHER_KEY_LEN as int)
}

/// The bytes of a result, for use in contracts.
pub open spec fn outcome_view(r: Result<Vec<u8>, ChannelError>) -> Result<Seq<u8>, ChannelError> {
    match r {
        Ok(bytes) => Ok(bytes@),
        Err(e) => Err(e),
    }
}

/// What sealing `plaintext` under the cipher key `key` returns.
pub open spec fn encrypt_spec(key: Seq<u8>, plaintext: Seq<u8>) -> Result<Seq<u8>, ChannelError> {
    if plaintext.len() > MAX_PLAINTEXT_LEN {
        Err(ChannelError::EncryptionFailure)
    } else {
        Ok(aes128gcm_sealed(key, zero_nonce(), plaintext))
    }
}

/// What opening `ciphertext` under the cipher key `key` returns.
pub open spec fn decrypt_spec(key: Seq<u8>, ciphertext: Seq<u8>) -> Result<Seq<u8>, ChannelError> {
    if ciphertext.len() < TAG_LEN {
        Err(ChannelError::AuthenticationFailure)
    } else {
        match aes128gcm_opened(key, zero_nonce(), ciphertext) {
            Some(plaintext) => Ok(plaintext),
            None => Err(ChannelError::AuthenticationFailure),
        }
    }
}

/// What sealing `plaintext` under a session key returns: the session key must
/// yield a cipher key first.
pub open spec fn session_encrypt_spec(session_key: Seq<u8>, plaintext: Seq<u8>) -> Result<
    Seq<u8>,
    ChannelError,
> {
    if session_key.len() < CIPHER_KEY_LEN {
        Err(ChannelError::InvalidKeyLength)
    } else {
        encrypt_spec(cipher_key(session_key), plaintext)
    }
}

/// What opening `ciphertext` under a session key returns: the session key
/// must yield a cipher key first.
pub open spec fn session_decrypt_spec(session_key: Seq<u8>, ciphertext: Seq<u8>) -> Result<
    Seq<u8>,
    ChannelError,
> {
    if session_key.len() < CIPHER_KEY_LEN {
        Err(ChannelError::InvalidKeyLength)
    } else {
        decrypt_spec(cipher_key(session_key), ciphertext)
    }
}

/// Turns the cipher's answer to a sealing into this crate's: the ciphertext
/// as it is, or `EncryptionFailure`.
pub fn seal_outcome(answer: Result<Vec<u8>, aes_gcm::Error>) -> (r: Result<Vec<u8>, ChannelError>)
    ensures
        answer matches Ok(sealed) ==> r == Ok::<Vec<u8>, ChannelError>(sealed),
        answer is Err ==> r == Err::<Vec<u8>, ChannelError>(ChannelError::EncryptionFailure),
{
    match answer {
        Ok(sealed) => Ok(sealed),
        Err(_) => Err(ChannelError::EncryptionFailure),
    }
}

/// Turns the cipher's answer to an opening into this crate's: the plaintext
/// as it is, or `AuthenticationFailure`.
pub fn open_outcome(answer: Result<Vec<u8>, aes_gcm::Error>) -> (r: Result<Vec<u8>, ChannelError>)
    ensures
        answer matches Ok(plaintext) ==> r == Ok::<Vec<u8>, ChannelError>(plaintext),
        answer is Err ==> r == Err::<Vec<u8>, ChannelError>(ChannelError::AuthenticationFailure),
{
    match answer {
        Ok(plaintext) => Ok(plaintext),
        Err(_) => Err(ChannelError::AuthenticationFailure),
    }
}

/// AES-128-GCM under one key, fixed when the cipher is made.
pub struct SessionCipher {
    key: [u8; 16],
}

impl SessionCipher {
    /// The cipher's key.
    pub closed spec fn key(&self) -> Seq<u8> {
        self.key@
    }

    /// Makes the cipher of a session key. Its key is the session key's first
    /// 16 bytes; a shorter session key is refused with `InvalidKeyLength`.
    pub fn new(session_key: &[u8]) -> (r: Result<SessionCipher, ChannelError>)
        ensures
            r is Ok <==> session_key@.len() >= CIPHER_KEY_LEN,
            r matches Ok(cipher) ==> cipher.key() == cipher_key(session_key@),
            r matches Err(e) ==> e == ChannelError::InvalidKeyLength,
    {
        if session_key.len() < CIPHER_KEY_LEN {
            return Err(ChannelError::InvalidKeyLength);
        }
        let mut key = [0u8; 16];
        let mut i: usize = 0;
        while i < CIPHER_KEY_LEN
            invariant
                i <= CIPHER_KEY_LEN <= session_key@.len(),
                forall|j: int| 0 <= j < i ==> key@[j] == session_key@[j],
            decreases CIPHER_KEY_LEN - i,
        {
            key[i] = session_key[i];
            i += 1;
        }
        assert(key@ =~= cipher_key(session_key@));
        Ok(SessionCipher { key })
    }

    /// Seals `plaintext`: the result is the plaintext's length and a tag of
    /// 16 bytes long, and [`SessionCipher::decrypt`] under the same key gives
    /// the plaintext back. A plaintext longer than [`MAX_PLAINTEXT_LEN`] is
    /// the one thing that fails, with `EncryptionFailure`.
    pub fn encrypt(&self, plaintext: &[u8]) -> (r: Result<Vec<u8>, ChannelError>)
        ensures
            outcome_view(r) == encrypt_spec(self.key(), plaintext@),
            r matches Ok(sealed) ==> seals(self.key(), zero_nonce(), plaintext@, sealed@),
            r matches Ok(sealed) ==> decrypt_spec(self.key(), sealed@) == Ok::<
                Seq<u8>,
                ChannelError,
            >(plaintext@),
    {
        let nonce = [0u8; 12];
        assert(nonce@ =~= zero_nonce());
        seal_outcome(aes128gcm_seal(&self.key, &nonce, plaintext))
    }

    /// Opens `ciphertext`. Fails with `AuthenticationFailure` where the
    /// ciphertext is shorter than a tag or the cipher rejects it.
    pub fn decrypt(&self, ciphertext: &[u8]) -> (r: Result<Vec<u8>, ChannelError>)
        ensures
            outcome_view(r) == decrypt_spec(self.key(), ciphertext@),
            r matches Ok(plaintext) ==> plaintext@.len() + TAG_LEN == ciphertext@.len(),
    {
        if ciphertext.len() < TAG_LEN {
            return Err(ChannelError::AuthenticationFailure);
        }
        let nonce = [0u8; 12];
        assert(nonce@ =~= zero_nonce());
        open_outcome(aes128gcm_open(&self.key, &nonce, ciphertext))
    }
}

/// Round trip: a ciphertext that sealing `plaintext` under `key` gave opens,
/// under the same key, to `plaintext`.
pub proof fn lemma_round_trip(key: Seq<u8>, plaintext: Seq<u8>, sealed: Seq<u8>)
    requires
        seals(key, zero_nonce(), plaintext, sealed),
    ensures
        decrypt_spec(key, sealed) == Ok::<Seq<u8>, ChannelError>(plaintext),
{
}

/// Tamper detection, for the tag: a ciphertext that differs from a sealed one
/// in its last 16 bytes, and nowhere else, is refused with
/// `AuthenticationFailure`.
pub proof fn lemma_tag_tamper_detected(
    key: Seq<u8>,
    plaintext: Seq<u8>,
    sealed: Seq<u8>,
    forged: Seq<u8>,
)
    requires
        seals(key, zero_nonce(), plaintext, sealed),
        forged.len() == sealed.len(),
        body_of(forged) == body_of(sealed),
        forged != sealed,
    ensures
        decrypt_spec(key, forged) == Err::<Seq<u8>, ChannelError>(
            ChannelError::AuthenticationFailure,
        ),
{
    assert(forged =~= body_of(sealed) + tag_of(forged));
    assert(sealed =~= body_of(sealed) + tag_of(sealed));
}

/// Truncation: whatever is shorter than a tag is refused with
/// `AuthenticationFailure`, under every key.
pub proof fn lemma_short_input_refused(key: Seq<u8>, ciphertext: Seq<u8>)
    requires
        ciphertext.len() < TAG_LEN,
    ensures
        decrypt_spec(key, ciphertext) == Err::<Seq<u8>, ChannelError>(
            ChannelError::AuthenticationFailure,
        ),
{
}

} // verus!
