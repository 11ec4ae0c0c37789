//! The ephemeral key pair of one session, and the one agreement it is good for.

use crate::aead::seals;
use crate::cipher::{
    cipher_key, outcome_view, session_decrypt_spec, session_encrypt_spec, zero_nonce,
    SessionCipher,
};
use crate::error::ChannelError;
use crate::x25519::{
    agreed, os_random_scalar, x25519_agree, x25519_derive_public, x25519_public, KEY_LEN,
};
use vstd::prelude::*;
use vstd::slice::slice_to_vec;

verus! {

/// The key material of one session attempt.
///
/// A pair starts fresh, with its private scalar present and no session key.
/// The first agreement spends the scalar and leaves the session key; nothing
/// brings the scalar back. A new session needs a new pair.
///
/// The scalar is held as plain bytes. Spending it clears the slot, but the
/// memory it lay in is not wiped.
pub struct KeyPair {
    /// The private scalar. Used once: the agreement consumes it and leaves
    /// `None` in its place.
    pub prv_k: Option<[u8; 32]>,
    /// The public key, free to share.
    pub pub_k: [u8; 32],
    /// Bytes meant to vouch for the public key. Carried, never checked here.
    pub signature: Vec<u8>,
    /// The agreed secret: empty until the agreement, 32 bytes afterwards.
    pub session_key: Vec<u8>,
    /// A time stamp for the caller's use: zero in a new pair, never read here.
    pub timestamp: u64,
}

impl KeyPair {
    /// The private scalar has not been spent.
    pub open spec fn is_fresh(&self) -> bool {
        self.prv_k is Some
    }

    /// The pair is in one of its two lawful states: fresh, with a public key
    /// that belongs to the scalar and no session key, or spent, with a
    /// session key of 32 bytes.
    pub open spec fn wf(&self) -> bool {
        match self.prv_k {
            Some(scalar) => self.session_key@.len() == 0 && self.pub_k@ == x25519_public(scalar@),
            None => self.session_key@.len() == KEY_LEN,
        }
    }

    /// What one call of [`KeyPair::compute_shared_key`] does: `pre` is the
    /// pair before the call, `post` the pair after it, `r` what it returns.
    ///
    /// A spent pair refuses and stays as it is. A fresh pair gives up its
    /// scalar and keeps the agreed bytes as its session key.
    pub open spec fn derived(
        pre: KeyPair,
        peer: Seq<u8>,
        post: KeyPair,
        r: Result<[u8; 32], ChannelError>,
    ) -> bool {
        match pre.prv_k {
            None => r == Err::<[u8; 32], ChannelError>(ChannelError::KeyAlreadyConsumed) && post
                == pre,
            Some(scalar) => {
                &&& r matches Ok(shared)
                &&& agreed(scalar@, peer, shared@)
                &&& post.prv_k is None
                &&& post.session_key@ == shared@
                &&& post.pub_k == pre.pub_k
                &&& post.signature == pre.signature
                &&& post.timestamp == pre.timestamp
            },
        }
    }

    /// Puts a private scalar and a public key together as a fresh pair.
    ///
    /// The two halves are taken as given; the pair is well-formed exactly if
    /// the public key is the one that belongs to the scalar.
    pub fn new(keypair: ([u8; 32], [u8; 32]), signature: Vec<u8>) -> (pair: KeyPair)
        ensures
            pair.prv_k == Some(keypair.0),
            pair.pub_k == keypair.1,
            pair.signature == signature,
            pair.session_key@ == Seq::<u8>::empty(),
            pair.timestamp == 0,
            pair.wf() <==> keypair.1@ == x25519_public(keypair.0@),
    {
        KeyPair {
            prv_k: Some(keypair.0),
            pub_k: keypair.1,
            signature,
            session_key: Vec::new(),
            timestamp: 0u64,
        }
    }

    /// Spends the private scalar and keeps `shared` as the session key.
    ///
    /// This is the bookkeeping half of the agreement, for any 32 bytes.
    pub fn store_shared_secret(&mut self, shared: &[u8; 32])
        ensures
            final(self).prv_k is None,
            final(self).session_key@ == shared@,
            final(self).pub_k == old(self).pub_k,
            final(self).signature == old(self).signature,
            final(self).timestamp == old(self).timestamp,
            final(self).wf(),
    {
        self.prv_k = None;
        self.session_key = slice_to_vec(shared);
    }

    /// Agrees on a shared secret with the holder of `peer_pub_key`, stores it
    /// as the session key and returns it. The private scalar is spent by
    /// this: a second call fails with `KeyAlreadyConsumed` and changes
    /// nothing.
    ///
    /// The peer's key is used as received. Nothing but its length, which its
    /// type fixes, is checked: a low-order point is accepted and yields a
    /// secret that the peer chose. The second argument, the peer's signature,
    /// is not looked at.
    pub fn compute_shared_key(&mut self, peer_pub_key: &[u8; 32], _peer_signature: &[u8]) -> (r:
        Result<[u8; 32], ChannelError>)
        ensures
            Self::derived(*old(self), peer_pub_key@, *final(self), r),
            old(self).wf() ==> final(self).wf(),
    {
        match self.prv_k.take() {
            None => Err(ChannelError::KeyAlreadyConsumed),
            Some(scalar) => {
                let shared = x25519_agree(&scalar, peer_pub_key);
                self.store_shared_secret(&shared);
                Ok(shared)
            },
        }
    }

    /// Seals `input` under the session key, whose first 16 bytes are the
    /// cipher key. Fails with `InvalidKeyLength` while the session key is
    /// shorter than that, as it is before the agreement, and with
    /// `EncryptionFailure` where the cipher refuses the input for its length.
    ///
    /// What comes out opens, under the same session key, to `input`.
    pub fn encrypt_with_smk(&self, input: &[u8]) -> (r: Result<Vec<u8>, ChannelError>)
        ensures
            outcome_view(r) == session_encrypt_spec(self.session_key@, input@),
            r matches Ok(sealed) ==> seals(
                cipher_key(self.session_key@),
                zero_nonce(),
                input@,
                sealed@,
            ),
            r matches Ok(sealed) ==> session_decrypt_spec(self.session_key@, sealed@) == Ok::<
                Seq<u8>,
                ChannelError,
            >(input@),
    {
        match SessionCipher::new(self.session_key.as_slice()) {
            Ok(cipher) => cipher.encrypt(input),
            Err(e) => Err(e),
        }
    }

    /// Opens `input` under the session key, whose first 16 bytes are the
    /// cipher key. Fails with `InvalidKeyLength` while the session key is
    /// shorter than that, and with `AuthenticationFailure` where the input is
    /// shorter than a tag or its tag does not verify.
    pub fn decrypt_with_smk(&self, input: &[u8]) -> (r: Result<Vec<u8>, ChannelError>)
        ensures
            outcome_view(r) == session_decrypt_spec(self.session_key@, input@),
    {
        match SessionCipher::new(self.session_key.as_slice()) {
            Ok(cipher) => cipher.decrypt(input),
            Err(e) => Err(e),
        }
    }
}

/// Completes a private scalar to a key pair: the scalar, and the public key
/// that belongs to it.
pub fn session_from_scalar(scalar: [u8; 32]) -> (keypair: ([u8; 32], [u8; 32]))
    ensures
        keypair.0 == scalar,
        keypair.1@ == x25519_public(scalar@),
{
    let public = x25519_derive_public(&scalar);
    (scalar, public)
}

/// Turns what the random source gave into a key pair: its 32 bytes as the
/// private scalar, with the public key that belongs to them, or
/// `EntropyUnavailable` where the source failed.
pub fn session_from_entropy(sample: Result<[u8; 32], rand_core::Error>) -> (r: Result<
    ([u8; 32], [u8; 32]),
    ChannelError,
>)
    ensures
        sample is Ok <==> r is Ok,
        r matches Ok(keypair) ==> keypair.0 == sample->Ok_0,
        r matches Ok(keypair) ==> keypair.1@ == x25519_public(keypair.0@),
        r matches Err(e) ==> e == ChannelError::EntropyUnavailable,
{
    match sample {
        Ok(scalar) => Ok(session_from_scalar(scalar)),
        Err(_) => Err(ChannelError::EntropyUnavailable),
    }
}

/// Samples a private scalar from the operating system's random source and
/// completes it to a key pair. Every call asks for new randomness. Fails with
/// `EntropyUnavailable` where the source does, and for no other reason.
pub fn open_session() -> (r: Result<([u8; 32], [u8; 32]), ChannelError>)
    ensures
        r matches Ok(keypair) ==> keypair.1@ == x25519_public(keypair.0@),
        r matches Err(e) ==> e == ChannelError::EntropyUnavailable,
{
    session_from_entropy(os_random_scalar())
}

/// Generates the key pair of a new session: fresh, well-formed, with an empty
/// signature. Fails with `EntropyUnavailable` where the random source does.
pub fn init_keypair() -> (r: Result<KeyPair, ChannelError>)
    ensures
        r matches Ok(pair) ==> pair.wf() && pair.is_fresh(),
        r matches Ok(pair) ==> pair.signature@ == Seq::<u8>::empty() && pair.timestamp == 0,
        r matches Err(e) ==> e == ChannelError::EntropyUnavailable,
{
    match open_session() {
        Ok(keypair) => Ok(KeyPair::new(keypair, Vec::new())),
        Err(e) => Err(e),
    }
}

/// Diffie-Hellman symmetry: where two fresh, well-formed pairs each agree on
/// the other's public key, both calls succeed, and they return and store the
/// same secret.
pub proof fn lemma_agreement_symmetric(
    a: KeyPair,
    a_after: KeyPair,
    ra: Result<[u8; 32], ChannelError>,
    b: KeyPair,
    b_after: KeyPair,
    rb: Result<[u8; 32], ChannelError>,
)
    requires
        a.wf(),
        a.is_fresh(),
        b.wf(),
        b.is_fresh(),
        KeyPair::derived(a, b.pub_k@, a_after, ra),
        KeyPair::derived(b, a.pub_k@, b_after, rb),
    ensures
        ra is Ok,
        rb is Ok,
        ra == rb,
        a_after.session_key@ == b_after.session_key@,
{
    assert(ra->Ok_0 =~= rb->Ok_0);
}

/// A pair agrees once: whatever the first call did, it left the pair spent, so
/// the next call fails with `KeyAlreadyConsumed` and leaves the pair, session
/// key included, as the first call left it.
pub proof fn lemma_second_agreement_fails(
    p0: KeyPair,
    peer1: Seq<u8>,
    p1: KeyPair,
    r1: Result<[u8; 32], ChannelError>,
    peer2: Seq<u8>,
    p2: KeyPair,
    r2: Result<[u8; 32], ChannelError>,
)
    requires
        KeyPair::derived(p0, peer1, p1, r1),
        KeyPair::derived(p1, peer2, p2, r2),
    ensures
        r2 == Err::<[u8; 32], ChannelError>(ChannelError::KeyAlreadyConsumed),
        p2 == p1,
{
}

} // verus!
