//! The X25519 function and the operating system's random source, as this
//! crate sees them.
//!
//! The curve arithmetic is done by `x25519-dalek` and is not verified here.
//! What the rest of the crate knows about it is written out in this file: two
//! names for what the curve functions return, and the contracts of the three
//! functions that call out.

use rand_core::{OsRng, RngCore};
use vstd::prelude::*;
use x25519_dalek::{PublicKey, StaticSecret};

verus! {

/// Number of bytes in a private scalar, a public key and a shared secret.
pub const KEY_LEN: usize = 32;

/// The error of `rand_core`'s generators, carried through unread.
#[verifier::external_type_specification]
#[verifier::external_body]
pub struct ExRandError(rand_core::Error);

/// The public key that belongs to a private scalar: the scalar, clamped,
/// times the base point of Curve25519, as 32 bytes.
pub uninterp spec fn x25519_public(scalar: Seq<u8>) -> Seq<u8>;

/// The shared secret that a private scalar and a peer's public key agree on:
/// the scalar, clamped, times the peer's point, as 32 bytes.
pub uninterp spec fn x25519_shared(scalar: Seq<u8>, peer: Seq<u8>) -> Seq<u8>;

/// The symmetry of Diffie-Hellman, seen from one side: whoever holds a scalar
/// that the public key `peer` belongs to derives `shared` from the public key
/// of `scalar`.
pub open spec fn mirrored(scalar: Seq<u8>, peer: Seq<u8>, shared: Seq<u8>) -> bool {
    forall|other: Seq<u8>|
        #![trigger x25519_public(other)]
        other.len() == KEY_LEN && x25519_public(other) == peer ==> shared == x25519_shared(
            other,
            x25519_public(scalar),
        )
}

/// `shared` is what the holder of `scalar` derives from the public key `peer`,
/// and what the holder of the scalar behind `peer` derives in turn.
pub open spec fn agreed(scalar: Seq<u8>, peer: Seq<u8>, shared: Seq<u8>) -> bool {
    shared == x25519_shared(scalar, peer) && mirrored(scalar, peer, shared)
}

/// Fills 32 bytes from the operating system's random source, by
/// `try_fill_bytes` of `rand_core::OsRng`.
///
/// Trusted, and silent about the outcome: the bytes differ from call to call,
/// and the source may fail.
#[verifier::external_body]
pub(crate) fn os_random_scalar() -> (r: Result<[u8; 32], rand_core::Error>) {
    let mut bytes = [0u8; 32];
    match OsRng.try_fill_bytes(&mut bytes) {
        Ok(()) => Ok(bytes),
        Err(e) => Err(e),
    }
}

/// Derives the public key of a private scalar, by `PublicKey::from` on a
/// `StaticSecret` of `x25519-dalek`.
///
/// Trusted: the result is a function of the scalar alone, named
/// [`x25519_public`].
#[verifier::external_body]
pub(crate) fn x25519_derive_public(scalar: &[u8; 32]) -> (public: [u8; 32])
    ensures
        public@ == x25519_public(scalar@),
{
    PublicKey::from(&StaticSecret::from(*scalar)).to_bytes()
}

/// Computes the shared secret of a private scalar and a peer's public key, by
/// `StaticSecret::diffie_hellman` of `x25519-dalek`. No peer key is rejected.
///
/// Trusted: the result is a function of the two arguments alone, named
/// [`x25519_shared`], and the agreement is symmetric, as [`mirrored`] says:
/// the peer, using the scalar behind `peer` on our public key, gets the same
/// bytes. That the two sides of an exchange hold the same secret is what
/// `x25519-dalek` documents of its keys; it is taken from there, not proved.
#[verifier::external_body]
pub(crate) fn x25519_agree(scalar: &[u8; 32], peer: &[u8; 32]) -> (shared: [u8; 32])
    ensures
        shared@ == x25519_shared(scalar@, peer@),
        mirrored(scalar@, peer@, shared@),
{
    StaticSecret::from(*scalar).diffie_hellman(&PublicKey::from(*peer)).to_bytes()
}

} // verus!
