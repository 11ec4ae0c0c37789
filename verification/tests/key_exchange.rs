use secure_channel::keypair::{
    init_keypair, open_session, session_from_entropy, session_from_scalar, KeyPair,
};
use std::num::NonZeroU32;
use secure_channel::ChannelError;

fn hex32(text: &str) -> [u8; 32] {
    assert_eq!(text.len(), 64);
    let digits: Vec<u8> = text
        .chars()
        .map(|c| c.to_digit(16).expect("hex digit") as u8)
        .collect();
    let mut out = [0u8; 32];
    for i in 0..32 {
        out[i] = digits[2 * i] * 16 + digits[2 * i + 1];
    }
    out
}

// The key pairs and the shared secret of RFC 7748, section 6.1.
const ALICE_PRIVATE: &str = "77076d0a7318a57d3c16c17251b26645df4c2f87ebc0992ab177fba51db92c2a";
const ALICE_PUBLIC: &str = "8520f0098930a754748b7ddcb43ef75a0dbf3a0d26381af4eba4a98eaa9b4e6a";
const BOB_PRIVATE: &str = "5dab087e624a8a4b79e17f8b83800ee66f3bb1292618b6fd1c2f8b27ff88e0eb";
const BOB_PUBLIC: &str = "de9edb7d7b7dc1b4d35b61c2ece435373f8343c85b78674dadfc7e146f882b4f";
const SHARED: &str = "4a5d9d5ba4ce2de1728e3bf480350f25e07e21c947d19e3376f09b3c1e161742";

#[test]
fn new_pair_is_fresh_and_empty() {
    let pair = KeyPair::new(([7u8; 32], [9u8; 32]), vec![1, 2, 3]);
    assert_eq!(pair.prv_k, Some([7u8; 32]));
    assert_eq!(pair.pub_k, [9u8; 32]);
    assert_eq!(pair.signature, vec![1, 2, 3]);
    assert!(pair.session_key.is_empty());
    assert_eq!(pair.timestamp, 0);
}

#[test]
fn public_key_of_known_scalar() {
    let (scalar, public) = session_from_scalar(hex32(ALICE_PRIVATE));
    assert_eq!(scalar, hex32(ALICE_PRIVATE));
    assert_eq!(public, hex32(ALICE_PUBLIC));

    let (scalar, public) = session_from_scalar(hex32(BOB_PRIVATE));
    assert_eq!(scalar, hex32(BOB_PRIVATE));
    assert_eq!(public, hex32(BOB_PUBLIC));
}

#[test]
fn public_key_matches_the_curve_library() {
    let scalar = [0x24u8; 32];
    let (_, public) = session_from_scalar(scalar);
    assert_eq!(
        public,
        x25519_dalek::x25519(scalar, x25519_dalek::X25519_BASEPOINT_BYTES)
    );
}

#[test]
fn shared_secret_of_known_pairs() {
    let mut alice = KeyPair::new(session_from_scalar(hex32(ALICE_PRIVATE)), Vec::new());
    let mut bob = KeyPair::new(session_from_scalar(hex32(BOB_PRIVATE)), Vec::new());
    let alice_public = alice.pub_k;
    let bob_public = bob.pub_k;

    assert_eq!(alice.compute_shared_key(&bob_public, &[]), Ok(hex32(SHARED)));
    assert_eq!(bob.compute_shared_key(&alice_public, &[]), Ok(hex32(SHARED)));
    assert_eq!(alice.session_key, hex32(SHARED).to_vec());
    assert_eq!(bob.session_key, hex32(SHARED).to_vec());
}

#[test]
fn shared_secret_of_known_scalar_and_point() {
    // First vector of RFC 7748, section 5.2.
    let scalar = hex32("a546e36bf0527c9d3b16154b82465edd62144c0ac1fc5a18506a2244ba449ac4");
    let point = hex32("e6db6867583030db3594c1a424b15f7c726624ec26b3353b10a903a6d0ab1c4c");
    let expected = hex32("c3da55379de9c6908e94ea4df28d084f32eccf03491c71f754b4075577a28552");

    let mut pair = KeyPair::new(session_from_scalar(scalar), Vec::new());
    assert_eq!(pair.compute_shared_key(&point, &[]), Ok(expected));
    assert_eq!(pair.session_key, expected.to_vec());
}

#[test]
fn agreement_spends_the_private_key() {
    let mut pair = KeyPair::new(session_from_scalar([3u8; 32]), vec![0xaa]);
    let public = pair.pub_k;
    let shared = pair.compute_shared_key(&hex32(BOB_PUBLIC), &[]).unwrap();

    assert_eq!(pair.prv_k, None);
    assert_eq!(pair.session_key, shared.to_vec());
    assert_eq!(pair.session_key.len(), 32);
    assert_eq!(pair.pub_k, public);
    assert_eq!(pair.signature, vec![0xaa]);
    assert_eq!(pair.timestamp, 0);
}

#[test]
fn agreement_is_symmetric_for_generated_pairs() {
    for _ in 0..8 {
        let mut a = init_keypair().unwrap();
        let mut b = init_keypair().unwrap();
        let a_public = a.pub_k;
        let b_public = b.pub_k;
        let from_a = a.compute_shared_key(&b_public, &[]);
        let from_b = b.compute_shared_key(&a_public, &[]);
        assert!(from_a.is_ok());
        assert_eq!(from_a, from_b);
        assert_eq!(a.session_key, b.session_key);
    }
}

#[test]
fn second_agreement_fails_and_keeps_the_session_key() {
    let mut pair = init_keypair().unwrap();
    let first = pair.compute_shared_key(&hex32(ALICE_PUBLIC), &[]).unwrap();
    let kept = pair.session_key.clone();
    assert_eq!(kept, first.to_vec());

    assert_eq!(
        pair.compute_shared_key(&hex32(BOB_PUBLIC), &[]),
        Err(ChannelError::KeyAlreadyConsumed)
    );
    assert_eq!(pair.session_key, kept);
    assert_eq!(pair.prv_k, None);

    assert_eq!(
        pair.compute_shared_key(&hex32(ALICE_PUBLIC), &[]),
        Err(ChannelError::KeyAlreadyConsumed)
    );
    assert_eq!(pair.session_key, kept);
}

#[test]
fn spent_pair_refuses_without_a_session_key_too() {
    let mut pair = KeyPair {
        prv_k: None,
        pub_k: [1u8; 32],
        signature: vec![5],
        session_key: Vec::new(),
        timestamp: 42,
    };
    assert_eq!(
        pair.compute_shared_key(&[9u8; 32], &[]),
        Err(ChannelError::KeyAlreadyConsumed)
    );
    assert_eq!(pair.prv_k, None);
    assert_eq!(pair.pub_k, [1u8; 32]);
    assert_eq!(pair.signature, vec![5]);
    assert!(pair.session_key.is_empty());
    assert_eq!(pair.timestamp, 42);
}

#[test]
fn peer_signature_is_ignored() {
    let mut plain = KeyPair::new(session_from_scalar([11u8; 32]), Vec::new());
    let mut signed = KeyPair::new(session_from_scalar([11u8; 32]), Vec::new());
    let peer = hex32(BOB_PUBLIC);
    assert_eq!(
        plain.compute_shared_key(&peer, &[]),
        signed.compute_shared_key(&peer, b"not a signature")
    );
}

#[test]
fn low_order_peer_key_is_accepted() {
    // The all-zero point is not rejected; the secret it yields is all zero.
    let mut pair = KeyPair::new(session_from_scalar([0x42u8; 32]), Vec::new());
    assert_eq!(pair.compute_shared_key(&[0u8; 32], &[]), Ok([0u8; 32]));
    assert_eq!(pair.session_key, vec![0u8; 32]);
    assert_eq!(pair.prv_k, None);
}

#[test]
fn store_shared_secret_spends_and_stores() {
    let mut pair = KeyPair::new(([1u8; 32], [2u8; 32]), vec![3]);
    pair.timestamp = 7;
    pair.store_shared_secret(&[0xabu8; 32]);
    assert_eq!(pair.prv_k, None);
    assert_eq!(pair.session_key, vec![0xabu8; 32]);
    assert_eq!(pair.pub_k, [2u8; 32]);
    assert_eq!(pair.signature, vec![3]);
    assert_eq!(pair.timestamp, 7);
}

#[test]
fn open_session_gives_matching_halves() {
    let (scalar, public) = open_session().unwrap();
    assert_eq!(session_from_scalar(scalar), (scalar, public));
}

#[test]
fn generated_pairs_are_fresh_and_distinct() {
    let a = init_keypair().unwrap();
    let b = init_keypair().unwrap();

    assert!(a.prv_k.is_some());
    assert!(a.session_key.is_empty());
    assert!(a.signature.is_empty());
    assert_eq!(a.timestamp, 0);
    assert_eq!(session_from_scalar(a.prv_k.unwrap()).1, a.pub_k);

    assert_ne!(a.prv_k, b.prv_k);
    assert_ne!(a.pub_k, b.pub_k);
}

#[test]
fn failed_random_source_is_entropy_unavailable() {
    let failure = rand_core::Error::from(NonZeroU32::new(rand_core::Error::CUSTOM_START).unwrap());
    assert_eq!(
        session_from_entropy(Err(failure)),
        Err(ChannelError::EntropyUnavailable)
    );
}

#[test]
fn sampled_bytes_become_the_private_scalar() {
    let scalar = hex32(ALICE_PRIVATE);
    assert_eq!(
        session_from_entropy(Ok(scalar)),
        Ok((scalar, hex32(ALICE_PUBLIC)))
    );
    assert_eq!(session_from_entropy(Ok(scalar)), Ok(session_from_scalar(scalar)));
}
