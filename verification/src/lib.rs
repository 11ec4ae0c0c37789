//! Ephemeral X25519 key agreement followed by AES-128-GCM sealing of traffic
//! under the agreed session key.
//!
//! A session starts with [`init_keypair`]. The public key goes to the peer;
//! the peer's public key goes into [`KeyPair::compute_shared_key`], which
//! spends the private scalar and leaves the session key. From then on
//! [`KeyPair::encrypt_with_smk`] and [`KeyPair::decrypt_with_smk`], or a
//! [`SessionCipher`] made from the session key, seal and open the traffic.
//!
//! The curve and the cipher are those of `x25519-dalek` and `aes-gcm`. The
//! modules [`x25519`] and [`aead`] hold all that is assumed of them;
//! everything else is proved from that.

pub mod aead;
pub mod cipher;
pub mod error;
pub mod keypair;
pub mod x25519;

pub use cipher::SessionCipher;
pub use error::ChannelError;
pub use keypair::{
    init_keypair, open_session, session_from_entropy, session_from_scalar, KeyPair,
};
