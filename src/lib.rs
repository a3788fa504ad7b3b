//! Signature and address post-processing for a hardware-wallet signing
//! application: DER signatures are repacked into a fixed 64-byte form, public
//! keys are compressed and hashed, and key hashes are rendered as bech32 text.
pub mod address;
pub mod pending;
pub mod pubkey;
pub mod signature;

pub use address::{get_pkh, HRP, PKH};
pub use pending::{pending_message, pending_next, PendingEvent, PendingScreen};
pub use pubkey::{compress_public_key, get_pubkey, CxError, UncompressedPublicKey};
pub use signature::format_signature;
