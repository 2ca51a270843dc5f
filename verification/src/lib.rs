//! Cross-chain message receiver: authenticates guardian-signed attestations
//! (VAAs) against a provisioned guardian set, protects every message
//! identifier against replay, decodes the transfer payload, and mints a
//! wrapped asset exactly once per attestation.

pub mod bytes;
pub mod crypto;
pub mod errors;
pub mod mint;
pub mod replay;
pub mod payload;
pub mod pipeline;
pub mod vaa;
pub mod verify;
