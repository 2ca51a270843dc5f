//! Rejection reasons. Every failure of the pipeline is terminal for the
//! submission that caused it and carries a distinguishable reason.

use vstd::prelude::*;

verus! {

/// Why a byte buffer failed to decode as a VAA.
#[derive(Clone, Copy, Debug, PartialEq, Eq, Structural)]
pub enum DecodeError {
    /// The buffer ends before a fixed-width or length-prefixed field does.
    Truncated,
    /// The leading version tag is not the supported one.
    UnsupportedVersion,
}

/// Why a decoded VAA failed signature verification.
#[derive(Clone, Copy, Debug, PartialEq, Eq, Structural)]
pub enum VerificationError {
    /// The VAA names a guardian set other than the one provisioned.
    UnknownGuardianSet,
    /// The guardian set expired before the VAA's claimed timestamp.
    GuardianSetExpired,
    /// Fewer signatures are present than the quorum requires.
    QuorumNotMet,
    /// Guardian indices are not strictly increasing.
    NonIncreasingGuardianIndex,
    /// A signature names a guardian index outside the set.
    GuardianIndexOutOfRange,
    /// A signature does not recover to the named guardian's key.
    InvalidGuardianSignature,
}

/// Why an authenticated payload failed to decode as a transfer intent.
#[derive(Clone, Copy, Debug, PartialEq, Eq, Structural)]
pub enum PayloadError {
    /// The payload holds no bytes at all.
    EmptyPayload,
    /// The payload is not valid UTF-8.
    NotUtf8,
    /// The payload does not begin with the transfer tag.
    MissingTag,
    /// No separator follows the asset descriptor.
    MissingSeparator,
    /// The asset descriptor holds no bytes.
    EmptyAssetDescriptor,
    /// The metadata segment holds no bytes.
    EmptyMetadata,
}

/// The terminal rejection reasons of the receive pipeline.
#[derive(Clone, Copy, Debug, PartialEq, Eq, Structural)]
pub enum ErrorCode {
    /// The buffer is not a well-formed VAA.
    Decode(DecodeError),
    /// The VAA failed quorum verification.
    Verification(VerificationError),
    /// The message identifier was consumed before; nothing was repeated.
    AlreadyConsumed,
    /// The authenticated payload is malformed; the identifier stays consumed.
    InvalidPayload(PayloadError),
    /// The external mint collaborator failed after the replay commit.
    MintFailure,
}

} // verus!
