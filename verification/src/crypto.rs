//! Cryptographic primitives behind trusted wrappers: the keccak-256 hash and
//! secp256k1 public-key recovery, both deterministic functions of their
//! arguments. Everything built on top of them is verified.

use vstd::prelude::*;

use crate::bytes::copy_range;
use crate::bytes::eq_bytes;

verus! {

/// The keccak-256 digest of a byte sequence.
pub uninterp spec fn keccak_of(s: Seq<u8>) -> Seq<u8>;

/// The secp256k1 public key (64 bytes, uncompressed, without prefix)
/// recovered from a 32-byte digest, a recovery id and a 64-byte signature;
/// `None` where the inputs recover no key.
pub uninterp spec fn secp_recover_of(digest: Seq<u8>, recovery_id: u8, sig: Seq<u8>) -> Option<
    Seq<u8>,
>;

/// Relies on `solana_program::keccak::hash`: the keccak-256 digest of the
/// input, always 32 bytes.
#[verifier::external_body]
fn keccak256(b: &Vec<u8>) -> (r: Vec<u8>)
    ensures
        r@ == keccak_of(b@),
        r@.len() == 32,
{
    anchor_lang::solana_program::keccak::hash(b.as_slice()).0.to_vec()
}

/// Relies on `solana_program::secp256k1_recover::secp256k1_recover`: recovers
/// the 64-byte secp256k1 public key from a digest, recovery id and signature,
/// and reports every malformed or unrecoverable input as an error.
#[verifier::external_body]
fn recover_pubkey(digest: &Vec<u8>, recovery_id: u8, sig: &Vec<u8>) -> (r: Option<Vec<u8>>)
    ensures
        r is Some <==> secp_recover_of(digest@, recovery_id, sig@) is Some,
        r matches Some(p) ==> p@ == secp_recover_of(digest@, recovery_id, sig@).unwrap()
            && p@.len() == 64,
{
    match anchor_lang::solana_program::secp256k1_recover::secp256k1_recover(
        digest.as_slice(),
        recovery_id,
        sig.as_slice(),
    ) {
        Ok(pk) => Some(pk.0.to_vec()),
        Err(_) => None,
    }
}

/// The canonical digest guardians sign: the hash applied twice to the VAA
/// body, for domain separation from single-hash usages.
pub open spec fn double_digest_of(body: Seq<u8>) -> Seq<u8> {
    keccak_of(keccak_of(body))
}

/// The 20-byte guardian address of a recovered 64-byte public key: the last
/// 20 bytes of the key's keccak-256 digest.
pub open spec fn address_of(pubkey: Seq<u8>) -> Seq<u8> {
    keccak_of(pubkey).subrange(12, 32)
}

/// Whether a 65-byte guardian signature over `digest` recovers to the
/// guardian address `key`.
pub open spec fn sig_valid(digest: Seq<u8>, sig: Seq<u8>, key: Seq<u8>) -> bool {
    &&& sig.len() == 65
    &&& match secp_recover_of(digest, sig[64], sig.subrange(0, 64)) {
        Some(pk) => address_of(pk) == key,
        None => false,
    }
}

/// Computes the canonical double-hash digest of a VAA body.
pub fn double_digest(body: &Vec<u8>) -> (r: Vec<u8>)
    ensures
        r@ == double_digest_of(body@),
        r@.len() == 32,
{
    let once = keccak256(body);
    keccak256(&once)
}

/// Computes the 20-byte guardian address of a 64-byte public key.
pub fn guardian_address(pubkey: &Vec<u8>) -> (r: Vec<u8>)
    ensures
        r@ == address_of(pubkey@),
        r@.len() == 20,
{
    let h = keccak256(pubkey);
    copy_range(&h, 12, 32)
}

/// Checks one guardian signature against the digest and the guardian address
/// expected at its index.
pub fn check_signature(digest: &Vec<u8>, sig: &Vec<u8>, key: &Vec<u8>) -> (r: bool)
    ensures
        r == sig_valid(digest@, sig@, key@),
{
    if sig.len() != 65 {
        return false;
    }
    let recovery_id = sig[64];
    let sig64 = copy_range(sig, 0, 64);
    match recover_pubkey(digest, recovery_id, &sig64) {
        Some(pk) => {
            let addr = guardian_address(&pk);
            eq_bytes(&addr, key)
        },
        None => false,
    }
}

} // verus!
