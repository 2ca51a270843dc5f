//! The signature verifier: checks a quorum of guardian signatures against
//! the canonical digest and a provisioned guardian set, enforcing strictly
//! increasing guardian indices so no guardian can be counted twice.

use vstd::prelude::*;

use crate::crypto::check_signature;
use crate::crypto::sig_valid;
use crate::errors::VerificationError;
use crate::vaa::GuardianSignature;
use crate::vaa::Vaa;

verus! {

/// A provisioned guardian set: long-lived, externally provisioned, read-only
/// to this core.
pub struct GuardianSet {
    /// The index under which the set was provisioned.
    pub index: u32,
    /// The guardians' 20-byte addresses, in guardian-index order.
    pub keys: Vec<Vec<u8>>,
    /// The time the set expires, or zero for a set that never does.
    pub expiration_time: u32,
}

impl GuardianSet {
    /// Well-formedness: at least one guardian, few enough that a one-byte
    /// guardian index can name each, and 20-byte addresses throughout.
    pub open spec fn wf(self) -> bool {
        &&& 1 <= self.keys@.len() <= 255
        &&& forall|i: int| 0 <= i < self.keys@.len() ==> (#[trigger] self.keys@[i])@.len() == 20
    }

    /// Checks well-formedness of a provisioned set.
    pub fn check_wf(&self) -> (r: bool)
        ensures
            r == self.wf(),
    {
        if !(1 <= self.keys.len() && self.keys.len() <= 255) {
            return false;
        }
        let mut i: usize = 0;
        while i < self.keys.len()
            invariant
                i <= self.keys@.len(),
                forall|j: int| 0 <= j < i ==> (#[trigger] self.keys@[j])@.len() == 20,
            decreases self.keys@.len() - i,
        {
            if self.keys[i].len() != 20 {
                return false;
            }
            i = i + 1;
        }
        true
    }
}

/// The quorum for a set of `n` guardians: the least count of distinct valid
/// signatures that is at least two thirds of the set.
pub open spec fn quorum(n: int) -> int {
    (2 * n + 2) / 3
}

/// The quorum is the least count that is at least two thirds of the set:
/// three quorums cover the set twice, and one signature fewer would not.
pub proof fn lemma_quorum_is_two_thirds(n: int)
    requires
        n >= 1,
    ensures
        3 * quorum(n) >= 2 * n,
        3 * (quorum(n) - 1) < 2 * n,
        1 <= quorum(n) <= n,
{
}

/// One signature entry as the specification sees it: the guardian index and
/// the 65 signature bytes.
pub open spec fn sig_view(g: GuardianSignature) -> (u8, Seq<u8>) {
    (g.guardian_index, g.signature@)
}

/// The signature section of a decoded VAA, as index/bytes pairs.
pub open spec fn sigs_of(v: Vaa) -> Seq<(u8, Seq<u8>)> {
    v.signatures@.map_values(|g: GuardianSignature| sig_view(g))
}

/// Whether the `j`-th entry passes every per-signature rule: its index
/// strictly above its predecessor's, in range, and a valid signature by the
/// guardian it names.
pub open spec fn good_at(sigs: Seq<(u8, Seq<u8>)>, gs: GuardianSet, digest: Seq<u8>, j: int) -> bool {
    &&& j > 0 ==> sigs[j - 1].0 < sigs[j].0
    &&& (sigs[j].0 as int) < gs.keys@.len()
    &&& sig_valid(digest, sigs[j].1, gs.keys@[sigs[j].0 as int]@)
}

/// The first per-signature rule broken at or after position `i`, or success.
pub open spec fn scan_sigs(
    sigs: Seq<(u8, Seq<u8>)>,
    gs: GuardianSet,
    digest: Seq<u8>,
    i: int,
) -> Result<(), VerificationError>
    decreases sigs.len() - i,
{
    if i < 0 || i >= sigs.len() {
        Ok(())
    } else if i > 0 && sigs[i].0 <= sigs[i - 1].0 {
        Err(VerificationError::NonIncreasingGuardianIndex)
    } else if sigs[i].0 as int >= gs.keys@.len() {
        Err(VerificationError::GuardianIndexOutOfRange)
    } else if !sig_valid(digest, sigs[i].1, gs.keys@[sigs[i].0 as int]@) {
        Err(VerificationError::InvalidGuardianSignature)
    } else {
        scan_sigs(sigs, gs, digest, i + 1)
    }
}

/// What verification decides, in the order the checks run: the set named by
/// the VAA, its expiry relative to the VAA's claimed timestamp, the quorum
/// count, then each signature in turn.
pub open spec fn spec_verify(
    guardian_set_index: int,
    timestamp: int,
    sigs: Seq<(u8, Seq<u8>)>,
    digest: Seq<u8>,
    gs: GuardianSet,
) -> Result<(), VerificationError> {
    if guardian_set_index != gs.index as int {
        Err(VerificationError::UnknownGuardianSet)
    } else if gs.expiration_time != 0 && (gs.expiration_time as int) < timestamp {
        Err(VerificationError::GuardianSetExpired)
    } else if (sigs.len() as int) < quorum(gs.keys@.len() as int) {
        Err(VerificationError::QuorumNotMet)
    } else {
        scan_sigs(sigs, gs, digest, 0)
    }
}

/// Whether a VAA carries a full quorum of valid, strictly ordered guardian
/// signatures under an unexpired, matching set.
pub open spec fn quorum_verified(
    guardian_set_index: int,
    timestamp: int,
    sigs: Seq<(u8, Seq<u8>)>,
    digest: Seq<u8>,
    gs: GuardianSet,
) -> bool {
    &&& guardian_set_index == gs.index as int
    &&& !(gs.expiration_time != 0 && (gs.expiration_time as int) < timestamp)
    &&& sigs.len() >= quorum(gs.keys@.len() as int)
    &&& forall|j: int| 0 <= j < sigs.len() ==> good_at(sigs, gs, digest, j)
}

/// The scan succeeds exactly when every entry from `i` on passes its rules.
pub proof fn lemma_scan_ok(sigs: Seq<(u8, Seq<u8>)>, gs: GuardianSet, digest: Seq<u8>, i: int)
    requires
        0 <= i,
    ensures
        scan_sigs(sigs, gs, digest, i) is Ok <==> (forall|j: int|
            i <= j < sigs.len() ==> good_at(sigs, gs, digest, j)),
    decreases sigs.len() - i,
{
    if i < sigs.len() {
        lemma_scan_ok(sigs, gs, digest, i + 1);
        if good_at(sigs, gs, digest, i) && (forall|j: int|
            i + 1 <= j < sigs.len() ==> good_at(sigs, gs, digest, j)) {
            assert(forall|j: int| i <= j < sigs.len() ==> good_at(sigs, gs, digest, j));
        }
    }
}

/// Adjacent ordering carries across the whole section.
proof fn lemma_order_chain(
    sigs: Seq<(u8, Seq<u8>)>,
    gs: GuardianSet,
    digest: Seq<u8>,
    i: int,
    j: int,
)
    requires
        forall|k: int| 0 <= k < sigs.len() ==> good_at(sigs, gs, digest, k),
        0 <= i < j < sigs.len(),
    ensures
        sigs[i].0 < sigs[j].0,
    decreases j - i,
{
    assert(good_at(sigs, gs, digest, j));
    if i + 1 < j {
        lemma_order_chain(sigs, gs, digest, i, j - 1);
    }
}

/// In a verified quorum the guardian indices strictly increase across the
/// whole signature section, so no guardian is counted twice.
pub proof fn lemma_no_duplicate_guardians(
    guardian_set_index: int,
    timestamp: int,
    sigs: Seq<(u8, Seq<u8>)>,
    digest: Seq<u8>,
    gs: GuardianSet,
)
    requires
        quorum_verified(guardian_set_index, timestamp, sigs, digest, gs),
    ensures
        forall|i: int, j: int| 0 <= i < j < sigs.len() ==> sigs[i].0 < sigs[j].0,
{
    assert forall|i: int, j: int| 0 <= i < j < sigs.len() implies sigs[i].0 < sigs[j].0 by {
        lemma_order_chain(sigs, gs, digest, i, j);
    }
}

/// Verification succeeds exactly on a full, ordered, valid quorum.
pub proof fn lemma_verify_ok(
    guardian_set_index: int,
    timestamp: int,
    sigs: Seq<(u8, Seq<u8>)>,
    digest: Seq<u8>,
    gs: GuardianSet,
)
    ensures
        spec_verify(guardian_set_index, timestamp, sigs, digest, gs) is Ok <==> quorum_verified(
            guardian_set_index,
            timestamp,
            sigs,
            digest,
            gs,
        ),
{
    lemma_scan_ok(sigs, gs, digest, 0);
}

/// Checks the guardian signatures of a decoded VAA against the digest and a
/// provisioned guardian set. Succeeds exactly on a full quorum of valid
/// signatures with strictly increasing guardian indices, under a matching,
/// unexpired set; otherwise reports the first rule broken.
pub fn verify_signatures(vaa: &Vaa, digest: &Vec<u8>, gs: &GuardianSet) -> (r: Result<
    (),
    VerificationError,
>)
    requires
        gs.wf(),
    ensures
        r == spec_verify(
            vaa.guardian_set_index as int,
            vaa.timestamp as int,
            sigs_of(*vaa),
            digest@,
            *gs,
        ),
        r is Ok <==> quorum_verified(
            vaa.guardian_set_index as int,
            vaa.timestamp as int,
            sigs_of(*vaa),
            digest@,
            *gs,
        ),
{
    proof {
        lemma_verify_ok(
            vaa.guardian_set_index as int,
            vaa.timestamp as int,
            sigs_of(*vaa),
            digest@,
            *gs,
        );
    }
    if vaa.guardian_set_index != gs.index {
        return Err(VerificationError::UnknownGuardianSet);
    }
    if gs.expiration_time != 0 && gs.expiration_time < vaa.timestamp {
        return Err(VerificationError::GuardianSetExpired);
    }
    let n = vaa.signatures.len();
    // 2 * keys.len() cannot overflow: a well-formed set has at most 255 keys.
    if n < (2 * gs.keys.len() + 2) / 3 {
        return Err(VerificationError::QuorumNotMet);
    }
    let ghost sigs = sigs_of(*vaa);
    let mut i: usize = 0;
    while i < n
        invariant
            i <= n,
            n == sigs.len(),
            sigs == sigs_of(*vaa),
            gs.wf(),
            spec_verify(
                vaa.guardian_set_index as int,
                vaa.timestamp as int,
                sigs,
                digest@,
                *gs,
            ) == scan_sigs(sigs, *gs, digest@, i as int),
            forall|j: int| 0 <= j < i ==> good_at(sigs, *gs, digest@, j),
        decreases n - i,
    {
        proof {
            lemma_verify_ok(
                vaa.guardian_set_index as int,
                vaa.timestamp as int,
                sigs,
                digest@,
                *gs,
            );
            assert(sigs[i as int] == sig_view(vaa.signatures@[i as int]));
            if i > 0 {
                assert(sigs[i as int - 1] == sig_view(vaa.signatures@[i as int - 1]));
            }
        }
        let entry = &vaa.signatures[i];
        if i > 0 && entry.guardian_index <= vaa.signatures[i - 1].guardian_index {
            return Err(VerificationError::NonIncreasingGuardianIndex);
        }
        if entry.guardian_index as usize >= gs.keys.len() {
            return Err(VerificationError::GuardianIndexOutOfRange);
        }
        let key = &gs.keys[entry.guardian_index as usize];
        if !check_signature(digest, &entry.signature, key) {
            return Err(VerificationError::InvalidGuardianSignature);
        }
        i = i + 1;
    }
    Ok(())
}

} // verus!
