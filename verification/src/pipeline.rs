//! The receive pipeline: decode, digest, quorum verification, replay
//! protection, payload decoding and mint dispatch, failing closed at the
//! first broken rule. The replay commit happens before dispatch, so a
//! re-delivered attestation can never mint twice even if a mint attempt
//! failed downstream.

use vstd::prelude::*;

use crate::bytes::copy_range;
use crate::crypto::double_digest;
use crate::crypto::double_digest_of;
use crate::errors::ErrorCode;
use crate::mint::MintLedger;
use crate::payload::decode_payload;
use crate::payload::spec_decode_payload;
use crate::payload::TransferIntent;
use crate::replay::MessageId;
use crate::replay::ReplayRegistry;
use crate::vaa::body_of;
use crate::vaa::guardian_set_index_of;
use crate::vaa::message_id_of;
use crate::vaa::payload_of;
use crate::vaa::sig_bytes_at;
use crate::vaa::sig_count;
use crate::vaa::sig_index_at;
use crate::vaa::spec_decode_error;
use crate::vaa::timestamp_of;
use crate::vaa::wf_encoding;
use crate::vaa::Vaa;
use crate::verify::good_at;
use crate::verify::quorum;
use crate::verify::sigs_of;
use crate::verify::spec_verify;
use crate::verify::verify_signatures;
use crate::verify::GuardianSet;

verus! {

/// The signature section of an encoded buffer, as index/bytes pairs.
pub open spec fn sigs_view_of(s: Seq<u8>) -> Seq<(u8, Seq<u8>)> {
    Seq::new(sig_count(s) as nat, |i: int| (sig_index_at(s, i), sig_bytes_at(s, i)))
}

/// The canonical digest of an encoded buffer's body.
pub open spec fn digest_of(s: Seq<u8>) -> Seq<u8> {
    double_digest_of(body_of(s))
}

/// What verification decides for an encoded buffer under a guardian set.
pub open spec fn spec_verify_encoding(s: Seq<u8>, gs: GuardianSet) -> Result<
    (),
    crate::errors::VerificationError,
> {
    spec_verify(guardian_set_index_of(s), timestamp_of(s), sigs_view_of(s), digest_of(s), gs)
}

/// The terminal outcome of one submission: the decoded transfer intent, or
/// the first reason the pipeline rejects the buffer. Stages run in the fixed
/// order decode, verify, replay, payload.
pub open spec fn spec_outcome(s: Seq<u8>, gs: GuardianSet, consumed: Set<(int, Seq<u8>, int)>)
    -> Result<(Seq<u8>, Seq<u8>, Seq<u8>), ErrorCode> {
    if !wf_encoding(s) {
        Err(ErrorCode::Decode(spec_decode_error(s)))
    } else {
        match spec_verify_encoding(s, gs) {
            Err(e) => Err(ErrorCode::Verification(e)),
            Ok(u) => if consumed.contains(message_id_of(s)) {
                Err(ErrorCode::AlreadyConsumed)
            } else {
                match spec_decode_payload(payload_of(s)) {
                    Err(pe) => Err(ErrorCode::InvalidPayload(pe)),
                    Ok(t) => Ok(t),
                }
            },
        }
    }
}

/// The consumed set after one submission: the identifier is committed
/// exactly when the buffer decodes and verifies and was not consumed before,
/// whether or not its payload then decodes (fail-forward).
pub open spec fn spec_consumed_after(s: Seq<u8>, gs: GuardianSet, consumed: Set<(int, Seq<u8>, int)>)
    -> Set<(int, Seq<u8>, int)> {
    if wf_encoding(s) && spec_verify_encoding(s, gs) is Ok && !consumed.contains(message_id_of(s)) {
        consumed.insert(message_id_of(s))
    } else {
        consumed
    }
}

/// The context a submission runs against: the provisioned guardian set, the
/// replay registry and the mint ledger. Explicit parameters, so the pipeline
/// is testable in isolation.
pub struct ReceiveNft {
    /// The provisioned guardian set the VAA must name.
    pub guardian_set: GuardianSet,
    /// The registry of consumed message identifiers.
    pub registry: ReplayRegistry,
    /// The book of wrapped assets minted so far.
    pub ledger: MintLedger,
}

/// Processes one incoming VAA: decodes the buffer, verifies a quorum of
/// guardian signatures over the double-hash digest of the body, consumes the
/// message identifier, decodes the transfer payload and mints the wrapped
/// asset, exactly once per identifier. Every rejection names the first rule
/// broken; decode and verification failures leave all state untouched.
pub fn receive_nft(ctx: &mut ReceiveNft, vaa_data: &Vec<u8>) -> (r: Result<
    TransferIntent,
    ErrorCode,
>)
    requires
        old(ctx).guardian_set.wf(),
    ensures
        r is Ok <==> spec_outcome(vaa_data@, old(ctx).guardian_set, old(ctx).registry@) is Ok,
        r matches Ok(t) ==> t@ == spec_outcome(
            vaa_data@,
            old(ctx).guardian_set,
            old(ctx).registry@,
        ).unwrap(),
        r matches Err(e) ==> spec_outcome(vaa_data@, old(ctx).guardian_set, old(ctx).registry@)
            == Err::<(Seq<u8>, Seq<u8>, Seq<u8>), ErrorCode>(e),
        final(ctx).registry@ =~= spec_consumed_after(
            vaa_data@,
            old(ctx).guardian_set,
            old(ctx).registry@,
        ),
        final(ctx).guardian_set == old(ctx).guardian_set,
        r is Ok ==> final(ctx).ledger@ =~= old(ctx).ledger@.push(
            spec_outcome(vaa_data@, old(ctx).guardian_set, old(ctx).registry@).unwrap(),
        ),
        r is Err ==> final(ctx).ledger@ == old(ctx).ledger@,
{
    let vaa = match Vaa::parse(vaa_data) {
        Err(e) => {
            return Err(ErrorCode::Decode(e));
        },
        Ok(v) => v,
    };
    let n = vaa.signatures.len();
    let body = copy_range(vaa_data, 6 + 66 * n, vaa_data.len());
    let digest = double_digest(&body);
    proof {
        assert(sigs_of(vaa) =~= sigs_view_of(vaa_data@));
    }
    match verify_signatures(&vaa, &digest, &ctx.guardian_set) {
        Err(e) => {
            return Err(ErrorCode::Verification(e));
        },
        Ok(u) => {},
    }
    let id = MessageId {
        emitter_chain: vaa.emitter_chain,
        emitter_address: vaa.emitter_address,
        sequence: vaa.sequence,
    };
    match ctx.registry.consume(&id) {
        Err(e) => {
            return Err(e);
        },
        Ok(u) => {},
    }
    let intent = match decode_payload(&vaa.payload) {
        Err(e) => {
            return Err(ErrorCode::InvalidPayload(e));
        },
        Ok(t) => t,
    };
    let intent = ctx.ledger.dispatch(intent);
    Ok(intent)
}

/// The consumed set after `n` identical submissions of the same buffer.
pub open spec fn spec_consumed_after_n(
    s: Seq<u8>,
    gs: GuardianSet,
    consumed: Set<(int, Seq<u8>, int)>,
    n: nat,
) -> Set<(int, Seq<u8>, int)>
    decreases n,
{
    if n == 0 {
        consumed
    } else {
        spec_consumed_after(s, gs, spec_consumed_after_n(s, gs, consumed, (n - 1) as nat))
    }
}

/// An accepted submission is accepted exactly once: resubmitting the
/// identical buffer is rejected as already consumed, and the registry does
/// not change again.
pub proof fn lemma_minted_exactly_once(s: Seq<u8>, gs: GuardianSet, consumed: Set<(int, Seq<u8>, int)>)
    requires
        spec_outcome(s, gs, consumed) is Ok,
    ensures
        spec_outcome(s, gs, spec_consumed_after(s, gs, consumed)) == Err::<
            (Seq<u8>, Seq<u8>, Seq<u8>),
            ErrorCode,
        >(ErrorCode::AlreadyConsumed),
        spec_consumed_after(s, gs, spec_consumed_after(s, gs, consumed)) == spec_consumed_after(
            s,
            gs,
            consumed,
        ),
{
}

/// However many identical submissions follow an accepted one, every one of
/// them is rejected as already consumed and the registry never changes
/// again: exactly one caller observes acceptance.
pub proof fn lemma_identical_submissions(
    s: Seq<u8>,
    gs: GuardianSet,
    consumed: Set<(int, Seq<u8>, int)>,
    n: nat,
)
    requires
        spec_outcome(s, gs, consumed) is Ok,
        n >= 1,
    ensures
        spec_consumed_after_n(s, gs, consumed, n) == consumed.insert(message_id_of(s)),
        spec_outcome(s, gs, spec_consumed_after_n(s, gs, consumed, n)) == Err::<
            (Seq<u8>, Seq<u8>, Seq<u8>),
            ErrorCode,
        >(ErrorCode::AlreadyConsumed),
    decreases n,
{
    if n == 1 {
    } else {
        lemma_identical_submissions(s, gs, consumed, (n - 1) as nat);
    }
}

/// A buffer shorter than the least well-formed length is rejected as a
/// decode failure and never touches the replay guard.
pub proof fn lemma_short_buffer_rejected(
    s: Seq<u8>,
    gs: GuardianSet,
    consumed: Set<(int, Seq<u8>, int)>,
)
    requires
        s.len() < 57,
    ensures
        spec_outcome(s, gs, consumed) matches Err(e) && e matches ErrorCode::Decode(_),
        spec_consumed_after(s, gs, consumed) == consumed,
{
    assert(!wf_encoding(s));
}

/// A VAA carrying fewer signatures than the quorum requires is rejected as a
/// verification failure and never touches the replay guard.
pub proof fn lemma_insufficient_signatures_rejected(
    s: Seq<u8>,
    gs: GuardianSet,
    consumed: Set<(int, Seq<u8>, int)>,
)
    requires
        wf_encoding(s),
        sig_count(s) < quorum(gs.keys@.len() as int),
    ensures
        spec_outcome(s, gs, consumed) matches Err(e) && e matches ErrorCode::Verification(_),
        spec_consumed_after(s, gs, consumed) == consumed,
{
    assert(sigs_view_of(s).len() == sig_count(s));
}

/// Guardian indices out of order anywhere in the signature section make
/// verification fail, whatever the signatures themselves are.
pub proof fn lemma_disordered_indices_rejected(
    s: Seq<u8>,
    gs: GuardianSet,
    consumed: Set<(int, Seq<u8>, int)>,
    i: int,
)
    requires
        wf_encoding(s),
        0 < i < sig_count(s),
        sig_index_at(s, i) <= sig_index_at(s, i - 1),
    ensures
        spec_outcome(s, gs, consumed) matches Err(e) && e matches ErrorCode::Verification(_),
        spec_consumed_after(s, gs, consumed) == consumed,
{
    if spec_verify_encoding(s, gs) is Ok {
        crate::verify::lemma_scan_ok(sigs_view_of(s), gs, digest_of(s), 0);
        assert(good_at(sigs_view_of(s), gs, digest_of(s), i));
        assert(false);
    }
}

/// A verified, fresh VAA whose payload is empty or not UTF-8 is rejected as
/// an invalid payload, yet its identifier stays consumed: the failure is
/// fail-forward, and the identical buffer can never be replayed to mint.
pub proof fn lemma_invalid_payload_fail_forward(
    s: Seq<u8>,
    gs: GuardianSet,
    consumed: Set<(int, Seq<u8>, int)>,
)
    requires
        wf_encoding(s),
        spec_verify_encoding(s, gs) is Ok,
        !consumed.contains(message_id_of(s)),
        payload_of(s).len() == 0 || !crate::payload::is_utf8(payload_of(s)),
    ensures
        spec_outcome(s, gs, consumed) matches Err(e) && e matches ErrorCode::InvalidPayload(_),
        spec_consumed_after(s, gs, consumed) == consumed.insert(message_id_of(s)),
{
}

/// A submission whose identifier was consumed before is rejected as already
/// consumed and changes nothing, whichever caller submits it.
pub proof fn lemma_replay_rejected(
    s: Seq<u8>,
    gs: GuardianSet,
    consumed: Set<(int, Seq<u8>, int)>,
)
    requires
        wf_encoding(s),
        spec_verify_encoding(s, gs) is Ok,
        consumed.contains(message_id_of(s)),
    ensures
        spec_outcome(s, gs, consumed) == Err::<(Seq<u8>, Seq<u8>, Seq<u8>), ErrorCode>(
            ErrorCode::AlreadyConsumed,
        ),
        spec_consumed_after(s, gs, consumed) == consumed,
{
}

/// The registry grows monotonically: no submission ever removes an
/// identifier.
pub proof fn lemma_registry_monotonic(
    s: Seq<u8>,
    gs: GuardianSet,
    consumed: Set<(int, Seq<u8>, int)>,
)
    ensures
        consumed.subset_of(spec_consumed_after(s, gs, consumed)),
{
}

} // verus!
