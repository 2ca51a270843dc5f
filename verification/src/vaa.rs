//! The VAA wire format and its decoder: fixed-position big-endian header
//! fields, a length-prefixed signature section, and a variable-length body
//! whose tail is the application payload.

use vstd::prelude::*;

use crate::bytes::be16_at;
use crate::bytes::be32_at;
use crate::bytes::be64_at;
use crate::bytes::copy_range;
use crate::bytes::read_be16;
use crate::bytes::read_be32;
use crate::bytes::read_be64;
use crate::errors::DecodeError;

verus! {

/// The one version tag this decoder supports.
pub open spec fn supported_version() -> u8 {
    1u8
}

/// The count of signatures a buffer declares (its sixth byte).
pub open spec fn sig_count(s: Seq<u8>) -> int {
    s[5] as int
}

/// The offset at which the signed body starts.
pub open spec fn body_start(s: Seq<u8>) -> int {
    6 + 66 * sig_count(s)
}

/// The least length a buffer with this signature count can have: header,
/// signature section, and the 51 fixed body bytes.
pub open spec fn min_len(s: Seq<u8>) -> int {
    body_start(s) + 51
}

/// Whether a buffer is a well-formed VAA encoding.
pub open spec fn wf_encoding(s: Seq<u8>) -> bool {
    &&& s.len() >= 6
    &&& s[0] == supported_version()
    &&& s.len() >= min_len(s)
}

/// The error a malformed buffer decodes to.
pub open spec fn spec_decode_error(s: Seq<u8>) -> DecodeError {
    if s.len() < 6 {
        DecodeError::Truncated
    } else if s[0] != supported_version() {
        DecodeError::UnsupportedVersion
    } else {
        DecodeError::Truncated
    }
}

/// The guardian index byte of the `i`-th signature entry.
pub open spec fn sig_index_at(s: Seq<u8>, i: int) -> u8 {
    s[6 + 66 * i]
}

/// The 65 signature bytes of the `i`-th signature entry.
pub open spec fn sig_bytes_at(s: Seq<u8>, i: int) -> Seq<u8> {
    s.subrange(7 + 66 * i, 7 + 66 * i + 65)
}

/// The signed body: everything after the signature section.
pub open spec fn body_of(s: Seq<u8>) -> Seq<u8> {
    s.subrange(body_start(s), s.len() as int)
}

pub open spec fn guardian_set_index_of(s: Seq<u8>) -> int {
    be32_at(s, 1)
}

pub open spec fn timestamp_of(s: Seq<u8>) -> int {
    be32_at(s, body_start(s))
}

pub open spec fn nonce_of(s: Seq<u8>) -> int {
    be32_at(s, body_start(s) + 4)
}

pub open spec fn emitter_chain_of(s: Seq<u8>) -> int {
    be16_at(s, body_start(s) + 8)
}

pub open spec fn emitter_address_of(s: Seq<u8>) -> Seq<u8> {
    s.subrange(body_start(s) + 10, body_start(s) + 42)
}

pub open spec fn sequence_of(s: Seq<u8>) -> int {
    be64_at(s, body_start(s) + 42)
}

pub open spec fn consistency_level_of(s: Seq<u8>) -> u8 {
    s[body_start(s) + 50]
}

/// The application payload: the tail of the body.
pub open spec fn payload_of(s: Seq<u8>) -> Seq<u8> {
    s.subrange(body_start(s) + 51, s.len() as int)
}

/// The replay-registry key of a message: emitter chain, emitter address and
/// sequence number, which together are globally unique per genuine message.
pub open spec fn message_id_of(s: Seq<u8>) -> (int, Seq<u8>, int) {
    (emitter_chain_of(s), emitter_address_of(s), sequence_of(s))
}

/// The two big-endian bytes of a 16-bit value.
pub open spec fn be16_bytes(x: int) -> Seq<u8> {
    seq![((x / 0x100) % 0x100) as u8, (x % 0x100) as u8]
}

/// The four big-endian bytes of a 32-bit value.
pub open spec fn be32_bytes(x: int) -> Seq<u8> {
    seq![
        ((x / 0x1000000) % 0x100) as u8,
        ((x / 0x10000) % 0x100) as u8,
        ((x / 0x100) % 0x100) as u8,
        (x % 0x100) as u8,
    ]
}

/// The eight big-endian bytes of a 64-bit value: its two 32-bit halves.
pub open spec fn be64_bytes(x: int) -> Seq<u8> {
    be32_bytes(x / 0x100000000) + be32_bytes(x % 0x100000000)
}

/// Reading two bytes big-endian and writing the value back give the same
/// two bytes.
pub proof fn lemma_be16_roundtrip(s: Seq<u8>, i: int)
    requires
        0 <= i,
        i + 2 <= s.len(),
    ensures
        be16_bytes(be16_at(s, i)) == s.subrange(i, i + 2),
{
    let a = s[i] as int;
    let b = s[i + 1] as int;
    assert((a * 0x100 + b) / 0x100 == a && (a * 0x100 + b) % 0x100 == b) by (nonlinear_arith)
        requires
            0 <= a < 0x100,
            0 <= b < 0x100,
    ;
    assert(be16_bytes(be16_at(s, i)) =~= s.subrange(i, i + 2));
}

/// Reading four bytes big-endian and writing the value back give the same
/// four bytes.
pub proof fn lemma_be32_roundtrip(s: Seq<u8>, i: int)
    requires
        0 <= i,
        i + 4 <= s.len(),
    ensures
        be32_bytes(be32_at(s, i)) == s.subrange(i, i + 4),
{
    let a = s[i] as int;
    let b = s[i + 1] as int;
    let c = s[i + 2] as int;
    let d = s[i + 3] as int;
    let x = a * 0x1000000 + b * 0x10000 + c * 0x100 + d;
    assert(x / 0x1000000 % 0x100 == a && x / 0x10000 % 0x100 == b && x / 0x100 % 0x100 == c && x
        % 0x100 == d) by (nonlinear_arith)
        requires
            0 <= a < 0x100,
            0 <= b < 0x100,
            0 <= c < 0x100,
            0 <= d < 0x100,
            x == a * 0x1000000 + b * 0x10000 + c * 0x100 + d,
    ;
    assert(be32_bytes(be32_at(s, i)) =~= s.subrange(i, i + 4));
}

/// Reading eight bytes big-endian and writing the value back give the same
/// eight bytes.
pub proof fn lemma_be64_roundtrip(s: Seq<u8>, i: int)
    requires
        0 <= i,
        i + 8 <= s.len(),
    ensures
        be64_bytes(be64_at(s, i)) == s.subrange(i, i + 8),
{
    let hi = be32_at(s, i);
    let lo = be32_at(s, i + 4);
    let x = be64_at(s, i);
    assert(x == hi * 0x100000000 + lo);
    assert(x / 0x100000000 == hi && x % 0x100000000 == lo) by (nonlinear_arith)
        requires
            0 <= hi,
            0 <= lo < 0x100000000,
            x == hi * 0x100000000 + lo,
    ;
    lemma_be32_roundtrip(s, i);
    lemma_be32_roundtrip(s, i + 4);
    assert(be64_bytes(be64_at(s, i)) =~= s.subrange(i, i + 8));
}

/// One guardian's entry in the signature section.
pub struct GuardianSignature {
    /// The index of the signing guardian in the guardian set.
    pub guardian_index: u8,
    /// The 65 signature bytes: 64 signature bytes then the recovery id.
    pub signature: Vec<u8>,
}

/// A decoded VAA. Immutable once parsed; owned by the invocation that
/// parsed it.
pub struct Vaa {
    pub version: u8,
    pub guardian_set_index: u32,
    pub signatures: Vec<GuardianSignature>,
    pub timestamp: u32,
    pub nonce: u32,
    pub emitter_chain: u16,
    pub emitter_address: Vec<u8>,
    pub sequence: u64,
    pub consistency_level: u8,
    pub payload: Vec<u8>,
}

impl Vaa {
    /// Whether this value reports exactly the fields of the encoding `s`.
    pub open spec fn decodes(self, s: Seq<u8>) -> bool {
        &&& self.version == s[0]
        &&& self.guardian_set_index as int == guardian_set_index_of(s)
        &&& self.signatures@.len() == sig_count(s)
        &&& forall|i: int|
            0 <= i < sig_count(s) ==> (#[trigger] self.signatures@[i]).guardian_index
                == sig_index_at(s, i) && self.signatures@[i].signature@ == sig_bytes_at(s, i)
        &&& self.timestamp as int == timestamp_of(s)
        &&& self.nonce as int == nonce_of(s)
        &&& self.emitter_chain as int == emitter_chain_of(s)
        &&& self.emitter_address@ == emitter_address_of(s)
        &&& self.sequence as int == sequence_of(s)
        &&& self.consistency_level == consistency_level_of(s)
        &&& self.payload@ == payload_of(s)
    }

    /// Decodes an untrusted byte buffer. Returns the decoded VAA exactly when
    /// the buffer is well formed, and rejects truncation and unsupported
    /// versions without touching any state.
    pub fn parse(data: &Vec<u8>) -> (r: Result<Vaa, DecodeError>)
        ensures
            r is Ok <==> wf_encoding(data@),
            r matches Err(e) ==> e == spec_decode_error(data@) && !wf_encoding(data@),
            r matches Ok(v) ==> v.decodes(data@),
    {
        if data.len() < 6 {
            return Err(DecodeError::Truncated);
        }
        if data[0] != 1 {
            return Err(DecodeError::UnsupportedVersion);
        }
        let n = data[5] as usize;
        // Header, signature section and fixed body must all fit; n <= 255,
        // so the bound itself cannot overflow a usize.
        if data.len() < 6 + 66 * n + 51 {
            return Err(DecodeError::Truncated);
        }
        let guardian_set_index = read_be32(data, 1);
        let mut signatures: Vec<GuardianSignature> = Vec::new();
        let mut i: usize = 0;
        while i < n
            invariant
                i <= n,
                n == sig_count(data@),
                data.len() >= min_len(data@),
                signatures@.len() == i,
                forall|j: int|
                    0 <= j < i ==> (#[trigger] signatures@[j]).guardian_index == sig_index_at(
                        data@,
                        j,
                    ) && signatures@[j].signature@ == sig_bytes_at(data@, j),
            decreases n - i,
        {
            let off = 6 + 66 * i;
            let guardian_index = data[off];
            let signature = copy_range(data, off + 1, off + 66);
            signatures.push(GuardianSignature { guardian_index, signature });
            i = i + 1;
        }
        let bs = 6 + 66 * n;
        let timestamp = read_be32(data, bs);
        let nonce = read_be32(data, bs + 4);
        let emitter_chain = read_be16(data, bs + 8);
        let emitter_address = copy_range(data, bs + 10, bs + 42);
        let sequence = read_be64(data, bs + 42);
        let consistency_level = data[bs + 50];
        let payload = copy_range(data, bs + 51, data.len());
        Ok(
            Vaa {
                version: 1,
                guardian_set_index,
                signatures,
                timestamp,
                nonce,
                emitter_chain,
                emitter_address,
                sequence,
                consistency_level,
                payload,
            },
        )
    }
}

/// The canonical serialization of a VAA's body fields, independent of the
/// signature section: what the canonical digest is computed over.
pub open spec fn body_fields_bytes(v: Vaa) -> Seq<u8> {
    be32_bytes(v.timestamp as int) + be32_bytes(v.nonce as int) + be16_bytes(
        v.emitter_chain as int,
    ) + v.emitter_address@ + be64_bytes(v.sequence as int) + seq![v.consistency_level] + v.payload@
}

/// A decoded VAA's canonical body serialization is exactly the signed body
/// of the buffer it came from: a digest of the body fields is a digest of
/// the raw body, whatever the signature section holds.
pub proof fn lemma_body_fields_canonical(v: Vaa, s: Seq<u8>)
    requires
        wf_encoding(s),
        v.decodes(s),
    ensures
        body_fields_bytes(v) == body_of(s),
{
    let bs = body_start(s);
    lemma_be32_roundtrip(s, bs);
    lemma_be32_roundtrip(s, bs + 4);
    lemma_be16_roundtrip(s, bs + 8);
    lemma_be64_roundtrip(s, bs + 42);
    assert(body_fields_bytes(v) =~= body_of(s));
}

} // verus!
