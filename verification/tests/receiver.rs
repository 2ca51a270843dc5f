//! End-to-end and component tests for the VAA receiver, with real guardian
//! keys: signatures are produced with libsecp256k1 and checked by the
//! library through secp256k1 recovery.

use sol_bridge::bytes::read_be16;
use sol_bridge::bytes::read_be32;
use sol_bridge::bytes::read_be64;
use sol_bridge::crypto::double_digest;
use sol_bridge::crypto::guardian_address;
use sol_bridge::errors::DecodeError;
use sol_bridge::errors::ErrorCode;
use sol_bridge::errors::PayloadError;
use sol_bridge::errors::VerificationError;
use sol_bridge::mint::dispatch_outcome;
use sol_bridge::mint::MintLedger;
use sol_bridge::payload::check_utf8;
use sol_bridge::payload::decode_payload;
use sol_bridge::payload::TransferIntent;
use sol_bridge::pipeline::receive_nft;
use sol_bridge::pipeline::ReceiveNft;
use sol_bridge::replay::MessageId;
use sol_bridge::replay::ReplayRegistry;
use sol_bridge::vaa::Vaa;
use sol_bridge::verify::GuardianSet;

fn keccak(b: &[u8]) -> [u8; 32] {
    solana_program::keccak::hash(b).0
}

fn secret(i: u8) -> libsecp256k1::SecretKey {
    libsecp256k1::SecretKey::parse(&[i; 32]).unwrap()
}

fn guardian_key(sk: &libsecp256k1::SecretKey) -> Vec<u8> {
    let pk = libsecp256k1::PublicKey::from_secret_key(sk);
    let ser = pk.serialize();
    keccak(&ser[1..65])[12..32].to_vec()
}

fn sign65(sk: &libsecp256k1::SecretKey, digest: &[u8; 32]) -> Vec<u8> {
    let msg = libsecp256k1::Message::parse(digest);
    let (sig, rid) = libsecp256k1::sign(&msg, sk);
    let mut out = sig.serialize().to_vec();
    out.push(rid.serialize());
    out
}

fn guardian_set_of_three() -> GuardianSet {
    GuardianSet {
        index: 0,
        keys: vec![
            guardian_key(&secret(1)),
            guardian_key(&secret(2)),
            guardian_key(&secret(3)),
        ],
        expiration_time: 0,
    }
}

fn fresh_ctx() -> ReceiveNft {
    ReceiveNft {
        guardian_set: guardian_set_of_three(),
        registry: ReplayRegistry::new(),
        ledger: MintLedger::new(),
    }
}

fn build_body(
    timestamp: u32,
    nonce: u32,
    chain: u16,
    emitter: &[u8; 32],
    sequence: u64,
    consistency: u8,
    payload: &[u8],
) -> Vec<u8> {
    let mut b = Vec::new();
    b.extend_from_slice(&timestamp.to_be_bytes());
    b.extend_from_slice(&nonce.to_be_bytes());
    b.extend_from_slice(&chain.to_be_bytes());
    b.extend_from_slice(emitter);
    b.extend_from_slice(&sequence.to_be_bytes());
    b.push(consistency);
    b.extend_from_slice(payload);
    b
}

fn build_vaa(version: u8, gsi: u32, sigs: &[(u8, Vec<u8>)], body: &[u8]) -> Vec<u8> {
    let mut v = Vec::new();
    v.push(version);
    v.extend_from_slice(&gsi.to_be_bytes());
    v.push(sigs.len() as u8);
    for (idx, sig) in sigs {
        v.push(*idx);
        v.extend_from_slice(sig);
    }
    v.extend_from_slice(body);
    v
}

/// A well-formed VAA over `payload`, signed by the named guardians.
fn signed_vaa(payload: &[u8], signers: &[u8], sequence: u64) -> Vec<u8> {
    let body = build_body(100, 7, 2, &[0xAB; 32], sequence, 1, payload);
    let digest = keccak(&keccak(&body));
    let sigs: Vec<(u8, Vec<u8>)> = signers
        .iter()
        .map(|&i| (i, sign65(&secret(i + 1), &digest)))
        .collect();
    build_vaa(1, 0, &sigs, &body)
}

fn expect_err(r: Result<TransferIntent, ErrorCode>) -> ErrorCode {
    match r {
        Err(e) => e,
        Ok(_) => panic!("expected a rejection"),
    }
}

#[test]
fn quorum_vaa_mints_then_replay_is_rejected() {
    let mut ctx = fresh_ctx();
    let vaa = signed_vaa(b"nft:collection123:tokenA", &[0, 2], 1);
    let intent = receive_nft(&mut ctx, &vaa).expect("quorum VAA should mint");
    assert_eq!(intent.asset_descriptor, b"collection123".to_vec());
    assert_eq!(intent.destination_account, b"collection123:tokenA".to_vec());
    assert_eq!(intent.amount_or_metadata, b"tokenA".to_vec());
    assert_eq!(ctx.ledger.len(), 1);
    let minted = ctx.ledger.get(0);
    assert_eq!(minted.asset_descriptor, b"collection123".to_vec());
    let again = expect_err(receive_nft(&mut ctx, &vaa));
    assert_eq!(again, ErrorCode::AlreadyConsumed);
    assert_eq!(ctx.ledger.len(), 1);
}

#[test]
fn repeated_submissions_mint_exactly_once() {
    let mut ctx = fresh_ctx();
    let vaa = signed_vaa(b"nft:collection123:tokenA", &[0, 1, 2], 9);
    let mut minted = 0;
    let mut replayed = 0;
    for _ in 0..5 {
        match receive_nft(&mut ctx, &vaa) {
            Ok(_) => minted += 1,
            Err(ErrorCode::AlreadyConsumed) => replayed += 1,
            Err(_) => panic!("unexpected rejection"),
        }
    }
    assert_eq!(minted, 1);
    assert_eq!(replayed, 4);
    assert_eq!(ctx.ledger.len(), 1);
}

#[test]
fn short_buffer_is_a_decode_error() {
    let mut ctx = fresh_ctx();
    assert_eq!(
        expect_err(receive_nft(&mut ctx, &Vec::new())),
        ErrorCode::Decode(DecodeError::Truncated)
    );
    assert_eq!(
        expect_err(receive_nft(&mut ctx, &vec![1, 0, 0])),
        ErrorCode::Decode(DecodeError::Truncated)
    );
    let short = vec![1, 0, 0, 0, 0, 0, 9, 9];
    assert_eq!(
        expect_err(receive_nft(&mut ctx, &short)),
        ErrorCode::Decode(DecodeError::Truncated)
    );
}

#[test]
fn unsupported_version_is_rejected() {
    let mut ctx = fresh_ctx();
    let mut vaa = signed_vaa(b"nft:a:b", &[0, 2], 2);
    vaa[0] = 2;
    assert_eq!(
        expect_err(receive_nft(&mut ctx, &vaa)),
        ErrorCode::Decode(DecodeError::UnsupportedVersion)
    );
}

#[test]
fn fewer_than_quorum_signatures_is_rejected() {
    let mut ctx = fresh_ctx();
    let vaa = signed_vaa(b"nft:a:b", &[0], 3);
    assert_eq!(
        expect_err(receive_nft(&mut ctx, &vaa)),
        ErrorCode::Verification(VerificationError::QuorumNotMet)
    );
}

#[test]
fn disordered_guardian_indices_are_rejected() {
    let mut ctx = fresh_ctx();
    let vaa = signed_vaa(b"nft:a:b", &[2, 0], 4);
    assert_eq!(
        expect_err(receive_nft(&mut ctx, &vaa)),
        ErrorCode::Verification(VerificationError::NonIncreasingGuardianIndex)
    );
}

#[test]
fn guardian_index_out_of_range_is_rejected() {
    let mut ctx = fresh_ctx();
    let body = build_body(100, 7, 2, &[0xAB; 32], 5, 1, b"nft:a:b");
    let digest = keccak(&keccak(&body));
    let sigs = vec![
        (0u8, sign65(&secret(1), &digest)),
        (7u8, sign65(&secret(2), &digest)),
    ];
    let vaa = build_vaa(1, 0, &sigs, &body);
    assert_eq!(
        expect_err(receive_nft(&mut ctx, &vaa)),
        ErrorCode::Verification(VerificationError::GuardianIndexOutOfRange)
    );
}

#[test]
fn corrupted_signature_is_rejected() {
    let mut ctx = fresh_ctx();
    let mut vaa = signed_vaa(b"nft:a:b", &[0, 2], 6);
    // Flip one byte inside the first signature's 64 signature bytes.
    vaa[8] ^= 0xFF;
    assert_eq!(
        expect_err(receive_nft(&mut ctx, &vaa)),
        ErrorCode::Verification(VerificationError::InvalidGuardianSignature)
    );
}

#[test]
fn signature_by_the_wrong_guardian_is_rejected() {
    let mut ctx = fresh_ctx();
    let body = build_body(100, 7, 2, &[0xAB; 32], 7, 1, b"nft:a:b");
    let digest = keccak(&keccak(&body));
    // Guardian 1's key signs, but the entry claims guardian index 0.
    let sigs = vec![
        (0u8, sign65(&secret(2), &digest)),
        (2u8, sign65(&secret(3), &digest)),
    ];
    let vaa = build_vaa(1, 0, &sigs, &body);
    assert_eq!(
        expect_err(receive_nft(&mut ctx, &vaa)),
        ErrorCode::Verification(VerificationError::InvalidGuardianSignature)
    );
}

#[test]
fn unknown_guardian_set_is_rejected() {
    let mut ctx = fresh_ctx();
    let body = build_body(100, 7, 2, &[0xAB; 32], 8, 1, b"nft:a:b");
    let digest = keccak(&keccak(&body));
    let sigs = vec![
        (0u8, sign65(&secret(1), &digest)),
        (2u8, sign65(&secret(3), &digest)),
    ];
    let vaa = build_vaa(1, 5, &sigs, &body);
    assert_eq!(
        expect_err(receive_nft(&mut ctx, &vaa)),
        ErrorCode::Verification(VerificationError::UnknownGuardianSet)
    );
}

#[test]
fn expired_guardian_set_is_rejected() {
    let mut ctx = fresh_ctx();
    ctx.guardian_set.expiration_time = 10;
    // The VAA claims timestamp 100, after the set expired.
    let vaa = signed_vaa(b"nft:a:b", &[0, 2], 10);
    assert_eq!(
        expect_err(receive_nft(&mut ctx, &vaa)),
        ErrorCode::Verification(VerificationError::GuardianSetExpired)
    );
}

#[test]
fn invalid_utf8_payload_fails_forward() {
    let mut ctx = fresh_ctx();
    let vaa = signed_vaa(&[0xFF, 0xFE, 0x01], &[0, 2], 11);
    assert_eq!(
        expect_err(receive_nft(&mut ctx, &vaa)),
        ErrorCode::InvalidPayload(PayloadError::NotUtf8)
    );
    // The identifier is committed all the same: the identical buffer can
    // never be replayed.
    assert_eq!(
        expect_err(receive_nft(&mut ctx, &vaa)),
        ErrorCode::AlreadyConsumed
    );
    assert_eq!(ctx.ledger.len(), 0);
}

#[test]
fn empty_payload_fails_forward() {
    let mut ctx = fresh_ctx();
    let vaa = signed_vaa(b"", &[0, 2], 12);
    assert_eq!(
        expect_err(receive_nft(&mut ctx, &vaa)),
        ErrorCode::InvalidPayload(PayloadError::EmptyPayload)
    );
    assert_eq!(
        expect_err(receive_nft(&mut ctx, &vaa)),
        ErrorCode::AlreadyConsumed
    );
}

#[test]
fn payload_structure_errors_are_distinguished() {
    assert!(matches!(
        decode_payload(&b"xyz:a:b".to_vec()),
        Err(PayloadError::MissingTag)
    ));
    assert!(matches!(
        decode_payload(&b"nft:ab".to_vec()),
        Err(PayloadError::MissingSeparator)
    ));
    assert!(matches!(
        decode_payload(&b"nft::meta".to_vec()),
        Err(PayloadError::EmptyAssetDescriptor)
    ));
    assert!(matches!(
        decode_payload(&b"nft:a:".to_vec()),
        Err(PayloadError::EmptyMetadata)
    ));
    let t = decode_payload(&b"nft:a:b".to_vec()).unwrap_or_else(|_| panic!("should decode"));
    assert_eq!(t.asset_descriptor, b"a".to_vec());
    assert_eq!(t.destination_account, b"a:b".to_vec());
    assert_eq!(t.amount_or_metadata, b"b".to_vec());
    // Metadata may itself contain separators; the split is at the first one.
    let t2 = decode_payload(&b"nft:c:x:y".to_vec()).unwrap_or_else(|_| panic!("should decode"));
    assert_eq!(t2.asset_descriptor, b"c".to_vec());
    assert_eq!(t2.amount_or_metadata, b"x:y".to_vec());
}

#[test]
fn utf8_validation_accepts_and_rejects_correctly() {
    assert!(check_utf8(&Vec::new()));
    assert!(check_utf8(&"nft:héllo:🦀".as_bytes().to_vec()));
    assert!(check_utf8(&"日本語".as_bytes().to_vec()));
    // Lone continuation byte.
    assert!(!check_utf8(&vec![0x80]));
    // Overlong encoding of '/'.
    assert!(!check_utf8(&vec![0xC0, 0xAF]));
    // Surrogate half.
    assert!(!check_utf8(&vec![0xED, 0xA0, 0x80]));
    // Past U+10FFFF.
    assert!(!check_utf8(&vec![0xF5, 0x80, 0x80, 0x80]));
    // Truncated three-byte sequence.
    assert!(!check_utf8(&vec![0xE2, 0x82]));
    // Agreement with the standard library on every tested buffer.
    let samples: Vec<Vec<u8>> = vec![
        b"plain".to_vec(),
        vec![0xC3, 0xA9],
        vec![0xC3],
        vec![0xF0, 0x9F, 0xA6, 0x80],
        vec![0xED, 0x9F, 0xBF],
        vec![0xEE, 0x80, 0x80],
    ];
    for s in samples {
        assert_eq!(check_utf8(&s), std::str::from_utf8(&s).is_ok());
    }
}

#[test]
fn digest_is_the_double_keccak_of_the_body() {
    let body = b"some body bytes".to_vec();
    let d = double_digest(&body);
    assert_eq!(d, keccak(&keccak(&body)).to_vec());
    assert_eq!(d.len(), 32);
    assert_ne!(d, body);
    let empty = Vec::new();
    assert_eq!(double_digest(&empty), keccak(&keccak(&[])).to_vec());
}

#[test]
fn guardian_address_is_the_keccak_tail_of_the_key() {
    let pk = libsecp256k1::PublicKey::from_secret_key(&secret(1));
    let pk64 = pk.serialize()[1..65].to_vec();
    let addr = guardian_address(&pk64);
    assert_eq!(addr, keccak(&pk64)[12..32].to_vec());
    assert_eq!(addr.len(), 20);
}

#[test]
fn parse_reports_every_field() {
    let body = build_body(123, 456, 7, &[0x11; 32], 890, 3, b"payload!");
    let digest = keccak(&keccak(&body));
    let sigs = vec![
        (0u8, sign65(&secret(1), &digest)),
        (2u8, sign65(&secret(3), &digest)),
    ];
    let raw = build_vaa(1, 42, &sigs, &body);
    let vaa = match Vaa::parse(&raw) {
        Ok(v) => v,
        Err(_) => panic!("well-formed buffer should parse"),
    };
    assert_eq!(vaa.version, 1);
    assert_eq!(vaa.guardian_set_index, 42);
    assert_eq!(vaa.signatures.len(), 2);
    assert_eq!(vaa.signatures[0].guardian_index, 0);
    assert_eq!(vaa.signatures[1].guardian_index, 2);
    assert_eq!(vaa.signatures[0].signature, sigs[0].1);
    assert_eq!(vaa.timestamp, 123);
    assert_eq!(vaa.nonce, 456);
    assert_eq!(vaa.emitter_chain, 7);
    assert_eq!(vaa.emitter_address, vec![0x11; 32]);
    assert_eq!(vaa.sequence, 890);
    assert_eq!(vaa.consistency_level, 3);
    assert_eq!(vaa.payload, b"payload!".to_vec());
}

#[test]
fn replay_registry_consumes_each_identifier_once() {
    let mut reg = ReplayRegistry::new();
    let id = MessageId {
        emitter_chain: 2,
        emitter_address: vec![0xAB; 32],
        sequence: 1,
    };
    assert!(!reg.contains(&id));
    assert!(reg.consume(&id).is_ok());
    assert!(reg.contains(&id));
    assert_eq!(reg.consume(&id), Err(ErrorCode::AlreadyConsumed));
    let other = MessageId {
        emitter_chain: 2,
        emitter_address: vec![0xAB; 32],
        sequence: 2,
    };
    assert!(reg.consume(&other).is_ok());
}

#[test]
fn big_endian_readers_match_their_fields() {
    let v = vec![0x01, 0x02, 0x03, 0x04, 0x05, 0x06, 0x07, 0x08];
    assert_eq!(read_be16(&v, 0), 0x0102);
    assert_eq!(read_be32(&v, 0), 0x01020304);
    assert_eq!(read_be32(&v, 4), 0x05060708);
    assert_eq!(read_be64(&v, 0), 0x0102030405060708);
}

#[test]
fn single_guardian_set_needs_one_signature() {
    let mut ctx = ReceiveNft {
        guardian_set: GuardianSet {
            index: 0,
            keys: vec![guardian_key(&secret(1))],
            expiration_time: 0,
        },
        registry: ReplayRegistry::new(),
        ledger: MintLedger::new(),
    };
    let vaa = signed_vaa(b"nft:solo:token", &[0], 13);
    assert!(receive_nft(&mut ctx, &vaa).is_ok());
}

#[test]
fn four_guardian_set_needs_three_signatures() {
    let keys = vec![
        guardian_key(&secret(1)),
        guardian_key(&secret(2)),
        guardian_key(&secret(3)),
        guardian_key(&secret(4)),
    ];
    let mut ctx = ReceiveNft {
        guardian_set: GuardianSet { index: 0, keys: keys.clone(), expiration_time: 0 },
        registry: ReplayRegistry::new(),
        ledger: MintLedger::new(),
    };
    let two = signed_vaa(b"nft:a:b", &[0, 3], 14);
    assert_eq!(
        expect_err(receive_nft(&mut ctx, &two)),
        ErrorCode::Verification(VerificationError::QuorumNotMet)
    );
    let three = signed_vaa(b"nft:a:b", &[0, 1, 3], 14);
    assert!(receive_nft(&mut ctx, &three).is_ok());
}

#[test]
fn mint_failure_is_surfaced_not_swallowed() {
    let intent = decode_payload(&b"nft:a:b".to_vec()).unwrap_or_else(|_| panic!("should decode"));
    match dispatch_outcome(intent, false) {
        Err(e) => assert_eq!(e, ErrorCode::MintFailure),
        Ok(_) => panic!("a failing collaborator must be reported"),
    }
    let intent2 = decode_payload(&b"nft:a:b".to_vec()).unwrap_or_else(|_| panic!("should decode"));
    match dispatch_outcome(intent2, true) {
        Ok(t) => assert_eq!(t.asset_descriptor, b"a".to_vec()),
        Err(_) => panic!("a successful mint must be kept"),
    }
}
