//! The payload interpreter: validates that the authenticated payload is
//! UTF-8 transfer metadata of the form `nft:<asset>:<metadata>` and turns it
//! into a transfer intent. Decoding is pure; it never mutates state.

use vstd::prelude::*;

use crate::bytes::copy_range;
use crate::errors::PayloadError;

verus! {

/// Whether a continuation byte has the form `10xxxxxx`.
pub open spec fn utf8_cont(b: u8) -> bool {
    0x80 <= b < 0xC0
}

/// Whether `s` is valid UTF-8 from offset `i` on: the standard sequence
/// forms, with overlong encodings, surrogates and values past U+10FFFF
/// excluded by the ranges of the second byte.
pub open spec fn utf8_from(s: Seq<u8>, i: int) -> bool
    decreases s.len() - i,
{
    if i >= s.len() {
        true
    } else {
        let b0 = s[i];
        if b0 < 0x80 {
            utf8_from(s, i + 1)
        } else if 0xC2 <= b0 < 0xE0 {
            &&& i + 2 <= s.len()
            &&& utf8_cont(s[i + 1])
            &&& utf8_from(s, i + 2)
        } else if b0 == 0xE0 {
            &&& i + 3 <= s.len()
            &&& 0xA0 <= s[i + 1] < 0xC0
            &&& utf8_cont(s[i + 2])
            &&& utf8_from(s, i + 3)
        } else if 0xE1 <= b0 < 0xED {
            &&& i + 3 <= s.len()
            &&& utf8_cont(s[i + 1])
            &&& utf8_cont(s[i + 2])
            &&& utf8_from(s, i + 3)
        } else if b0 == 0xED {
            &&& i + 3 <= s.len()
            &&& 0x80 <= s[i + 1] < 0xA0
            &&& utf8_cont(s[i + 2])
            &&& utf8_from(s, i + 3)
        } else if 0xEE <= b0 < 0xF0 {
            &&& i + 3 <= s.len()
            &&& utf8_cont(s[i + 1])
            &&& utf8_cont(s[i + 2])
            &&& utf8_from(s, i + 3)
        } else if b0 == 0xF0 {
            &&& i + 4 <= s.len()
            &&& 0x90 <= s[i + 1] < 0xC0
            &&& utf8_cont(s[i + 2])
            &&& utf8_cont(s[i + 3])
            &&& utf8_from(s, i + 4)
        } else if 0xF1 <= b0 < 0xF4 {
            &&& i + 4 <= s.len()
            &&& utf8_cont(s[i + 1])
            &&& utf8_cont(s[i + 2])
            &&& utf8_cont(s[i + 3])
            &&& utf8_from(s, i + 4)
        } else if b0 == 0xF4 {
            &&& i + 4 <= s.len()
            &&& 0x80 <= s[i + 1] < 0x90
            &&& utf8_cont(s[i + 2])
            &&& utf8_cont(s[i + 3])
            &&& utf8_from(s, i + 4)
        } else {
            false
        }
    }
}

/// Whether a byte sequence is valid UTF-8.
pub open spec fn is_utf8(s: Seq<u8>) -> bool {
    utf8_from(s, 0)
}

/// Checks a buffer for UTF-8 validity.
pub fn check_utf8(s: &Vec<u8>) -> (r: bool)
    ensures
        r == is_utf8(s@),
{
    let mut i: usize = 0;
    while i < s.len()
        invariant
            i <= s.len(),
            is_utf8(s@) == utf8_from(s@, i as int),
        decreases s.len() - i,
    {
        let b0 = s[i];
        if b0 < 0x80 {
            i = i + 1;
        } else if 0xC2 <= b0 && b0 < 0xE0 {
            if !(s.len() - i >= 2 && 0x80 <= s[i + 1] && s[i + 1] < 0xC0) {
                return false;
            }
            i = i + 2;
        } else if b0 == 0xE0 {
            if !(s.len() - i >= 3 && 0xA0 <= s[i + 1] && s[i + 1] < 0xC0 && 0x80 <= s[i + 2] && s[i
                + 2] < 0xC0) {
                return false;
            }
            i = i + 3;
        } else if 0xE1 <= b0 && b0 < 0xED {
            if !(s.len() - i >= 3 && 0x80 <= s[i + 1] && s[i + 1] < 0xC0 && 0x80 <= s[i + 2] && s[i
                + 2] < 0xC0) {
                return false;
            }
            i = i + 3;
        } else if b0 == 0xED {
            if !(s.len() - i >= 3 && 0x80 <= s[i + 1] && s[i + 1] < 0xA0 && 0x80 <= s[i + 2] && s[i
                + 2] < 0xC0) {
                return false;
            }
            i = i + 3;
        } else if 0xEE <= b0 && b0 < 0xF0 {
            if !(s.len() - i >= 3 && 0x80 <= s[i + 1] && s[i + 1] < 0xC0 && 0x80 <= s[i + 2] && s[i
                + 2] < 0xC0) {
                return false;
            }
            i = i + 3;
        } else if b0 == 0xF0 {
            if !(s.len() - i >= 4 && 0x90 <= s[i + 1] && s[i + 1] < 0xC0 && 0x80 <= s[i + 2] && s[i
                + 2] < 0xC0 && 0x80 <= s[i + 3] && s[i + 3] < 0xC0) {
                return false;
            }
            i = i + 4;
        } else if 0xF1 <= b0 && b0 < 0xF4 {
            if !(s.len() - i >= 4 && 0x80 <= s[i + 1] && s[i + 1] < 0xC0 && 0x80 <= s[i + 2] && s[i
                + 2] < 0xC0 && 0x80 <= s[i + 3] && s[i + 3] < 0xC0) {
                return false;
            }
            i = i + 4;
        } else if b0 == 0xF4 {
            if !(s.len() - i >= 4 && 0x80 <= s[i + 1] && s[i + 1] < 0x90 && 0x80 <= s[i + 2] && s[i
                + 2] < 0xC0 && 0x80 <= s[i + 3] && s[i + 3] < 0xC0) {
                return false;
            }
            i = i + 4;
        } else {
            return false;
        }
    }
    true
}

/// The byte `:` separating the payload's segments.
pub open spec fn sep() -> u8 {
    0x3Au8
}

/// The first separator at or after offset `i`, or the length where none
/// follows.
pub open spec fn find_sep(s: Seq<u8>, i: int) -> int
    decreases s.len() - i,
{
    if i < 0 || i >= s.len() {
        s.len() as int
    } else if s[i] == sep() {
        i
    } else {
        find_sep(s, i + 1)
    }
}

/// Whether the payload begins with the transfer tag `nft:`.
pub open spec fn has_tag(p: Seq<u8>) -> bool {
    p.len() >= 4 && p[0] == 0x6Eu8 && p[1] == 0x66u8 && p[2] == 0x74u8 && p[3] == sep()
}

/// What a payload decodes to: the asset descriptor, the derived destination
/// account seed (the whole segment after the tag), and the token metadata;
/// or the exact reason it is rejected. Checks run in a fixed order, so each
/// reason names the first rule the payload breaks.
pub open spec fn spec_decode_payload(p: Seq<u8>) -> Result<
    (Seq<u8>, Seq<u8>, Seq<u8>),
    PayloadError,
> {
    if p.len() == 0 {
        Err(PayloadError::EmptyPayload)
    } else if !is_utf8(p) {
        Err(PayloadError::NotUtf8)
    } else if !has_tag(p) {
        Err(PayloadError::MissingTag)
    } else {
        let rest = p.subrange(4, p.len() as int);
        let k = find_sep(rest, 0);
        if k == rest.len() {
            Err(PayloadError::MissingSeparator)
        } else if k == 0 {
            Err(PayloadError::EmptyAssetDescriptor)
        } else if k + 1 == rest.len() {
            Err(PayloadError::EmptyMetadata)
        } else {
            Ok((rest.subrange(0, k), rest, rest.subrange(k + 1, rest.len() as int)))
        }
    }
}

/// A validated transfer intent, consumed immediately by the mint dispatcher.
pub struct TransferIntent {
    /// The asset (collection) the wrapped mint belongs to.
    pub asset_descriptor: Vec<u8>,
    /// The seed of the account the wrapped asset is minted to, derived
    /// deterministically from the payload segments after the tag.
    pub destination_account: Vec<u8>,
    /// The token metadata carried across the bridge.
    pub amount_or_metadata: Vec<u8>,
}

impl View for TransferIntent {
    type V = (Seq<u8>, Seq<u8>, Seq<u8>);

    open spec fn view(&self) -> (Seq<u8>, Seq<u8>, Seq<u8>) {
        (self.asset_descriptor@, self.destination_account@, self.amount_or_metadata@)
    }
}

/// Copies a transfer intent field for field.
pub fn clone_intent(t: &TransferIntent) -> (r: TransferIntent)
    ensures
        r@ == t@,
{
    TransferIntent {
        asset_descriptor: copy_range(&t.asset_descriptor, 0, t.asset_descriptor.len()),
        destination_account: copy_range(&t.destination_account, 0, t.destination_account.len()),
        amount_or_metadata: copy_range(&t.amount_or_metadata, 0, t.amount_or_metadata.len()),
    }
}

/// Decodes an authenticated payload into a transfer intent, rejecting
/// non-UTF-8, untagged and structurally malformed payloads with the first
/// rule each breaks.
pub fn decode_payload(p: &Vec<u8>) -> (r: Result<TransferIntent, PayloadError>)
    ensures
        r is Ok <==> spec_decode_payload(p@) is Ok,
        r matches Err(e) ==> spec_decode_payload(p@) == Err::<
            (Seq<u8>, Seq<u8>, Seq<u8>),
            PayloadError,
        >(e),
        r matches Ok(t) ==> t@ == spec_decode_payload(p@).unwrap(),
{
    if p.len() == 0 {
        return Err(PayloadError::EmptyPayload);
    }
    if !check_utf8(p) {
        return Err(PayloadError::NotUtf8);
    }
    if !(p.len() >= 4 && p[0] == 0x6E && p[1] == 0x66 && p[2] == 0x74 && p[3] == 0x3A) {
        return Err(PayloadError::MissingTag);
    }
    let rest = copy_range(p, 4, p.len());
    let mut k: usize = 0;
    while k < rest.len() && rest[k] != 0x3A
        invariant
            k <= rest.len(),
            find_sep(rest@, 0) == find_sep(rest@, k as int),
        decreases rest.len() - k,
    {
        k = k + 1;
    }
    if k == rest.len() {
        return Err(PayloadError::MissingSeparator);
    }
    if k == 0 {
        return Err(PayloadError::EmptyAssetDescriptor);
    }
    if k + 1 == rest.len() {
        return Err(PayloadError::EmptyMetadata);
    }
    let asset_descriptor = copy_range(&rest, 0, k);
    let amount_or_metadata = copy_range(&rest, k + 1, rest.len());
    Ok(TransferIntent { asset_descriptor, destination_account: rest, amount_or_metadata })
}

} // verus!
