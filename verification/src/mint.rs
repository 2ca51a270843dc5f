//! The mint dispatcher: hands a validated transfer intent to the minting
//! collaborator exactly once and reports the outcome. The ledger records
//! every wrapped asset this receiver has minted.

use vstd::prelude::*;

use crate::errors::ErrorCode;
use crate::payload::clone_intent;
use crate::payload::TransferIntent;

verus! {

/// The book of wrapped assets minted by this receiver.
pub struct MintLedger {
    minted: Vec<TransferIntent>,
}

impl View for MintLedger {
    type V = Seq<(Seq<u8>, Seq<u8>, Seq<u8>)>;

    closed spec fn view(&self) -> Seq<(Seq<u8>, Seq<u8>, Seq<u8>)> {
        self.minted@.map_values(|t: TransferIntent| t@)
    }
}

impl MintLedger {
    /// An empty ledger: nothing minted yet.
    pub fn new() -> (r: MintLedger)
        ensures
            r@ =~= Seq::<(Seq<u8>, Seq<u8>, Seq<u8>)>::empty(),
    {
        MintLedger { minted: Vec::new() }
    }

    /// How many wrapped assets were minted.
    pub fn len(&self) -> (r: usize)
        ensures
            r == self@.len(),
    {
        self.minted.len()
    }

    /// A copy of the `i`-th minted intent, in mint order.
    pub fn get(&self, i: usize) -> (r: TransferIntent)
        requires
            i < self@.len(),
        ensures
            r@ == self@[i as int],
    {
        clone_intent(&self.minted[i])
    }

    /// Mints a validated intent: records it in the ledger, exactly once per
    /// call, and reports success. A failing collaborator is reported through
    /// `dispatch_outcome` by the caller that drives it.
    pub fn dispatch(&mut self, intent: TransferIntent) -> (r: TransferIntent)
        ensures
            final(self)@ =~= old(self)@.push(intent@),
            r@ == intent@,
    {
        let keep = clone_intent(&intent);
        self.minted.push(intent);
        proof {
            assert(self@ =~= old(self)@.push(self.minted@[old(self)@.len() as int]@));
        }
        keep
    }
}

/// Maps the outcome an external minting collaborator reported for a
/// dispatched intent: success keeps the intent as the minted result, and a
/// collaborator failure after the replay commit is surfaced as `MintFailure`,
/// never silently swallowed.
pub fn dispatch_outcome(intent: TransferIntent, minted: bool) -> (r: Result<
    TransferIntent,
    ErrorCode,
>)
    ensures
        minted ==> (r matches Ok(t) && t@ == intent@),
        !minted ==> r == Err::<TransferIntent, ErrorCode>(ErrorCode::MintFailure),
{
    if minted {
        Ok(intent)
    } else {
        Err(ErrorCode::MintFailure)
    }
}

} // verus!
