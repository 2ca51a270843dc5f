//! The replay guard: a registry of consumed message identifiers with an
//! atomic check-and-insert. Exclusive access (`&mut`) serializes concurrent
//! `consume` calls, so only one caller ever observes acceptance of a given
//! identifier; the registry grows monotonically and never forgets.

use vstd::prelude::*;

use crate::bytes::eq_bytes;
use crate::errors::ErrorCode;

verus! {

/// A message identifier: emitter chain, emitter address and sequence number,
/// globally unique per genuine cross-chain message.
pub struct MessageId {
    pub emitter_chain: u16,
    pub emitter_address: Vec<u8>,
    pub sequence: u64,
}

impl View for MessageId {
    type V = (int, Seq<u8>, int);

    open spec fn view(&self) -> (int, Seq<u8>, int) {
        (self.emitter_chain as int, self.emitter_address@, self.sequence as int)
    }
}

/// The persistent set of already-consumed message identifiers.
pub struct ReplayRegistry {
    consumed: Vec<MessageId>,
}

impl View for ReplayRegistry {
    type V = Set<(int, Seq<u8>, int)>;

    closed spec fn view(&self) -> Set<(int, Seq<u8>, int)> {
        Set::new(
            |t: (int, Seq<u8>, int)|
                exists|j: int| 0 <= j < self.consumed@.len() && (#[trigger] self.consumed@[j])@
                    == t,
        )
    }
}

impl ReplayRegistry {
    /// An empty registry: nothing consumed yet.
    pub fn new() -> (r: ReplayRegistry)
        ensures
            r@ =~= Set::<(int, Seq<u8>, int)>::empty(),
    {
        ReplayRegistry { consumed: Vec::new() }
    }

    /// Whether `id` was consumed before.
    pub fn contains(&self, id: &MessageId) -> (r: bool)
        ensures
            r == self@.contains(id@),
    {
        let mut i: usize = 0;
        while i < self.consumed.len()
            invariant
                i <= self.consumed@.len(),
                forall|j: int| 0 <= j < i ==> (#[trigger] self.consumed@[j])@ != id@,
            decreases self.consumed@.len() - i,
        {
            let entry = &self.consumed[i];
            if entry.emitter_chain == id.emitter_chain && entry.sequence == id.sequence
                && eq_bytes(&entry.emitter_address, &id.emitter_address) {
                return true;
            }
            i = i + 1;
        }
        false
    }

    /// The atomic check-and-insert: accepts an identifier never seen before
    /// and commits it, and rejects one consumed earlier without changing
    /// anything. The exclusive borrow makes the check and the insert a
    /// single indivisible operation toward other callers.
    pub fn consume(&mut self, id: &MessageId) -> (r: Result<(), ErrorCode>)
        ensures
            old(self)@.contains(id@) ==> r == Err::<(), ErrorCode>(ErrorCode::AlreadyConsumed)
                && final(self)@ == old(self)@,
            !old(self)@.contains(id@) ==> r == Ok::<(), ErrorCode>(()) && final(self)@ =~= old(
                self,
            )@.insert(id@),
    {
        if self.contains(id) {
            return Err(ErrorCode::AlreadyConsumed);
        }
        let ghost pre = self.consumed@;
        self.consumed.push(
            MessageId {
                emitter_chain: id.emitter_chain,
                emitter_address: crate::bytes::copy_range(
                    &id.emitter_address,
                    0,
                    id.emitter_address.len(),
                ),
                sequence: id.sequence,
            },
        );
        proof {
            assert(self.consumed@[pre.len() as int]@ == id@);
            assert forall|t: (int, Seq<u8>, int)| self@.contains(t) implies old(
                self,
            )@.insert(id@).contains(t) by {
                let j = choose|j: int|
                    0 <= j < self.consumed@.len() && (#[trigger] self.consumed@[j])@ == t;
                if j < pre.len() {
                    assert(pre[j]@ == t);
                }
            }
            assert forall|t: (int, Seq<u8>, int)| old(self)@.insert(id@).contains(t) implies
                self@.contains(t) by {
                if t == id@ {
                    assert(self.consumed@[pre.len() as int]@ == t);
                } else {
                    let j = choose|j: int| 0 <= j < pre.len() && (#[trigger] pre[j])@ == t;
                    assert(self.consumed@[j]@ == t);
                }
            }
        }
        Ok(())
    }
}

} // verus!
