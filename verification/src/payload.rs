use vstd::prelude::*;
use crate::hash::FixedHash;

verus! {

/// Calls `chrono::Utc::now().timestamp()`: the current time in seconds since
/// the Unix epoch. It depends on the clock, so nothing is claimed of it.
#[verifier::external_body]
fn current_timestamp() -> (r: i64) {
    chrono::Utc::now().timestamp()
}

/// A transaction as consensus carries it: the transaction, when the payload
/// was made, and, once executed, its result. `T` is the transaction type and
/// `R` the execution result type.
pub struct TariDanPayload<T, R> {
    transaction: T,
    timestamp: i64,
    result: Option<R>,
}

impl<T, R> TariDanPayload<T, R> {
    pub closed spec fn spec_transaction(&self) -> T {
        self.transaction
    }

    pub closed spec fn spec_timestamp(&self) -> i64 {
        self.timestamp
    }

    pub closed spec fn spec_result(&self) -> Option<R> {
        self.result
    }

    /// A payload for `transaction`, made at `timestamp` (seconds since the
    /// Unix epoch), with no result yet.
    pub fn new_at(transaction: T, timestamp: i64) -> (r: TariDanPayload<T, R>)
        ensures
            r.spec_transaction() == transaction,
            r.spec_timestamp() == timestamp,
            r.spec_result() is None,
    {
        TariDanPayload { transaction, timestamp, result: None }
    }

    /// A payload for `transaction`, made now, with no result yet: `new_at`
    /// with the clock's current time.
    pub fn new(transaction: T) -> (r: TariDanPayload<T, R>)
        ensures
            r.spec_transaction() == transaction,
            r.spec_result() is None,
    {
        Self::new_at(transaction, current_timestamp())
    }

    pub fn transaction(&self) -> (r: &T)
        ensures
            *r == self.spec_transaction(),
    {
        &self.transaction
    }

    pub fn into_payload(self) -> (r: T)
        ensures
            r == self.spec_transaction(),
    {
        self.transaction
    }

    pub fn timestamp(&self) -> (r: i64)
        ensures
            r == self.spec_timestamp(),
    {
        self.timestamp
    }

    pub fn result(&self) -> (r: Option<&R>)
        ensures
            r matches Some(x) ==> self.spec_result() == Some(*x),
            r is None <==> self.spec_result() is None,
    {
        match &self.result {
            Some(x) => Some(x),
            None => None,
        }
    }

    /// Records the execution result; the transaction and the timestamp stay.
    pub fn set_result(&mut self, result: R)
        ensures
            final(self).spec_result() == Some(result),
            final(self).spec_transaction() == old(self).spec_transaction(),
            final(self).spec_timestamp() == old(self).spec_timestamp(),
    {
        self.result = Some(result);
    }
}

/// A value whose identity in consensus is a 32-byte hash.
pub trait ConsensusHash {
    fn consensus_hash(&self) -> FixedHash;
}

/// A checkpoint, identified by its hash.
#[derive(Clone, Copy)]
pub struct CheckpointData {
    pub hash: FixedHash,
}

impl Default for CheckpointData {
    fn default() -> (r: CheckpointData)
        ensures
            r.hash@ == Seq::new(32, |i: int| 0u8),
    {
        CheckpointData { hash: FixedHash::zero() }
    }
}

impl ConsensusHash for CheckpointData {
    fn consensus_hash(&self) -> (r: FixedHash)
        ensures
            r@ == self.hash@,
    {
        self.hash
    }
}

} // verus!
