use vstd::prelude::*;
use crate::message::Block;
use crate::quorum_certificate::{HighQc, LeafBlock, QcId, QuorumCertificate, QuorumCertificateView};
use crate::types::BlockId;

verus! {

/// The errors of the consensus state store.
pub enum StorageError {
    /// The item with the given key is not in the store.
    NotFound { item: String, key: String },
    /// Any other failure of the store, described.
    General { details: String },
}

/// Whether `r` is what a certificate lookup that gives `expected` returns:
/// the certificate with that content, or the same error.
pub open spec fn qc_result_is(
    r: Result<QuorumCertificate, StorageError>,
    expected: Result<QuorumCertificateView, StorageError>,
) -> bool {
    match expected {
        Ok(v) => r matches Ok(q) && q@ == v,
        Err(e) => r == Err::<QuorumCertificate, StorageError>(e),
    }
}

/// A transaction that reads the consensus state store. Implementations
/// describe the store's content by the lookups below; a read leaves the
/// transaction as it was.
pub trait StateStoreReadTransaction: Sized {
    /// What looking up the certificate with the id `qc_id` gives.
    spec fn qc_lookup(&self, qc_id: Seq<u8>) -> Result<QuorumCertificateView, StorageError>;

    /// What looking up the block with the id `block_id` gives.
    spec fn block_lookup(&self, block_id: Seq<u8>) -> Result<Block, StorageError>;

    fn quorum_certificates_get(&mut self, qc_id: &QcId) -> (r: Result<QuorumCertificate, StorageError>)
        ensures
            qc_result_is(r, old(self).qc_lookup(qc_id@)),
            *final(self) == *old(self),
    ;

    fn blocks_get(&mut self, block_id: &BlockId) -> (r: Result<Block, StorageError>)
        ensures
            r == old(self).block_lookup(block_id@),
            *final(self) == *old(self),
    ;
}

/// A transaction that writes the consensus state store. Implementations
/// describe what each write returns in the current state; a write that
/// succeeds is seen by later reads.
pub trait StateStoreWriteTransaction: StateStoreReadTransaction {
    /// What inserting the certificate `qc` gives.
    spec fn qc_insert_outcome(&self, qc: QuorumCertificateView) -> Result<(), StorageError>;

    /// The transaction after inserting the certificate `qc`.
    spec fn after_qc_insert(&self, qc: QuorumCertificateView) -> Self;

    /// What recording the high certificate (`epoch`, `qc_id`) gives.
    spec fn high_qc_set_outcome(&self, epoch: u64, qc_id: Seq<u8>) -> Result<(), StorageError>;

    /// What recording the leaf block (`epoch`, `block_id`, `height`) gives.
    spec fn leaf_block_set_outcome(&self, epoch: u64, block_id: Seq<u8>, height: u64) -> Result<(), StorageError>;

    /// The recorded high certificate: its epoch and id.
    spec fn high_qc_of(&self) -> Option<(u64, Seq<u8>)>;

    /// The recorded leaf block: its epoch, id and height.
    spec fn leaf_block_of(&self) -> Option<(u64, Seq<u8>, u64)>;

    fn quorum_certificates_insert(&mut self, qc: &QuorumCertificate) -> (r: Result<(), StorageError>)
        ensures
            r == old(self).qc_insert_outcome(qc@),
            *final(self) == old(self).after_qc_insert(qc@),
            r is Ok ==> final(self).qc_lookup(qc@.qc_id) == Ok::<QuorumCertificateView, StorageError>(qc@),
    ;

    fn high_qc_set(&mut self, high_qc: &HighQc) -> (r: Result<(), StorageError>)
        ensures
            r == old(self).high_qc_set_outcome(high_qc.epoch.0, high_qc.qc_id@),
            r is Ok ==> final(self).high_qc_of() == Some((high_qc.epoch.0, high_qc.qc_id@)),
    ;

    fn leaf_block_set(&mut self, leaf_block: &LeafBlock) -> (r: Result<(), StorageError>)
        ensures
            r == old(self).leaf_block_set_outcome(
                leaf_block.epoch.0,
                leaf_block.block_id@,
                leaf_block.height.0,
            ),
            r is Ok ==> final(self).leaf_block_of() == Some(
                (leaf_block.epoch.0, leaf_block.block_id@, leaf_block.height.0),
            ),
    ;
}

/// Whether a lookup found its item: a missing item is no error but `false`;
/// any other error stays an error.
pub open spec fn found_outcome<T>(lookup: Result<T, StorageError>, r: Result<bool, StorageError>) -> bool {
    match lookup {
        Ok(_) => r == Ok::<bool, StorageError>(true),
        Err(StorageError::NotFound { .. }) => r == Ok::<bool, StorageError>(false),
        Err(e) => r == Err::<bool, StorageError>(e),
    }
}

/// Turns the result of a lookup into whether the item exists.
pub fn found_from_lookup<T>(lookup: Result<T, StorageError>) -> (r: Result<bool, StorageError>)
    ensures
        found_outcome(lookup, r),
{
    match lookup {
        Ok(_) => Ok(true),
        Err(StorageError::NotFound { item, key }) => Ok(false),
        Err(e) => Err(e),
    }
}

impl QuorumCertificate {
    /// The certificate with the id `qc_id`, as the store gives it.
    pub fn get<TTx: StateStoreReadTransaction>(tx: &mut TTx, qc_id: &QcId) -> (r: Result<QuorumCertificate, StorageError>)
        ensures
            qc_result_is(r, old(tx).qc_lookup(qc_id@)),
            *final(tx) == *old(tx),
    {
        tx.quorum_certificates_get(qc_id)
    }

    /// The certified block, as the store gives it.
    pub fn get_block<TTx: StateStoreReadTransaction>(&self, tx: &mut TTx) -> (r: Result<Block, StorageError>)
        ensures
            r == old(tx).block_lookup(self@.block_id),
            *final(tx) == *old(tx),
    {
        tx.blocks_get(self.block_id())
    }

    /// Inserts the certificate into the store.
    pub fn insert<TTx: StateStoreWriteTransaction>(&self, tx: &mut TTx) -> (r: Result<(), StorageError>)
        ensures
            r == old(tx).qc_insert_outcome(self@),
            *final(tx) == old(tx).after_qc_insert(self@),
            r is Ok ==> final(tx).qc_lookup(self@.qc_id) == Ok::<QuorumCertificateView, StorageError>(self@),
    {
        tx.quorum_certificates_insert(self)
    }

    /// Whether the store holds a certificate with this certificate's id: a
    /// missing certificate gives `false`, any other failure stays an error.
    pub fn exists_in_store<TTx: StateStoreReadTransaction>(&self, tx: &mut TTx) -> (r: Result<bool, StorageError>)
        ensures
            found_outcome(old(tx).qc_lookup(self@.qc_id), r),
            *final(tx) == *old(tx),
    {
        let lookup = tx.quorum_certificates_get(self.id());
        found_from_lookup(lookup)
    }

    /// Inserts the certificate unless the store already holds one with its
    /// id. A lookup that fails for another reason than a missing certificate
    /// gives its error, and nothing is inserted.
    pub fn save<TTx: StateStoreWriteTransaction>(&self, tx: &mut TTx) -> (r: Result<(), StorageError>)
        ensures
            match old(tx).qc_lookup(self@.qc_id) {
                Ok(_) => r == Ok::<(), StorageError>(()) && *final(tx) == *old(tx),
                Err(StorageError::NotFound { .. }) => r == old(tx).qc_insert_outcome(self@)
                    && *final(tx) == old(tx).after_qc_insert(self@),
                Err(e) => r == Err::<(), StorageError>(e) && *final(tx) == *old(tx),
            },
            r is Ok ==> final(tx).qc_lookup(self@.qc_id) is Ok,
    {
        match self.exists_in_store(tx) {
            Ok(true) => Ok(()),
            Ok(false) => self.insert(tx),
            Err(e) => Err(e),
        }
    }

    /// Records this certificate as the highest certificate known.
    pub fn set_as_high_qc<TTx: StateStoreWriteTransaction>(&self, tx: &mut TTx) -> (r: Result<(), StorageError>)
        ensures
            r == old(tx).high_qc_set_outcome(self@.epoch, self@.qc_id),
            r is Ok ==> final(tx).high_qc_of() == Some((self@.epoch, self@.qc_id)),
    {
        let high_qc = self.as_high_qc();
        tx.high_qc_set(&high_qc)
    }

    /// Records the certified block as the leaf of the chain.
    pub fn set_block_as_leaf<TTx: StateStoreWriteTransaction>(&self, tx: &mut TTx) -> (r: Result<(), StorageError>)
        ensures
            r == old(tx).leaf_block_set_outcome(self@.epoch, self@.block_id, self@.block_height),
            r is Ok ==> final(tx).leaf_block_of() == Some((self@.epoch, self@.block_id, self@.block_height)),
    {
        let leaf = self.as_leaf_block();
        tx.leaf_block_set(&leaf)
    }
}

} // verus!
