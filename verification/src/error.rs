use vstd::prelude::*;
use crate::store::StorageError;
use crate::types::{BlockId, Epoch};

verus! {

/// Why a proposed block was refused.
pub enum ProposalValidationError {
    StorageError(StorageError),
    NodeHashMismatch { proposed_by: String, hash: BlockId, calculated_hash: BlockId },
    NotSafeBlock { proposed_by: String, hash: BlockId },
    ProposingGenesisBlock { proposed_by: String, hash: BlockId },
    JustifyBlockNotFound { proposed_by: String, hash: BlockId, justify_block: BlockId },
    JustifyBlockInvalid { proposed_by: String, block_id: BlockId, details: String },
}

/// The errors of the HotStuff consensus worker. Errors of other components
/// are held as their descriptions.
#[allow(inconsistent_fields)]
pub enum HotStuffError {
    StorageError(StorageError),
    InternalChannelClosed { context: &'static str },
    EpochNotActive { epoch: Epoch, details: String },
    ReceivedMessageFromNonCommitteeMember { epoch: Epoch, sender: String, context: String },
    ProposalValidationError(ProposalValidationError),
    DecisionMismatch { block_id: BlockId, pool: &'static str },
    NotTheLeader { details: String },
    BalancedBinaryMerkleProofError(String),
    EpochManagerError(String),
    InvalidVoteSignature { signer_public_key: Vec<u8> },
}

impl From<StorageError> for ProposalValidationError {
    fn from(err: StorageError) -> (r: ProposalValidationError) {
        ProposalValidationError::StorageError(err)
    }
}

impl vstd::std_specs::convert::FromSpecImpl<StorageError> for ProposalValidationError {
    open spec fn obeys_from_spec() -> bool {
        true
    }

    open spec fn from_spec(v: StorageError) -> ProposalValidationError {
        ProposalValidationError::StorageError(v)
    }
}

impl From<StorageError> for HotStuffError {
    fn from(err: StorageError) -> (r: HotStuffError) {
        HotStuffError::StorageError(err)
    }
}

impl vstd::std_specs::convert::FromSpecImpl<StorageError> for HotStuffError {
    open spec fn obeys_from_spec() -> bool {
        true
    }

    open spec fn from_spec(v: StorageError) -> HotStuffError {
        HotStuffError::StorageError(v)
    }
}

impl From<ProposalValidationError> for HotStuffError {
    fn from(err: ProposalValidationError) -> (r: HotStuffError) {
        HotStuffError::ProposalValidationError(err)
    }
}

impl vstd::std_specs::convert::FromSpecImpl<ProposalValidationError> for HotStuffError {
    open spec fn obeys_from_spec() -> bool {
        true
    }

    open spec fn from_spec(v: ProposalValidationError) -> HotStuffError {
        HotStuffError::ProposalValidationError(v)
    }
}

} // verus!
