use vstd::prelude::*;
use crate::quorum_certificate::{QuorumCertificate, ValidatorSignature};
use crate::types::{BlockId, Epoch, NodeHeight};

verus! {

/// A proposed block, as far as consensus messages read it.
pub struct Block {
    pub id: BlockId,
    pub parent: BlockId,
    pub height: NodeHeight,
    pub epoch: Epoch,
}

impl Block {
    pub fn epoch(&self) -> (r: Epoch)
        ensures
            r == self.epoch,
    {
        self.epoch
    }

    pub fn id(&self) -> (r: &BlockId)
        ensures
            r@ == self.id@,
    {
        &self.id
    }
}

/// A replica's move to a new view, carrying the highest certificate it knows.
pub struct NewViewMessage {
    pub high_qc: QuorumCertificate,
    pub new_height: NodeHeight,
}

/// A leader's proposal of a block.
pub struct ProposalMessage {
    pub block: Block,
}

/// A replica's vote on a block.
pub struct VoteMessage {
    pub epoch: Epoch,
    pub block_id: BlockId,
    pub signature: ValidatorSignature,
}

/// A message of the HotStuff consensus protocol.
pub enum HotstuffMessage {
    NewView(NewViewMessage),
    Proposal(ProposalMessage),
    Vote(VoteMessage),
}

/// The epoch that a message belongs to.
pub open spec fn message_epoch(msg: HotstuffMessage) -> u64 {
    match msg {
        HotstuffMessage::NewView(m) => m.high_qc@.epoch,
        HotstuffMessage::Proposal(m) => m.block.epoch.0,
        HotstuffMessage::Vote(m) => m.epoch.0,
    }
}

impl HotstuffMessage {
    /// The epoch of the message: that of the carried certificate for a new
    /// view, of the proposed block for a proposal, of the vote for a vote.
    pub fn epoch(&self) -> (r: Epoch)
        ensures
            r.0 == message_epoch(*self),
    {
        match self {
            HotstuffMessage::NewView(msg) => msg.high_qc.epoch(),
            HotstuffMessage::Proposal(msg) => msg.block.epoch(),
            HotstuffMessage::Vote(msg) => msg.epoch,
        }
    }
}

} // verus!
