use tari_dan::hash::{hash_lt, sort_hashes, FixedHash};
use tari_dan::message::{Block, HotstuffMessage, NewViewMessage, ProposalMessage, VoteMessage};
use tari_dan::payload::{CheckpointData, ConsensusHash, TariDanPayload};
use tari_dan::quorum_certificate::{HighQc, LeafBlock, QcId, QuorumCertificate, QuorumCertificateView, ValidatorSignature};
use tari_dan::store::{found_from_lookup, StateStoreReadTransaction, StateStoreWriteTransaction, StorageError};
use tari_dan::types::{BlockId, Epoch, NodeHeight};

fn h(b: u8) -> FixedHash {
    FixedHash([b; 32])
}

fn sample_qc(leaves: Vec<FixedHash>) -> QuorumCertificate {
    QuorumCertificate::new(
        BlockId::new(h(1)),
        NodeHeight(10),
        Epoch(5),
        3,
        vec![ValidatorSignature { public_key: vec![2, 3], signature: vec![4] }],
        vec![9, 9, 9],
        leaves,
    )
}

fn hex(bytes: &[u8]) -> String {
    bytes.iter().map(|b| format!("{:02x}", b)).collect()
}

#[test]
fn hash_order_is_bytewise() {
    let mut a = [0u8; 32];
    let mut b = [0u8; 32];
    a[5] = 1;
    b[5] = 2;
    assert!(hash_lt(&FixedHash(a), &FixedHash(b)));
    assert!(!hash_lt(&FixedHash(b), &FixedHash(a)));
    assert!(!hash_lt(&FixedHash(a), &FixedHash(a)));
    b[5] = 1;
    b[31] = 1;
    assert!(hash_lt(&FixedHash(a), &FixedHash(b)));
    a[0] = 1;
    assert!(hash_lt(&FixedHash(b), &FixedHash(a)));
}

#[test]
fn sorting_hashes_orders_them_and_keeps_duplicates() {
    let sorted = sort_hashes(vec![h(3), h(1), h(2), h(1), h(0)]);
    let got: Vec<[u8; 32]> = sorted.iter().map(|x| x.into_array()).collect();
    assert_eq!(got, vec![[0u8; 32], [1u8; 32], [1u8; 32], [2u8; 32], [3u8; 32]]);
    assert!(sort_hashes(vec![]).is_empty());
}

#[test]
fn qc_new_sorts_leaf_hashes() {
    let qc = sample_qc(vec![h(3), h(1)]);
    let leaves: Vec<[u8; 32]> = qc.leaf_hashes().iter().map(|x| x.into_array()).collect();
    assert_eq!(leaves, vec![[1u8; 32], [3u8; 32]]);
}

#[test]
fn qc_id_is_hash_of_content() {
    let qc = sample_qc(vec![h(3), h(1)]);
    assert_eq!(hex(qc.id().as_bytes()), "e5f54f8138074086817b8e9021a2d69caa88743536288f87ec293d2a24c670b0");
    assert_eq!(qc.calculate_id().as_bytes(), qc.id().as_bytes());
    assert_eq!(qc.id().to_hex_string(), "e5f54f8138074086817b8e9021a2d69caa88743536288f87ec293d2a24c670b0");
}

#[test]
fn qc_id_does_not_depend_on_leaf_order() {
    let a = sample_qc(vec![h(3), h(1), h(2)]);
    let b = sample_qc(vec![h(2), h(3), h(1)]);
    assert_eq!(a.id().as_bytes(), b.id().as_bytes());
    let c = sample_qc(vec![h(2), h(3)]);
    assert_ne!(a.id().as_bytes(), c.id().as_bytes());
}

#[test]
fn qc_getters() {
    let qc = sample_qc(vec![]);
    assert_eq!(qc.epoch().as_u64(), 5);
    assert_eq!(qc.block_height().as_u64(), 10);
    assert_eq!(qc.view_number(), 3);
    assert_eq!(qc.block_id().as_bytes(), &[1u8; 32]);
    assert_eq!(qc.merged_proof(), &[9u8, 9, 9]);
    assert_eq!(qc.signatures().len(), 1);
    assert_eq!(qc.signatures()[0].public_key, vec![2, 3]);
    assert!(!qc.is_genesis());
    let high: HighQc = qc.as_high_qc();
    assert_eq!(high.epoch.as_u64(), 5);
    assert_eq!(high.qc_id.as_bytes(), qc.id().as_bytes());
    let leaf: LeafBlock = qc.as_leaf_block();
    assert_eq!(leaf.epoch.as_u64(), 5);
    assert_eq!(leaf.height.as_u64(), 10);
    assert_eq!(leaf.block_id.as_bytes(), &[1u8; 32]);
}

#[test]
fn genesis_qc() {
    let qc = QuorumCertificate::genesis(Epoch(7));
    assert!(qc.is_genesis());
    assert_eq!(qc.epoch().as_u64(), 7);
    assert_eq!(qc.block_height().as_u64(), 0);
    assert_eq!(qc.view_number(), 0);
    assert!(qc.signatures().is_empty());
    assert!(qc.leaf_hashes().is_empty());
    assert_eq!(hex(qc.id().as_bytes()), "420492c4b11cde4542e7ec06fec154fcb3064588c5be156aecafa7a24fca5157");
    assert!(!qc.id().is_genesis());
}

#[test]
fn qc_id_genesis_and_bytes() {
    assert!(QcId::genesis().is_genesis());
    assert_eq!(QcId::genesis().as_bytes(), &[0u8; 32]);
    let mut b = [0u8; 32];
    b[31] = 1;
    assert!(!QcId::new(FixedHash(b)).is_genesis());
    assert_eq!(QcId::from(FixedHash(b)).hash().into_array(), b);
    assert_eq!(QcId::genesis().to_hex_string(), "0".repeat(64));
}

#[test]
fn qc_id_from_bytes() {
    let id = QcId::try_from_bytes(vec![4u8; 32]).ok().unwrap();
    assert_eq!(id.as_bytes(), &[4u8; 32]);
    assert_eq!(QcId::try_from_bytes(vec![4u8; 31]).err().unwrap().size, 31);
    let id = QcId::try_from(vec![5u8; 32]).ok().unwrap();
    assert_eq!(id.as_bytes(), &[5u8; 32]);
    assert_eq!(QcId::try_from(vec![]).err().unwrap().size, 0);
}

#[test]
fn block_id_genesis() {
    assert!(BlockId::genesis().is_genesis());
    assert!(!BlockId::new(h(1)).is_genesis());
    assert_eq!(BlockId::new(h(6)).hash().into_array(), [6u8; 32]);
    assert_eq!(FixedHash::zero().into_array(), [0u8; 32]);
    assert_eq!(FixedHash::from_array([8u8; 32]).as_slice(), &[8u8; 32]);
    assert_eq!(FixedHash::try_from_vec(vec![1; 3]).err().unwrap().size, 3);
}

#[test]
fn message_epochs() {
    let nv = HotstuffMessage::NewView(NewViewMessage { high_qc: sample_qc(vec![]), new_height: NodeHeight(2) });
    assert_eq!(nv.epoch().as_u64(), 5);
    let block = Block { id: BlockId::new(h(1)), parent: BlockId::genesis(), height: NodeHeight(1), epoch: Epoch(9) };
    assert_eq!(block.id().as_bytes(), &[1u8; 32]);
    let p = HotstuffMessage::Proposal(ProposalMessage { block });
    assert_eq!(p.epoch().as_u64(), 9);
    let v = HotstuffMessage::Vote(VoteMessage {
        epoch: Epoch(11),
        block_id: BlockId::genesis(),
        signature: ValidatorSignature { public_key: vec![], signature: vec![] },
    });
    assert_eq!(v.epoch().as_u64(), 11);
}

#[test]
fn payload_result_is_set_once_executed() {
    let mut p: TariDanPayload<u32, String> = TariDanPayload::new(42);
    let ts = p.timestamp();
    assert!(ts > 1_600_000_000);
    assert_eq!(*p.transaction(), 42);
    assert!(p.result().is_none());
    p.set_result("done".to_string());
    assert_eq!(p.result(), Some(&"done".to_string()));
    assert_eq!(p.timestamp(), ts);
    assert_eq!(p.into_payload(), 42);
}

#[test]
fn payload_made_at_given_time() {
    let p: TariDanPayload<u32, String> = TariDanPayload::new_at(7, 1_700_000_000);
    assert_eq!(p.timestamp(), 1_700_000_000);
    assert_eq!(*p.transaction(), 7);
    assert!(p.result().is_none());
}

#[test]
fn checkpoint_hash() {
    let c = CheckpointData::default();
    assert_eq!(c.consensus_hash().into_array(), [0u8; 32]);
    let c = CheckpointData { hash: h(4) };
    assert_eq!(c.consensus_hash().into_array(), [4u8; 32]);
}

#[test]
fn lookup_outcomes() {
    assert!(matches!(found_from_lookup::<u8>(Ok(1)), Ok(true)));
    let nf: Result<u8, StorageError> = Err(StorageError::NotFound { item: "qc".to_string(), key: "k".to_string() });
    assert!(matches!(found_from_lookup(nf), Ok(false)));
    let other: Result<u8, StorageError> = Err(StorageError::General { details: "disk".to_string() });
    assert!(matches!(found_from_lookup(other), Err(StorageError::General { .. })));
}

struct MemoryStore {
    qcs: Vec<QuorumCertificate>,
    inserts: usize,
    high_qc: Option<[u8; 32]>,
    leaf: Option<(u64, u64)>,
}

// The store's specification functions only describe it to the verifier;
// they are never called when the program runs.
impl StateStoreReadTransaction for MemoryStore {
    fn qc_lookup(&self, _qc_id: vstd::seq::Seq<u8>) -> Result<QuorumCertificateView, StorageError> {
        unreachable!("specification only")
    }

    fn block_lookup(&self, _block_id: vstd::seq::Seq<u8>) -> Result<Block, StorageError> {
        unreachable!("specification only")
    }

    fn quorum_certificates_get(&mut self, qc_id: &QcId) -> Result<QuorumCertificate, StorageError> {
        match self.qcs.iter().position(|q| q.id().as_bytes() == qc_id.as_bytes()) {
            Some(i) => {
                let q = &self.qcs[i];
                Ok(QuorumCertificate::new(
                    *q.block_id(),
                    q.block_height(),
                    q.epoch(),
                    q.view_number(),
                    vec![],
                    q.merged_proof().to_vec(),
                    q.leaf_hashes().to_vec(),
                ))
            },
            None => Err(StorageError::NotFound { item: "QuorumCertificate".to_string(), key: qc_id.to_hex_string() }),
        }
    }

    fn blocks_get(&mut self, block_id: &BlockId) -> Result<Block, StorageError> {
        Ok(Block { id: *block_id, parent: BlockId::genesis(), height: NodeHeight(0), epoch: Epoch(0) })
    }
}

impl StateStoreWriteTransaction for MemoryStore {
    fn qc_insert_outcome(&self, _qc: QuorumCertificateView) -> Result<(), StorageError> {
        unreachable!("specification only")
    }

    fn after_qc_insert(&self, _qc: QuorumCertificateView) -> Self {
        unreachable!("specification only")
    }

    fn high_qc_set_outcome(&self, _epoch: u64, _qc_id: vstd::seq::Seq<u8>) -> Result<(), StorageError> {
        unreachable!("specification only")
    }

    fn leaf_block_set_outcome(&self, _epoch: u64, _block_id: vstd::seq::Seq<u8>, _height: u64) -> Result<(), StorageError> {
        unreachable!("specification only")
    }

    fn high_qc_of(&self) -> Option<(u64, vstd::seq::Seq<u8>)> {
        unreachable!("specification only")
    }

    fn leaf_block_of(&self) -> Option<(u64, vstd::seq::Seq<u8>, u64)> {
        unreachable!("specification only")
    }

    fn quorum_certificates_insert(&mut self, qc: &QuorumCertificate) -> Result<(), StorageError> {
        self.inserts += 1;
        self.qcs.push(QuorumCertificate::new(
            *qc.block_id(),
            qc.block_height(),
            qc.epoch(),
            qc.view_number(),
            vec![ValidatorSignature { public_key: vec![2, 3], signature: vec![4] }],
            qc.merged_proof().to_vec(),
            qc.leaf_hashes().to_vec(),
        ));
        Ok(())
    }

    fn high_qc_set(&mut self, high_qc: &HighQc) -> Result<(), StorageError> {
        self.high_qc = Some(high_qc.qc_id.hash().into_array());
        Ok(())
    }

    fn leaf_block_set(&mut self, leaf_block: &LeafBlock) -> Result<(), StorageError> {
        self.leaf = Some((leaf_block.epoch.as_u64(), leaf_block.height.as_u64()));
        Ok(())
    }
}

#[test]
fn save_inserts_only_once() {
    let mut store = MemoryStore { qcs: vec![], inserts: 0, high_qc: None, leaf: None };
    let qc = sample_qc(vec![h(1)]);
    assert!(matches!(qc.exists_in_store(&mut store), Ok(false)));
    assert!(qc.save(&mut store).is_ok());
    assert_eq!(store.inserts, 1);
    assert!(matches!(qc.exists_in_store(&mut store), Ok(true)));
    assert!(qc.save(&mut store).is_ok());
    assert_eq!(store.inserts, 1);
    assert!(QuorumCertificate::get(&mut store, qc.id()).is_ok());
    assert!(QuorumCertificate::get(&mut store, &QcId::genesis()).is_err());
    assert_eq!(qc.get_block(&mut store).ok().unwrap().id().as_bytes(), &[1u8; 32]);
    qc.set_as_high_qc(&mut store).ok().unwrap();
    assert_eq!(store.high_qc, Some(qc.id().hash().into_array()));
    qc.set_block_as_leaf(&mut store).ok().unwrap();
    assert_eq!(store.leaf, Some((5, 10)));
}
