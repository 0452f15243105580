use tari_crypto::commitment::HomomorphicCommitment;
use tari_crypto::extended_range_proof::{AggregatedPublicStatement, ExtendedRangeProofService, Statement};
use tari_crypto::ristretto::RistrettoPublicKey;
use tari_crypto::commitment::HomomorphicCommitmentFactory;
use tari_crypto::ristretto::pedersen::extended_commitment_factory::ExtendedPedersenCommitmentFactory;
use tari_crypto::ristretto::RistrettoSecretKey;
use tari_crypto::tari_utilities::ByteArray;
use tari_dan::confidential::{confidential_proof_from_parts, generate_confidential_proof, range_proof_service};

fn commitment_of(mask: &[u8; 32], value: u64) -> Vec<u8> {
    let k = RistrettoSecretKey::from_bytes(mask).unwrap();
    ExtendedPedersenCommitmentFactory::default().commit_value(&k, value).as_bytes().to_vec()
}

#[test]
fn confidential_proof_commits_to_value() {
    let mask = [5u8; 32];
    let proof = generate_confidential_proof(&mask, 100, 10);
    assert_eq!(proof.minimum_value_promise, 10);
    assert_eq!(proof.commitment.to_vec(), commitment_of(&mask, 100));
    assert_ne!(proof.commitment.to_vec(), commitment_of(&mask, 10));
    assert!(!proof.range_proof.is_empty());
}

#[test]
fn confidential_commitment_ignores_minimum() {
    let mask = [11u8; 32];
    let a = generate_confidential_proof(&mask, 500, 0);
    let b = generate_confidential_proof(&mask, 500, 499);
    assert_eq!(a.commitment, b.commitment);
    let c = generate_confidential_proof(&[12u8; 32], 500, 0);
    assert_ne!(a.commitment, c.commitment);
}

#[test]
fn confidential_mask_reduced_modulo_group_order() {
    // All 0xff bytes exceed the group order; the key is taken modulo it.
    let mask = [0xffu8; 32];
    let proof = generate_confidential_proof(&mask, 3, 1);
    assert_eq!(proof.commitment.to_vec(), commitment_of(&mask, 3));
}

#[test]
fn confidential_proof_minimum_equal_to_value() {
    let proof = generate_confidential_proof(&[9u8; 32], 7, 7);
    assert_eq!(proof.minimum_value_promise, 7);
    assert!(!proof.range_proof.is_empty());
}

#[test]
fn confidential_proof_full_range() {
    let proof = generate_confidential_proof(&[9u8; 32], u64::MAX, 0);
    assert_eq!(proof.commitment.to_vec(), commitment_of(&[9u8; 32], u64::MAX));
}

#[test]
fn range_proof_service_builds() {
    let s = range_proof_service();
    assert_eq!(s.bit_length(), 64);
    assert_eq!(s.aggregation_factor(), 1);
    assert_eq!(s.extension_degree(), 1);
}

#[test]
fn confidential_range_proof_verifies() {
    let proof = generate_confidential_proof(&[5u8; 32], 1000, 400);
    let point = RistrettoPublicKey::from_bytes(&proof.commitment).unwrap();
    let statement = AggregatedPublicStatement::init(vec![Statement {
        commitment: HomomorphicCommitment::from_public_key(&point),
        minimum_value_promise: 400,
    }])
    .unwrap();
    let service = range_proof_service();
    assert!(service.service().verify_batch(vec![&proof.range_proof], vec![&statement]).is_ok());
    let wrong_min = AggregatedPublicStatement::init(vec![Statement {
        commitment: HomomorphicCommitment::from_public_key(&point),
        minimum_value_promise: 401,
    }])
    .unwrap();
    assert!(service.service().verify_batch(vec![&proof.range_proof], vec![&wrong_min]).is_err());
}

#[test]
fn confidential_proof_parts() {
    let p = confidential_proof_from_parts(vec![3u8; 32], vec![1, 2], 9);
    assert_eq!(p.commitment, [3u8; 32]);
    assert_eq!(p.range_proof, vec![1, 2]);
    assert_eq!(p.minimum_value_promise, 9);
}
