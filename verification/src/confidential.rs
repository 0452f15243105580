use vstd::prelude::*;
use tari_crypto::commitment::{ExtensionDegree, HomomorphicCommitmentFactory};
use tari_crypto::extended_range_proof::{ExtendedMask, ExtendedRangeProofService, ExtendedWitness};
use tari_crypto::ristretto::bulletproofs_plus::BulletproofsPlusService;
use tari_crypto::ristretto::pedersen::extended_commitment_factory::ExtendedPedersenCommitmentFactory;
use tari_crypto::ristretto::RistrettoSecretKey;
use tari_crypto::tari_utilities::ByteArray;
use crate::template_crypto::copy_into_array32;

verus! {

#[verifier::external_type_specification]
#[verifier::external_body]
pub struct ExExtendedPedersenCommitmentFactory(ExtendedPedersenCommitmentFactory);

#[verifier::external_type_specification]
#[verifier::external_body]
pub struct ExBulletproofsPlusService(BulletproofsPlusService);

/// A confidential amount: the Pedersen commitment to the value, the range
/// proof that the value is at least the promised minimum, and that minimum.
pub struct ConfidentialProof {
    pub commitment: [u8; 32],
    pub range_proof: Vec<u8>,
    pub minimum_value_promise: u64,
}

/// A Pedersen commitment factory together with its extension degree: the
/// number of blinding factors that one commitment takes.
pub struct CommitmentFactory {
    factory: ExtendedPedersenCommitmentFactory,
    extension_degree: usize,
}

impl CommitmentFactory {
    pub closed spec fn spec_extension_degree(&self) -> usize {
        self.extension_degree
    }
}

/// Calls `ExtendedPedersenCommitmentFactory::default` of `tari_crypto`, which
/// builds the factory of extension degree `ExtensionDegree::DefaultPedersen`,
/// that is one, and records that degree beside it. The factory itself is
/// opaque to Verus.
#[verifier::external_body]
fn commitment_factory() -> (r: CommitmentFactory)
    ensures
        r.spec_extension_degree() == 1,
{
    CommitmentFactory {
        factory: ExtendedPedersenCommitmentFactory::default(),
        extension_degree: ExtensionDegree::DefaultPedersen as usize,
    }
}

/// The compressed encoding of the Pedersen commitment `k * G + value * H` of
/// `tari_crypto`, where the blinding factor `k` is the little-endian number
/// `mask` taken modulo the group order.
pub uninterp spec fn pedersen_commitment(mask: Seq<u8>, value: u64) -> Seq<u8>;

/// Calls `commit_value` of `tari_crypto`'s commitment factory on the secret
/// key that `RistrettoSecretKey::from_bytes` reads from `mask` (which accepts
/// any 32 bytes and reduces them modulo the group order), and returns the
/// commitment's compressed encoding, 32 bytes. Every factory that
/// `tari_crypto` can build uses the same two base points for a single
/// blinding factor, so the result is a function of the mask and the value
/// alone: that function is named `pedersen_commitment`.
#[verifier::external_body]
fn commit_value(factory: &CommitmentFactory, mask: &[u8; 32], value: u64) -> (r: Vec<u8>)
    ensures
        r@.len() == 32,
        r@ == pedersen_commitment(mask@, value),
{
    let key = RistrettoSecretKey::from_bytes(mask).unwrap_or_default();
    factory.factory.commit_value(&key, value).as_bytes().to_vec()
}

/// Whether `n` is a power of two.
pub open spec fn is_power_of_two(n: nat) -> bool
    decreases n,
{
    if n == 1 {
        true
    } else if n < 2 || n % 2 != 0 {
        false
    } else {
        is_power_of_two(n / 2)
    }
}

/// A Bulletproofs+ range proof service together with the bit length, the
/// aggregation factor and the commitment factory's extension degree that it
/// was made with.
pub struct RangeProofService {
    service: BulletproofsPlusService,
    bit_length: usize,
    aggregation_factor: usize,
    extension_degree: usize,
}

impl RangeProofService {
    /// The number of bits that the proofs of this service cover.
    pub closed spec fn spec_bit_length(&self) -> usize {
        self.bit_length
    }

    /// The number of commitments that one proof of this service covers.
    pub closed spec fn spec_aggregation_factor(&self) -> usize {
        self.aggregation_factor
    }

    /// The number of blinding factors that the committed values carry.
    pub closed spec fn spec_extension_degree(&self) -> usize {
        self.extension_degree
    }

    pub fn bit_length(&self) -> (r: usize)
        ensures
            r == self.spec_bit_length(),
    {
        self.bit_length
    }

    pub fn aggregation_factor(&self) -> (r: usize)
        ensures
            r == self.spec_aggregation_factor(),
    {
        self.aggregation_factor
    }

    pub fn extension_degree(&self) -> (r: usize)
        ensures
            r == self.spec_extension_degree(),
    {
        self.extension_degree
    }

    /// The service itself, to verify proofs with.
    pub fn service(&self) -> (r: &BulletproofsPlusService) {
        &self.service
    }
}

/// Calls `BulletproofsPlusService::init` of `tari_crypto` and records the
/// bit length, the aggregation factor and the factory's extension degree
/// beside the service. Its source
/// succeeds exactly when the bit length is a power of two of at most 64 and
/// the aggregation factor is a power of two (the factory's extension degree
/// is always one that the service supports). The service is opaque to Verus.
#[verifier::external_body]
fn range_proof_service_init(
    bit_length: usize,
    aggregation_factor: usize,
    factory: CommitmentFactory,
) -> (r: Option<RangeProofService>)
    ensures
        r is Some <==> (is_power_of_two(bit_length as nat) && bit_length <= 64 && is_power_of_two(
            aggregation_factor as nat,
        )),
        r matches Some(s) ==> s.spec_bit_length() == bit_length && s.spec_aggregation_factor()
            == aggregation_factor && s.spec_extension_degree() == factory.spec_extension_degree(),
{
    let extension_degree = factory.extension_degree;
    match BulletproofsPlusService::init(bit_length, aggregation_factor, factory.factory) {
        Ok(service) => Some(RangeProofService { service, bit_length, aggregation_factor, extension_degree }),
        Err(_) => None,
    }
}

/// Whether `proof` is one of the Bulletproofs+ range proofs that
/// `tari_crypto`'s 64-bit, single-commitment service over the default
/// commitment factory constructs for the one witness whose blinding factor
/// is read from `mask`, whose value is `value` and whose promised minimum is
/// `minimum`: a proof that the value committed to is at least the minimum.
pub uninterp spec fn is_range_proof_for(proof: Seq<u8>, mask: Seq<u8>, value: u64, minimum: u64) -> bool;

/// Calls `construct_extended_proof` of `tari_crypto` for a single witness
/// made of the key that `RistrettoSecretKey::from_bytes` reads from `mask`,
/// `value` and `minimum_value_promise`, with no seed nonce. The witness's
/// extended mask is made in the same body by `ExtendedMask::assign` with the
/// default Pedersen degree and the one secret, which the source accepts (one
/// secret for degree one); the extended mask type cannot be declared to
/// Verus, so the calls share this item. The source refuses a witness whose
/// minimum exceeds its value. With a 64-bit service for one commitment over
/// a factory of degree one it refuses nothing else: every difference of two
/// `u64` values fits in 64 bits, one commitment is a power of two within the
/// aggregation factor, and one secret matches degree one; so it succeeds
/// exactly when the minimum is at most the value, and what it returns is a
/// proof for that witness. The proof's bytes are random (fresh nonces), so
/// which proof it is stays open.
#[verifier::external_body]
fn construct_range_proof(
    service: &RangeProofService,
    mask: &[u8; 32],
    value: u64,
    minimum_value_promise: u64,
) -> (r: Option<Vec<u8>>)
    ensures
        minimum_value_promise > value ==> r is None,
        service.spec_bit_length() == 64 && service.spec_aggregation_factor() == 1
            && service.spec_extension_degree() == 1 && minimum_value_promise <= value ==> r is Some,
        service.spec_bit_length() == 64 && service.spec_aggregation_factor() == 1
            && service.spec_extension_degree() == 1 ==> (r matches Some(p) ==> is_range_proof_for(
            p@,
            mask@,
            value,
            minimum_value_promise,
        )),
{
    let key = RistrettoSecretKey::from_bytes(mask).ok()?;
    let mask = ExtendedMask::assign(ExtensionDegree::DefaultPedersen, vec![key]).ok()?;
    service.service.construct_extended_proof(vec![ExtendedWitness::new(mask, value, minimum_value_promise)], None).ok()
}

/// The range proof service: 64-bit proofs of one commitment each, over the
/// default commitment factory.
pub fn range_proof_service() -> (r: RangeProofService)
    ensures
        r.spec_bit_length() == 64,
        r.spec_aggregation_factor() == 1,
        r.spec_extension_degree() == 1,
{
    proof {
        reveal_with_fuel(is_power_of_two, 8);
    }
    match range_proof_service_init(64, 1, commitment_factory()) {
        Some(s) => s,
        None => vstd::pervasive::unreached(),
    }
}

/// A range proof for `value` with the minimum `minimum_value_promise`, made
/// with the 64-bit, single-commitment Bulletproofs+ service. The minimum must
/// not exceed the value.
fn generate_extended_bullet_proof(
    mask: &[u8; 32],
    value: u64,
    minimum_value_promise: u64,
) -> (r: Vec<u8>)
    requires
        minimum_value_promise <= value,
    ensures
        is_range_proof_for(r@, mask@, value, minimum_value_promise),
{
    let service = range_proof_service();
    match construct_range_proof(&service, mask, value, minimum_value_promise) {
        Some(proof) => proof,
        None => vstd::pervasive::unreached(),
    }
}

/// Assembles a confidential proof from the commitment's bytes, the range
/// proof and the promised minimum.
pub fn confidential_proof_from_parts(
    commitment: Vec<u8>,
    range_proof: Vec<u8>,
    minimum_value_promise: u64,
) -> (r: ConfidentialProof)
    requires
        commitment@.len() == 32,
    ensures
        r.commitment@ == commitment@,
        r.range_proof == range_proof,
        r.minimum_value_promise == minimum_value_promise,
{
    ConfidentialProof {
        commitment: copy_into_array32(commitment.as_slice()),
        range_proof,
        minimum_value_promise,
    }
}

/// Builds a confidential proof of `value` under the blinding factor whose
/// 32 little-endian bytes are `mask`: the Pedersen commitment to the value,
/// a range proof that the value is at least `minimum_value_promise`, and
/// that minimum. The minimum must not exceed the value. The commitment
/// depends on the mask and the value alone.
pub fn generate_confidential_proof(
    mask: &[u8; 32],
    value: u64,
    minimum_value_promise: u64,
) -> (r: ConfidentialProof)
    requires
        minimum_value_promise <= value,
    ensures
        r.commitment@ == pedersen_commitment(mask@, value),
        is_range_proof_for(r.range_proof@, mask@, value, minimum_value_promise),
        r.minimum_value_promise == minimum_value_promise,
{
    let factory = commitment_factory();
    let commitment = commit_value(&factory, mask, value);
    let range_proof = generate_extended_bullet_proof(mask, value, minimum_value_promise);
    confidential_proof_from_parts(commitment, range_proof, minimum_value_promise)
}

} // verus!
