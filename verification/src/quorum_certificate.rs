use vstd::prelude::*;
use crate::digest::{append_bytes, append_frame, append_le64, blake2b_256, blake2b_256_digest, frame, le64};
use crate::hash::{lemma_sorted_unique, sort_hashes, sorted_hashes, FixedHash, FixedHashSizeError};
use crate::types::{all_zero, hash_is_zero, BlockId, Epoch, NodeHeight};
use vstd::bytes::{lemma_auto_spec_u64_to_from_le_bytes, spec_u64_from_le_bytes};

verus! {

/// The identifier of a quorum certificate: a 32-byte hash.
#[derive(Clone, Copy, Debug, Eq, PartialOrd, Ord, Hash)]
pub struct QcId(pub FixedHash);

impl View for QcId {
    type V = Seq<u8>;

    open spec fn view(&self) -> Seq<u8> {
        self.0@
    }
}

impl PartialEq for QcId {
    fn eq(&self, other: &Self) -> (r: bool) {
        crate::hash::bytes_eq(self.0.as_slice(), other.0.as_slice())
    }
}

impl vstd::std_specs::cmp::PartialEqSpecImpl for QcId {
    open spec fn obeys_eq_spec() -> bool {
        true
    }

    open spec fn eq_spec(&self, other: &Self) -> bool {
        self@ == other@
    }
}

impl QcId {
    /// The identifier of the genesis certificate: all zero bytes.
    pub fn genesis() -> (r: QcId)
        ensures
            r@ == Seq::new(32, |i: int| 0u8),
            all_zero(r@),
    {
        QcId(FixedHash::zero())
    }

    pub fn new(hash: FixedHash) -> (r: QcId)
        ensures
            r@ == hash@,
    {
        QcId(hash)
    }

    pub fn hash(&self) -> (r: &FixedHash)
        ensures
            r@ == self@,
    {
        &self.0
    }

    pub fn as_bytes(&self) -> (r: &[u8])
        ensures
            r@ == self@,
    {
        self.0.as_slice()
    }

    pub fn is_genesis(&self) -> (r: bool)
        ensures
            r == all_zero(self@),
    {
        hash_is_zero(&self.0)
    }

    /// The identifier as lower-case hexadecimal, as it is displayed.
    pub fn to_hex_string(&self) -> (r: String)
        ensures
            r@ == crate::text::hex_lower(self@),
    {
        crate::text::to_hex(self.0.as_slice())
    }

    /// Reads an identifier from exactly 32 bytes.
    pub fn try_from_bytes(value: Vec<u8>) -> (r: Result<QcId, FixedHashSizeError>)
        ensures
            value@.len() == 32 <==> r is Ok,
            r matches Ok(id) ==> id@ == value@,
            r matches Err(e) ==> e.size == value@.len(),
    {
        match FixedHash::try_from_vec(value) {
            Ok(h) => Ok(QcId(h)),
            Err(e) => Err(e),
        }
    }
}

impl AsRef<[u8]> for QcId {
    fn as_ref(&self) -> (r: &[u8])
        ensures
            r@ == self@,
    {
        self.0.as_slice()
    }
}

impl From<FixedHash> for QcId {
    fn from(value: FixedHash) -> (r: QcId) {
        QcId(value)
    }
}

impl vstd::std_specs::convert::FromSpecImpl<FixedHash> for QcId {
    open spec fn obeys_from_spec() -> bool {
        true
    }

    open spec fn from_spec(v: FixedHash) -> QcId {
        QcId(v)
    }
}

/// What reading an identifier from bytes gives: the identifier with those
/// bytes when there are 32 of them, else the size error.
pub open spec fn qc_id_from_vec(v: Vec<u8>) -> Result<QcId, FixedHashSizeError> {
    if v@.len() == 32 {
        Ok(QcId(FixedHash(choose|a: [u8; 32]| a@ == v@)))
    } else {
        Err(FixedHashSizeError { size: v@.len() as usize })
    }
}

impl TryFrom<Vec<u8>> for QcId {
    type Error = FixedHashSizeError;

    fn try_from(value: Vec<u8>) -> (r: Result<QcId, FixedHashSizeError>) {
        let ghost v = value@;
        let ghost vv = value;
        let r = QcId::try_from_bytes(value);
        proof {
            if let Ok(ref id) = r {
                let bytes = id.0.0;
                assert(bytes@ == v);
                let a = choose|a: [u8; 32]| a@ == vv@;
                assert(a@ == v);
                assert(a =~= bytes) by {
                    broadcast use vstd::array::group_array_axioms;
                }
                assert(a == bytes);
            }
        }
        r
    }
}

impl vstd::std_specs::convert::TryFromSpecImpl<Vec<u8>> for QcId {
    open spec fn obeys_try_from_spec() -> bool {
        true
    }

    open spec fn try_from_spec(v: Vec<u8>) -> Result<QcId, FixedHashSizeError> {
        qc_id_from_vec(v)
    }
}

/// A validator's signature on a block: the signer's public key and the
/// signature, each held as its encoded bytes.
pub struct ValidatorSignature {
    pub public_key: Vec<u8>,
    pub signature: Vec<u8>,
}

/// The highest certified block known: its epoch and the certificate's id.
pub struct HighQc {
    pub epoch: Epoch,
    pub qc_id: QcId,
}

/// The leaf of the chain: the certified block, its epoch and its height.
pub struct LeafBlock {
    pub epoch: Epoch,
    pub block_id: BlockId,
    pub height: NodeHeight,
}

/// The bytes that label the hash of a quorum certificate.
pub open spec fn qc_hash_label() -> Seq<u8> {
    seq![81u8, 117u8, 111u8, 114u8, 117u8, 109u8, 67u8, 101u8, 114u8, 116u8, 105u8, 102u8, 105u8, 99u8, 97u8, 116u8, 101u8]
}

fn qc_hash_label_bytes() -> (r: Vec<u8>)
    ensures
        r@ == qc_hash_label(),
{
    let r: Vec<u8> = vec![81u8, 117u8, 111u8, 114u8, 117u8, 109u8, 67u8, 101u8, 114u8, 116u8, 105u8, 102u8, 105u8, 99u8, 97u8, 116u8, 101u8];
    assert(r@ =~= qc_hash_label());
    r
}

/// The encoding of a list of signatures: each key and signature framed by
/// its length, in order.
pub open spec fn signatures_encoding(s: Seq<ValidatorSignature>) -> Seq<u8>
    decreases s.len(),
{
    if s.len() == 0 {
        Seq::empty()
    } else {
        signatures_encoding(s.drop_last()) + frame(s.last().public_key@) + frame(s.last().signature@)
    }
}

/// The encoding of a list of hashes: their bytes, in order.
pub open spec fn hashes_encoding(s: Seq<FixedHash>) -> Seq<u8>
    decreases s.len(),
{
    if s.len() == 0 {
        Seq::empty()
    } else {
        hashes_encoding(s.drop_last()) + s.last()@
    }
}

/// The bytes whose hash identifies a quorum certificate.
pub open spec fn qc_preimage(
    epoch: u64,
    block_id: Seq<u8>,
    block_height: u64,
    view_number: u64,
    signatures: Seq<ValidatorSignature>,
    merged_proof: Seq<u8>,
    leaf_hashes: Seq<FixedHash>,
) -> Seq<u8> {
    qc_hash_label() + le64(epoch) + block_id + le64(block_height) + le64(view_number)
        + le64(signatures.len() as u64) + signatures_encoding(signatures) + frame(merged_proof)
        + le64(leaf_hashes.len() as u64) + hashes_encoding(leaf_hashes)
}

/// Whether each key and each signature of the list is short enough for its
/// length to be written in eight bytes, as every byte vector in memory is.
pub open spec fn signature_lengths_fit(s: Seq<ValidatorSignature>) -> bool {
    forall|i: int|
        0 <= i < s.len() ==> (#[trigger] s[i]).public_key@.len() <= u64::MAX && s[i].signature@.len()
            <= u64::MAX
}

/// Whether two signature lists hold the same keys and signatures, in the
/// same order.
pub open spec fn same_signatures(s1: Seq<ValidatorSignature>, s2: Seq<ValidatorSignature>) -> bool {
    &&& s1.len() == s2.len()
    &&& forall|i: int|
        0 <= i < s1.len() ==> (#[trigger] s1[i]).public_key@ == s2[i].public_key@ && s1[i].signature@
            == s2[i].signature@
}

/// Two length-framed byte strings, each followed by more bytes, that give the
/// same bytes frame the same string and are followed by the same bytes.
proof fn lemma_frame_split(d1: Seq<u8>, r1: Seq<u8>, d2: Seq<u8>, r2: Seq<u8>)
    requires
        d1.len() <= u64::MAX,
        d2.len() <= u64::MAX,
        frame(d1) + r1 == frame(d2) + r2,
    ensures
        d1 == d2,
        r1 == r2,
{
    lemma_auto_spec_u64_to_from_le_bytes();
    let e1 = frame(d1) + r1;
    let e2 = frame(d2) + r2;
    let n1 = d1.len() as u64;
    let n2 = d2.len() as u64;
    assert(le64(n1).len() == 8);
    assert(le64(n2).len() == 8);
    assert(e1.subrange(0, 8) =~= le64(n1));
    assert(e2.subrange(0, 8) =~= le64(n2));
    assert(spec_u64_from_le_bytes(le64(n1)) == n1);
    assert(spec_u64_from_le_bytes(le64(n2)) == n2);
    assert(n1 == n2);
    let n = d1.len() as int;
    assert(e1.subrange(8, 8 + n) =~= d1);
    assert(e2.subrange(8, 8 + n) =~= d2);
    assert(e1.subrange(8 + n, e1.len() as int) =~= r1);
    assert(e2.subrange(8 + n, e2.len() as int) =~= r2);
}

/// The encoding of a non-empty list starts with its first key and signature,
/// each framed by its length, and goes on with the encoding of the rest.
proof fn lemma_signatures_encoding_front(s: Seq<ValidatorSignature>)
    requires
        s.len() > 0,
    ensures
        signatures_encoding(s) == frame(s[0].public_key@) + (frame(s[0].signature@)
            + signatures_encoding(s.drop_first())),
    decreases s.len(),
{
    if s.len() == 1 {
        assert(s.drop_last() =~= Seq::<ValidatorSignature>::empty());
        assert(s.drop_first() =~= Seq::<ValidatorSignature>::empty());
        assert(signatures_encoding(s.drop_last()) =~= Seq::<u8>::empty());
        assert(signatures_encoding(s.drop_first()) =~= Seq::<u8>::empty());
        assert(signatures_encoding(s) =~= frame(s[0].public_key@) + (frame(s[0].signature@)
            + signatures_encoding(s.drop_first())));
    } else {
        let t = s.drop_last();
        let u = s.drop_first();
        lemma_signatures_encoding_front(t);
        assert(t[0] == s[0]);
        assert(u.drop_last() =~= t.drop_first());
        assert(u.last() == s.last());
        assert(signatures_encoding(u) == signatures_encoding(u.drop_last()) + frame(
            u.last().public_key@,
        ) + frame(u.last().signature@));
        assert(signatures_encoding(s) =~= frame(s[0].public_key@) + (frame(s[0].signature@)
            + signatures_encoding(u)));
    }
}

/// The encoding of a signature list determines the list: two lists with the
/// same encoding hold the same keys and signatures in the same order. So the
/// encoding, and with it a certificate's identifier, covers every signature
/// of the quorum.
pub proof fn lemma_signatures_encoding_injective(s1: Seq<ValidatorSignature>, s2: Seq<ValidatorSignature>)
    requires
        signature_lengths_fit(s1),
        signature_lengths_fit(s2),
        signatures_encoding(s1) == signatures_encoding(s2),
    ensures
        same_signatures(s1, s2),
    decreases s1.len(),
{
    lemma_auto_spec_u64_to_from_le_bytes();
    if s1.len() == 0 && s2.len() == 0 {
    } else if s1.len() == 0 {
        lemma_signatures_encoding_front(s2);
        assert(le64(s2[0].public_key@.len() as u64).len() == 8);
        assert(signatures_encoding(s2).len() >= 8);
        assert(signatures_encoding(s1).len() == 0);
    } else if s2.len() == 0 {
        lemma_signatures_encoding_front(s1);
        assert(le64(s1[0].public_key@.len() as u64).len() == 8);
        assert(signatures_encoding(s1).len() >= 8);
        assert(signatures_encoding(s2).len() == 0);
    } else {
        let t1 = s1.drop_first();
        let t2 = s2.drop_first();
        lemma_signatures_encoding_front(s1);
        lemma_signatures_encoding_front(s2);
        assert(s1[0].public_key@.len() <= u64::MAX);
        assert(s2[0].public_key@.len() <= u64::MAX);
        lemma_frame_split(
            s1[0].public_key@,
            frame(s1[0].signature@) + signatures_encoding(t1),
            s2[0].public_key@,
            frame(s2[0].signature@) + signatures_encoding(t2),
        );
        lemma_frame_split(
            s1[0].signature@,
            signatures_encoding(t1),
            s2[0].signature@,
            signatures_encoding(t2),
        );
        assert(signature_lengths_fit(t1)) by {
            assert forall|i: int| 0 <= i < t1.len() implies (#[trigger] t1[i]).public_key@.len()
                <= u64::MAX && t1[i].signature@.len() <= u64::MAX by {
                assert(t1[i] == s1[i + 1]);
            }
        }
        assert(signature_lengths_fit(t2)) by {
            assert forall|i: int| 0 <= i < t2.len() implies (#[trigger] t2[i]).public_key@.len()
                <= u64::MAX && t2[i].signature@.len() <= u64::MAX by {
                assert(t2[i] == s2[i + 1]);
            }
        }
        lemma_signatures_encoding_injective(t1, t2);
        assert forall|i: int| 0 <= i < s1.len() implies (#[trigger] s1[i]).public_key@
            == s2[i].public_key@ && s1[i].signature@ == s2[i].signature@ by {
            if i > 0 {
                assert(s1[i] == t1[i - 1]);
                assert(s2[i] == t2[i - 1]);
            }
        }
    }
}

/// The bytes hashed into a certificate's identifier commit to its whole
/// signature list: two certificates whose contents differ only in their
/// signatures have different preimages unless the two lists hold the same
/// keys and signatures in the same order.
pub proof fn lemma_qc_preimage_commits_to_signatures(
    epoch: u64,
    block_id: Seq<u8>,
    block_height: u64,
    view_number: u64,
    s1: Seq<ValidatorSignature>,
    s2: Seq<ValidatorSignature>,
    merged_proof: Seq<u8>,
    leaf_hashes: Seq<FixedHash>,
)
    requires
        signature_lengths_fit(s1),
        signature_lengths_fit(s2),
        s1.len() <= u64::MAX,
        s2.len() <= u64::MAX,
        qc_preimage(epoch, block_id, block_height, view_number, s1, merged_proof, leaf_hashes)
            == qc_preimage(epoch, block_id, block_height, view_number, s2, merged_proof, leaf_hashes),
    ensures
        same_signatures(s1, s2),
{
    lemma_auto_spec_u64_to_from_le_bytes();
    let a = qc_hash_label() + le64(epoch) + block_id + le64(block_height) + le64(view_number);
    let z = frame(merged_proof) + le64(leaf_hashes.len() as u64) + hashes_encoding(leaf_hashes);
    let m1 = le64(s1.len() as u64) + signatures_encoding(s1);
    let m2 = le64(s2.len() as u64) + signatures_encoding(s2);
    let p1 = qc_preimage(epoch, block_id, block_height, view_number, s1, merged_proof, leaf_hashes);
    let p2 = qc_preimage(epoch, block_id, block_height, view_number, s2, merged_proof, leaf_hashes);
    assert(p1 =~= a + m1 + z);
    assert(p2 =~= a + m2 + z);
    assert(m1.len() == m2.len());
    assert(p1.subrange(a.len() as int, (a.len() + m1.len()) as int) =~= m1);
    assert(p2.subrange(a.len() as int, (a.len() + m2.len()) as int) =~= m2);
    assert(m1 == m2);
    let l1 = s1.len() as u64;
    let l2 = s2.len() as u64;
    assert(le64(l1).len() == 8);
    assert(le64(l2).len() == 8);
    assert(m1.subrange(0, 8) =~= le64(l1));
    assert(m2.subrange(0, 8) =~= le64(l2));
    assert(spec_u64_from_le_bytes(le64(l1)) == l1);
    assert(spec_u64_from_le_bytes(le64(l2)) == l2);
    assert(m1.subrange(8, m1.len() as int) =~= signatures_encoding(s1));
    assert(m2.subrange(8, m2.len() as int) =~= signatures_encoding(s2));
    lemma_signatures_encoding_injective(s1, s2);
}

/// The identifier of a quorum certificate with the given content.
pub open spec fn qc_id_of(
    epoch: u64,
    block_id: Seq<u8>,
    block_height: u64,
    view_number: u64,
    signatures: Seq<ValidatorSignature>,
    merged_proof: Seq<u8>,
    leaf_hashes: Seq<FixedHash>,
) -> Seq<u8> {
    blake2b_256(
        qc_preimage(epoch, block_id, block_height, view_number, signatures, merged_proof, leaf_hashes),
    )
}

fn append_signatures(out: &mut Vec<u8>, signatures: &Vec<ValidatorSignature>)
    ensures
        final(out)@ == old(out)@ + signatures_encoding(signatures@),
{
    let n = signatures.len();
    let mut i: usize = 0;
    assert(signatures@.take(0) =~= Seq::<ValidatorSignature>::empty());
    assert(out@ =~= old(out)@ + signatures_encoding(signatures@.take(0)));
    while i < n
        invariant
            0 <= i <= n,
            n == signatures@.len(),
            out@ == old(out)@ + signatures_encoding(signatures@.take(i as int)),
        decreases n - i,
    {
        let ghost before = out@;
        append_frame(out, signatures[i].public_key.as_slice());
        append_frame(out, signatures[i].signature.as_slice());
        proof {
            let t = signatures@.take(i as int + 1);
            assert(t.drop_last() =~= signatures@.take(i as int));
            assert(t.last() == signatures@[i as int]);
            assert(out@ =~= old(out)@ + signatures_encoding(t));
        }
        i = i + 1;
    }
    assert(signatures@.take(n as int) =~= signatures@);
}

fn append_hashes(out: &mut Vec<u8>, hashes: &Vec<FixedHash>)
    ensures
        final(out)@ == old(out)@ + hashes_encoding(hashes@),
{
    let n = hashes.len();
    let mut i: usize = 0;
    assert(hashes@.take(0) =~= Seq::<FixedHash>::empty());
    assert(out@ =~= old(out)@ + hashes_encoding(hashes@.take(0)));
    while i < n
        invariant
            0 <= i <= n,
            n == hashes@.len(),
            out@ == old(out)@ + hashes_encoding(hashes@.take(i as int)),
        decreases n - i,
    {
        append_bytes(out, hashes[i].as_slice());
        proof {
            let t = hashes@.take(i as int + 1);
            assert(t.drop_last() =~= hashes@.take(i as int));
            assert(t.last() == hashes@[i as int]);
            assert(out@ =~= old(out)@ + hashes_encoding(t));
        }
        i = i + 1;
    }
    assert(hashes@.take(n as int) =~= hashes@);
}

/// Computes the identifier of a quorum certificate from its content.
fn compute_qc_id(
    epoch: Epoch,
    block_id: &BlockId,
    block_height: NodeHeight,
    view_number: u64,
    signatures: &Vec<ValidatorSignature>,
    merged_proof: &Vec<u8>,
    leaf_hashes: &Vec<FixedHash>,
) -> (r: QcId)
    ensures
        r@ == qc_id_of(
            epoch.0,
            block_id@,
            block_height.0,
            view_number,
            signatures@,
            merged_proof@,
            leaf_hashes@,
        ),
{
    let mut pre = qc_hash_label_bytes();
    append_le64(&mut pre, epoch.0);
    append_bytes(&mut pre, block_id.as_bytes());
    append_le64(&mut pre, block_height.0);
    append_le64(&mut pre, view_number);
    append_le64(&mut pre, signatures.len() as u64);
    append_signatures(&mut pre, signatures);
    append_frame(&mut pre, merged_proof.as_slice());
    append_le64(&mut pre, leaf_hashes.len() as u64);
    append_hashes(&mut pre, leaf_hashes);
    assert(pre@ =~= qc_preimage(
        epoch.0,
        block_id@,
        block_height.0,
        view_number,
        signatures@,
        merged_proof@,
        leaf_hashes@,
    ));
    QcId(FixedHash(blake2b_256_digest(pre.as_slice())))
}

/// A quorum certificate: the signatures of a quorum of validators on a block,
/// with the Merkle proof of their membership and the sorted hashes of the
/// proof's leaves. Its identifier is the hash of the rest of its content.
pub struct QuorumCertificate {
    qc_id: QcId,
    block_id: BlockId,
    block_height: NodeHeight,
    epoch: Epoch,
    view_number: u64,
    signatures: Vec<ValidatorSignature>,
    merged_proof: Vec<u8>,
    leaf_hashes: Vec<FixedHash>,
}

/// The content of a quorum certificate as plain values.
pub ghost struct QuorumCertificateView {
    pub qc_id: Seq<u8>,
    pub block_id: Seq<u8>,
    pub block_height: u64,
    pub epoch: u64,
    pub view_number: u64,
    pub signatures: Seq<ValidatorSignature>,
    pub merged_proof: Seq<u8>,
    pub leaf_hashes: Seq<FixedHash>,
}

impl View for QuorumCertificate {
    type V = QuorumCertificateView;

    closed spec fn view(&self) -> QuorumCertificateView {
        QuorumCertificateView {
            qc_id: self.qc_id@,
            block_id: self.block_id@,
            block_height: self.block_height.0,
            epoch: self.epoch.0,
            view_number: self.view_number,
            signatures: self.signatures@,
            merged_proof: self.merged_proof@,
            leaf_hashes: self.leaf_hashes@,
        }
    }
}

/// The identifier that the content of a certificate determines.
pub open spec fn content_id(v: QuorumCertificateView) -> Seq<u8> {
    qc_id_of(
        v.epoch,
        v.block_id,
        v.block_height,
        v.view_number,
        v.signatures,
        v.merged_proof,
        v.leaf_hashes,
    )
}

/// What every quorum certificate satisfies: its leaf hashes are sorted and its
/// identifier is the hash of its content.
pub open spec fn qc_well_formed(v: QuorumCertificateView) -> bool {
    sorted_hashes(v.leaf_hashes) && v.qc_id == content_id(v)
}

/// A certificate's identifier does not depend on the order in which its leaf
/// hashes were given: two certificates with the same block, height, epoch,
/// view, signatures and proof, whose leaf hashes are the same collection, have
/// the same leaf list and the same identifier.
pub proof fn lemma_qc_id_independent_of_leaf_order(v1: QuorumCertificateView, v2: QuorumCertificateView)
    requires
        qc_well_formed(v1),
        qc_well_formed(v2),
        v1.block_id == v2.block_id,
        v1.block_height == v2.block_height,
        v1.epoch == v2.epoch,
        v1.view_number == v2.view_number,
        v1.signatures == v2.signatures,
        v1.merged_proof == v2.merged_proof,
        v1.leaf_hashes.to_multiset() == v2.leaf_hashes.to_multiset(),
    ensures
        v1.leaf_hashes == v2.leaf_hashes,
        v1.qc_id == v2.qc_id,
{
    lemma_sorted_unique(v1.leaf_hashes, v2.leaf_hashes);
}

impl QuorumCertificate {
    #[verifier::type_invariant]
    closed spec fn inv(self) -> bool {
        qc_well_formed(self@)
    }

    /// Builds a certificate; the leaf hashes are sorted and the identifier is
    /// computed from the content.
    pub fn new(
        block: BlockId,
        block_height: NodeHeight,
        epoch: Epoch,
        view_number: u64,
        signatures: Vec<ValidatorSignature>,
        merged_proof: Vec<u8>,
        leaf_hashes: Vec<FixedHash>,
    ) -> (r: QuorumCertificate)
        ensures
            r@.block_id == block@,
            r@.block_height == block_height.0,
            r@.epoch == epoch.0,
            r@.view_number == view_number,
            r@.signatures == signatures@,
            r@.merged_proof == merged_proof@,
            sorted_hashes(r@.leaf_hashes),
            r@.leaf_hashes.to_multiset() == leaf_hashes@.to_multiset(),
            r@.qc_id == content_id(r@),
    {
        let leaf_hashes = sort_hashes(leaf_hashes);
        let qc_id = compute_qc_id(
            epoch,
            &block,
            block_height,
            view_number,
            &signatures,
            &merged_proof,
            &leaf_hashes,
        );
        QuorumCertificate {
            qc_id,
            block_id: block,
            block_height,
            epoch,
            view_number,
            signatures,
            merged_proof,
            leaf_hashes,
        }
    }

    /// The certificate of the genesis block in `epoch`: no signatures, an
    /// empty proof and no leaves.
    pub fn genesis(epoch: Epoch) -> (r: QuorumCertificate)
        ensures
            all_zero(r@.block_id),
            r@.block_id.len() == 32,
            r@.block_height == 0,
            r@.epoch == epoch.0,
            r@.view_number == 0,
            r@.signatures.len() == 0,
            r@.merged_proof.len() == 0,
            r@.leaf_hashes.len() == 0,
            r@.qc_id == content_id(r@),
    {
        let r = Self::new(
            BlockId::genesis(),
            NodeHeight::zero(),
            epoch,
            0,
            Vec::new(),
            Vec::new(),
            Vec::new(),
        );
        proof {
            if r@.leaf_hashes.len() > 0 {
                r@.leaf_hashes.to_multiset_ensures();
                Seq::<FixedHash>::empty().to_multiset_ensures();
            }
        }
        r
    }

    pub fn is_genesis(&self) -> (r: bool)
        ensures
            r == all_zero(self@.block_id),
    {
        self.block_id.is_genesis()
    }

    /// The identifier, which is always the hash of the certificate's content.
    pub fn id(&self) -> (r: &QcId)
        ensures
            r@ == self@.qc_id,
            r@ == content_id(self@),
            qc_well_formed(self@),
    {
        proof {
            use_type_invariant(self);
        }
        &self.qc_id
    }

    pub fn epoch(&self) -> (r: Epoch)
        ensures
            r.0 == self@.epoch,
    {
        self.epoch
    }

    pub fn merged_proof(&self) -> (r: &[u8])
        ensures
            r@ == self@.merged_proof,
    {
        self.merged_proof.as_slice()
    }

    /// The leaf hashes, which are always sorted.
    pub fn leaf_hashes(&self) -> (r: &[FixedHash])
        ensures
            r@ == self@.leaf_hashes,
            sorted_hashes(r@),
    {
        proof {
            use_type_invariant(self);
        }
        self.leaf_hashes.as_slice()
    }

    pub fn signatures(&self) -> (r: &[ValidatorSignature])
        ensures
            r@ == self@.signatures,
    {
        self.signatures.as_slice()
    }

    pub fn view_number(&self) -> (r: u64)
        ensures
            r == self@.view_number,
    {
        self.view_number
    }

    pub fn block_height(&self) -> (r: NodeHeight)
        ensures
            r.0 == self@.block_height,
    {
        self.block_height
    }

    /// Recomputes the identifier from the certificate's content.
    pub fn calculate_id(&self) -> (r: QcId)
        ensures
            r@ == content_id(self@),
    {
        compute_qc_id(
            self.epoch,
            &self.block_id,
            self.block_height,
            self.view_number,
            &self.signatures,
            &self.merged_proof,
            &self.leaf_hashes,
        )
    }

    pub fn block_id(&self) -> (r: &BlockId)
        ensures
            r@ == self@.block_id,
    {
        &self.block_id
    }

    pub fn as_high_qc(&self) -> (r: HighQc)
        ensures
            r.epoch.0 == self@.epoch,
            r.qc_id@ == self@.qc_id,
    {
        HighQc { epoch: self.epoch, qc_id: self.qc_id }
    }

    pub fn as_leaf_block(&self) -> (r: LeafBlock)
        ensures
            r.epoch.0 == self@.epoch,
            r.block_id@ == self@.block_id,
            r.height.0 == self@.block_height,
    {
        LeafBlock { epoch: self.epoch, block_id: self.block_id, height: self.block_height }
    }
}

} // verus!
