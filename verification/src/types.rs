use vstd::prelude::*;
use crate::hash::FixedHash;

verus! {

/// Whether every byte is zero.
pub open spec fn all_zero(s: Seq<u8>) -> bool {
    forall|i: int| 0 <= i < s.len() ==> s[i] == 0
}

/// Only the identifier whose bytes are all zero is the genesis identifier:
/// an identifier with a non-zero byte at any position is not, and the one
/// with every byte zero is.
pub proof fn lemma_genesis_exactly_all_zero_bytes(s: Seq<u8>, k: int)
    requires
        s.len() == 32,
    ensures
        0 <= k < 32 && s[k] != 0 ==> !all_zero(s),
        s == Seq::new(32, |i: int| 0u8) ==> all_zero(s),
        all_zero(s) ==> s == Seq::new(32, |i: int| 0u8),
{
    if all_zero(s) {
        assert(s =~= Seq::new(32, |i: int| 0u8));
    }
}

/// Whether every byte of the hash is zero.
pub fn hash_is_zero(h: &FixedHash) -> (r: bool)
    ensures
        r == all_zero(h@),
{
    let mut i: usize = 0;
    while i < 32
        invariant
            0 <= i <= 32,
            h@.len() == 32,
            forall|j: int| 0 <= j < i ==> h@[j] == 0,
        decreases 32 - i,
    {
        if h.0[i] != 0 {
            return false;
        }
        i = i + 1;
    }
    true
}

/// A consensus epoch number.
#[derive(Clone, Copy, Debug, PartialEq, Eq, Structural)]
pub struct Epoch(pub u64);

impl Epoch {
    pub fn as_u64(&self) -> (r: u64)
        ensures
            r == self.0,
    {
        self.0
    }
}

/// The height of a node (block) in the consensus chain.
#[derive(Clone, Copy, Debug, PartialEq, Eq, Structural)]
pub struct NodeHeight(pub u64);

impl NodeHeight {
    pub fn zero() -> (r: NodeHeight)
        ensures
            r.0 == 0,
    {
        NodeHeight(0)
    }

    pub fn as_u64(&self) -> (r: u64)
        ensures
            r == self.0,
    {
        self.0
    }
}

/// The identifier of a block: its 32-byte hash.
#[derive(Clone, Copy, Debug, Eq)]
pub struct BlockId(pub FixedHash);

impl View for BlockId {
    type V = Seq<u8>;

    open spec fn view(&self) -> Seq<u8> {
        self.0@
    }
}

impl PartialEq for BlockId {
    fn eq(&self, other: &Self) -> (r: bool) {
        crate::hash::bytes_eq(self.0.as_slice(), other.0.as_slice())
    }
}

impl vstd::std_specs::cmp::PartialEqSpecImpl for BlockId {
    open spec fn obeys_eq_spec() -> bool {
        true
    }

    open spec fn eq_spec(&self, other: &Self) -> bool {
        self@ == other@
    }
}

impl BlockId {
    /// The identifier of the genesis block: all zero bytes.
    pub fn genesis() -> (r: BlockId)
        ensures
            r@ == Seq::new(32, |i: int| 0u8),
            all_zero(r@),
    {
        BlockId(FixedHash::zero())
    }

    pub fn new(hash: FixedHash) -> (r: BlockId)
        ensures
            r@ == hash@,
    {
        BlockId(hash)
    }

    pub fn hash(&self) -> (r: &FixedHash)
        ensures
            r@ == self@,
    {
        &self.0
    }

    pub fn as_bytes(&self) -> (r: &[u8])
        ensures
            r@ == self@,
    {
        self.0.as_slice()
    }

    pub fn is_genesis(&self) -> (r: bool)
        ensures
            r == all_zero(self@),
    {
        hash_is_zero(&self.0)
    }
}

} // verus!
