use vstd::prelude::*;
use crate::text::{append_decimal, decimal};

verus! {

/// A 32-byte hash as handed to templates.
#[derive(Clone, Copy, Debug, Eq, Hash)]
pub struct Hash(pub [u8; 32]);

impl View for Hash {
    type V = Seq<u8>;

    open spec fn view(&self) -> Seq<u8> {
        self.0@
    }
}

impl PartialEq for Hash {
    fn eq(&self, other: &Self) -> (r: bool) {
        crate::hash::bytes_eq(self.0.as_slice(), other.0.as_slice())
    }
}

impl vstd::std_specs::cmp::PartialEqSpecImpl for Hash {
    open spec fn obeys_eq_spec() -> bool {
        true
    }

    open spec fn eq_spec(&self, other: &Self) -> bool {
        self@ == other@
    }
}

impl Hash {
    pub fn from_array(bytes: [u8; 32]) -> (r: Hash)
        ensures
            r@ == bytes@,
    {
        Hash(bytes)
    }

    pub fn into_array(self) -> (r: [u8; 32])
        ensures
            r@ == self@,
    {
        self.0
    }

    pub fn as_bytes(&self) -> (r: &[u8])
        ensures
            r@ == self@,
    {
        self.0.as_slice()
    }
}

/// The error returned when a byte slice does not have the length that the
/// type it is converted into requires.
#[derive(Debug, PartialEq, Eq, Structural)]
pub struct InvalidByteLengthError {
    pub(crate) size: usize,
    pub(crate) expected: usize,
}

impl InvalidByteLengthError {
    /// The length that was expected.
    pub closed spec fn expected_size(&self) -> usize {
        self.expected
    }

    /// The length that was found.
    pub closed spec fn found_size(&self) -> usize {
        self.size
    }

    pub fn actual_size(&self) -> (r: usize)
        ensures
            r == self.found_size(),
    {
        self.size
    }

    /// A message naming the expected and the found length.
    pub fn to_error_string(&self) -> (r: String)
        ensures
            r@ == length_error_message(self.expected_size() as nat, self.found_size() as nat),
    {
        let mut s = String::from_str("Invalid byte length. Expected ");
        append_decimal(&mut s, self.expected as u64);
        s.append(" bytes, got ");
        append_decimal(&mut s, self.size as u64);
        s
    }

    pub fn expected(&self) -> (r: usize)
        ensures
            r == self.expected_size(),
    {
        self.expected
    }
}

/// The message that describes a length error.
pub open spec fn length_error_message(expected: nat, found: nat) -> Seq<char> {
    "Invalid byte length. Expected "@ + decimal(expected) + " bytes, got "@ + decimal(found)
}

/// Copies a slice of exactly 32 bytes into a fresh array.
pub(crate) fn copy_into_array32(bytes: &[u8]) -> (r: [u8; 32])
    requires
        bytes@.len() == 32,
    ensures
        r@ == bytes@,
{
    let mut out = [0u8; 32];
    let mut i: usize = 0;
    while i < 32
        invariant
            0 <= i <= 32,
            bytes@.len() == 32,
            out@.len() == 32,
            forall|j: int| 0 <= j < i ==> out@[j] == bytes@[j],
        decreases 32 - i,
    {
        out[i] = bytes[i];
        i = i + 1;
    }
    assert(out@ =~= bytes@);
    out
}

/// A compressed Ristretto public key, held as its 32 bytes.
#[derive(Clone, Copy, Debug, Eq, Hash)]
pub struct RistrettoPublicKeyBytes(pub [u8; 32]);

impl View for RistrettoPublicKeyBytes {
    type V = Seq<u8>;

    open spec fn view(&self) -> Seq<u8> {
        self.0@
    }
}

impl PartialEq for RistrettoPublicKeyBytes {
    fn eq(&self, other: &Self) -> (r: bool) {
        crate::hash::bytes_eq(self.0.as_slice(), other.0.as_slice())
    }
}

impl vstd::std_specs::cmp::PartialEqSpecImpl for RistrettoPublicKeyBytes {
    open spec fn obeys_eq_spec() -> bool {
        true
    }

    open spec fn eq_spec(&self, other: &Self) -> bool {
        self@ == other@
    }
}

impl Default for RistrettoPublicKeyBytes {
    fn default() -> (r: RistrettoPublicKeyBytes)
        ensures
            r@ == Seq::new(32, |i: int| 0u8),
    {
        let r = RistrettoPublicKeyBytes([0u8; 32]);
        assert(r@ =~= Seq::new(32, |i: int| 0u8));
        r
    }
}

impl RistrettoPublicKeyBytes {
    pub fn length() -> (r: usize)
        ensures
            r == 32,
    {
        32
    }

    /// Reads a public key from exactly 32 bytes.
    pub fn from_bytes(bytes: &[u8]) -> (r: Result<RistrettoPublicKeyBytes, InvalidByteLengthError>)
        ensures
            bytes@.len() == 32 <==> r is Ok,
            r matches Ok(k) ==> k@ == bytes@,
            r matches Err(e) ==> e.found_size() == bytes@.len() && e.expected_size() == 32,
    {
        if bytes.len() != Self::length() {
            return Err(InvalidByteLengthError { size: bytes.len(), expected: Self::length() });
        }
        Ok(RistrettoPublicKeyBytes(copy_into_array32(bytes)))
    }

    pub fn as_bytes(&self) -> (r: &[u8])
        ensures
            r@ == self@,
    {
        self.0.as_slice()
    }

    pub fn into_array(self) -> (r: [u8; 32])
        ensures
            r@ == self@,
    {
        self.0
    }

    pub fn as_hash(&self) -> (r: Hash)
        ensures
            r@ == self@,
    {
        Hash::from_array(self.0)
    }
}

/// A balance proof signature: a 32-byte public nonce followed by a 32-byte
/// signature scalar.
#[derive(Clone, Copy, Debug, Eq, Hash)]
pub struct BalanceProofSignature(pub [u8; 64]);

impl View for BalanceProofSignature {
    type V = Seq<u8>;

    open spec fn view(&self) -> Seq<u8> {
        self.0@
    }
}

/// Copies `src` into `dst` starting at `offset`.
fn copy_into_at(dst: &mut [u8; 64], offset: usize, src: &[u8])
    requires
        offset + src@.len() <= 64,
    ensures
        final(dst)@.len() == 64,
        forall|j: int| 0 <= j < offset ==> final(dst)@[j] == old(dst)@[j],
        forall|j: int| 0 <= j < src@.len() ==> final(dst)@[offset + j] == src@[j],
        forall|j: int| offset + src@.len() <= j < 64 ==> final(dst)@[j] == old(dst)@[j],
{
    let n = src.len();
    let mut i: usize = 0;
    while i < n
        invariant
            0 <= i <= n,
            n == src@.len(),
            offset + n <= 64,
            dst@.len() == 64,
            forall|j: int| 0 <= j < offset ==> dst@[j] == old(dst)@[j],
            forall|j: int| 0 <= j < i ==> dst@[offset + j] == src@[j],
            forall|j: int| offset + i <= j < 64 ==> dst@[j] == old(dst)@[j],
        decreases n - i,
    {
        dst[offset + i] = src[i];
        i = i + 1;
    }
}

impl PartialEq for BalanceProofSignature {
    fn eq(&self, other: &Self) -> (r: bool) {
        crate::hash::bytes_eq(self.0.as_slice(), other.0.as_slice())
    }
}

impl vstd::std_specs::cmp::PartialEqSpecImpl for BalanceProofSignature {
    open spec fn obeys_eq_spec() -> bool {
        true
    }

    open spec fn eq_spec(&self, other: &Self) -> bool {
        self@ == other@
    }
}

impl BalanceProofSignature {
    pub fn length() -> (r: usize)
        ensures
            r == 64,
    {
        64
    }

    /// Joins a 32-byte public nonce and a 32-byte signature. The nonce's length
    /// is checked first, so an error names the first part of the wrong length.
    pub fn try_from_parts(public_nonce: &[u8], signature: &[u8]) -> (r: Result<
        BalanceProofSignature,
        InvalidByteLengthError,
    >)
        ensures
            (public_nonce@.len() == 32 && signature@.len() == 32) <==> r is Ok,
            r matches Ok(s) ==> s@ == public_nonce@ + signature@,
            r matches Err(e) ==> e.expected_size() == 32 && (if public_nonce@.len() != 32 {
                e.found_size() == public_nonce@.len()
            } else {
                e.found_size() == signature@.len()
            }),
    {
        if public_nonce.len() != 32 {
            return Err(InvalidByteLengthError { size: public_nonce.len(), expected: 32 });
        }
        if signature.len() != 32 {
            return Err(InvalidByteLengthError { size: signature.len(), expected: 32 });
        }
        let mut key = [0u8; 64];
        copy_into_at(&mut key, 0, public_nonce);
        copy_into_at(&mut key, 32, signature);
        assert(key@ =~= public_nonce@ + signature@);
        Ok(BalanceProofSignature(key))
    }

    /// Reads a signature from exactly 64 bytes.
    pub fn from_bytes(bytes: &[u8]) -> (r: Result<BalanceProofSignature, InvalidByteLengthError>)
        ensures
            bytes@.len() == 64 <==> r is Ok,
            r matches Ok(s) ==> s@ == bytes@,
            r matches Err(e) ==> e.found_size() == bytes@.len() && e.expected_size() == 64,
    {
        if bytes.len() != Self::length() {
            return Err(InvalidByteLengthError { size: bytes.len(), expected: Self::length() });
        }
        let mut key = [0u8; 64];
        copy_into_at(&mut key, 0, bytes);
        assert(key@ =~= bytes@);
        Ok(BalanceProofSignature(key))
    }

    /// The first 32 bytes.
    pub fn as_public_nonce(&self) -> (r: &[u8])
        ensures
            r@ == self@.subrange(0, 32),
    {
        vstd::slice::slice_subrange(self.0.as_slice(), 0, 32)
    }

    /// The last 32 bytes.
    pub fn as_signature(&self) -> (r: &[u8])
        ensures
            r@ == self@.subrange(32, 64),
    {
        vstd::slice::slice_subrange(self.0.as_slice(), 32, 64)
    }

    pub fn as_bytes(&self) -> (r: &[u8])
        ensures
            r@ == self@,
    {
        self.0.as_slice()
    }

    pub fn into_array(self) -> (r: [u8; 64])
        ensures
            r@ == self@,
    {
        self.0
    }
}

/// What reading 32 bytes from `bytes` gives: the key with
/// those bytes when the length matches, else the length error.
pub closed spec fn array32_from_bytes(bytes: &[u8]) -> Result<RistrettoPublicKeyBytes, InvalidByteLengthError> {
    if bytes@.len() == 32 {
        Ok(RistrettoPublicKeyBytes(choose|a: [u8; 32]| a@ == bytes@))
    } else {
        Err(InvalidByteLengthError { size: bytes@.len() as usize, expected: 32 })
    }
}

/// What reading 64 bytes from `bytes` gives: the signature with those bytes
/// when the length matches, else the length error.
pub closed spec fn array64_from_bytes(bytes: &[u8]) -> Result<BalanceProofSignature, InvalidByteLengthError> {
    if bytes@.len() == 64 {
        Ok(BalanceProofSignature(choose|a: [u8; 64]| a@ == bytes@))
    } else {
        Err(InvalidByteLengthError { size: bytes@.len() as usize, expected: 64 })
    }
}

impl<'a> TryFrom<&'a [u8]> for RistrettoPublicKeyBytes {
    type Error = InvalidByteLengthError;

    fn try_from(value: &'a [u8]) -> (r: Result<RistrettoPublicKeyBytes, InvalidByteLengthError>) {
        let r = RistrettoPublicKeyBytes::from_bytes(value);
        proof {
            if let Ok(ref k) = r {
                let a = choose|a: [u8; 32]| a@ == value@;
                assert(k.0@ == value@);
                assert(a =~= k.0) by {
                    broadcast use vstd::array::group_array_axioms;
                }
            }
        }
        r
    }
}

impl<'a> vstd::std_specs::convert::TryFromSpecImpl<&'a [u8]> for RistrettoPublicKeyBytes {
    open spec fn obeys_try_from_spec() -> bool {
        true
    }

    open spec fn try_from_spec(v: &'a [u8]) -> Result<RistrettoPublicKeyBytes, InvalidByteLengthError> {
        array32_from_bytes(v)
    }
}

impl<'a> TryFrom<&'a [u8]> for BalanceProofSignature {
    type Error = InvalidByteLengthError;

    fn try_from(value: &'a [u8]) -> (r: Result<BalanceProofSignature, InvalidByteLengthError>) {
        let r = BalanceProofSignature::from_bytes(value);
        proof {
            if let Ok(ref k) = r {
                let a = choose|a: [u8; 64]| a@ == value@;
                assert(k.0@ == value@);
                assert(a =~= k.0) by {
                    broadcast use vstd::array::group_array_axioms;
                }
            }
        }
        r
    }
}

impl<'a> vstd::std_specs::convert::TryFromSpecImpl<&'a [u8]> for BalanceProofSignature {
    open spec fn obeys_try_from_spec() -> bool {
        true
    }

    open spec fn try_from_spec(v: &'a [u8]) -> Result<BalanceProofSignature, InvalidByteLengthError> {
        array64_from_bytes(v)
    }
}

/// Splitting a signature into its public nonce and its signature part gives
/// two parts of 32 bytes that join back into the signature, so
/// `try_from_parts(s.as_public_nonce(), s.as_signature())` gives `s` again.
pub proof fn lemma_signature_parts_rejoin(s: BalanceProofSignature)
    ensures
        s@.subrange(0, 32).len() == 32,
        s@.subrange(32, 64).len() == 32,
        s@.subrange(0, 32) + s@.subrange(32, 64) == s@,
{
    assert(s@.subrange(0, 32) + s@.subrange(32, 64) =~= s@);
}

/// Reading a key back from its own bytes gives the key again, and likewise
/// a signature: `try_from(k.as_bytes())` is `Ok(k)` and
/// `try_from(s.as_bytes())` is `Ok(s)`.
pub proof fn lemma_bytes_round_trip(
    k: RistrettoPublicKeyBytes,
    key_bytes: &[u8],
    s: BalanceProofSignature,
    signature_bytes: &[u8],
)
    requires
        key_bytes@ == k@,
        signature_bytes@ == s@,
    ensures
        array32_from_bytes(key_bytes) == Ok::<RistrettoPublicKeyBytes, InvalidByteLengthError>(k),
        array64_from_bytes(signature_bytes) == Ok::<BalanceProofSignature, InvalidByteLengthError>(s),
{
    let a = choose|a: [u8; 32]| a@ == key_bytes@;
    assert(k.0@ == key_bytes@);
    assert(a =~= k.0) by {
        broadcast use vstd::array::group_array_axioms;
    }
    let b = choose|b: [u8; 64]| b@ == signature_bytes@;
    assert(s.0@ == signature_bytes@);
    assert(b =~= s.0) by {
        broadcast use vstd::array::group_array_axioms;
    }
}

} // verus!
