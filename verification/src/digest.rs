use vstd::prelude::*;
use vstd::bytes::{spec_u64_to_le_bytes, u64_to_le_bytes};

verus! {

/// The 32-byte BLAKE2b digest of `data`.
pub uninterp spec fn blake2b_256(data: Seq<u8>) -> Seq<u8>;

/// Calls `Blake2b<U32>::digest` of the `blake2` crate. The contract claims
/// only that the result is the BLAKE2b-256 digest of the input, which is a
/// function of the input bytes alone; its 32-byte length follows from the
/// result type.
#[verifier::external_body]
pub(crate) fn blake2b_256_digest(data: &[u8]) -> (r: [u8; 32])
    ensures
        r@ == blake2b_256(data@),
{
    <blake2::Blake2b<blake2::digest::consts::U32> as blake2::Digest>::digest(data).into()
}

/// The eight little-endian bytes of `x`.
pub open spec fn le64(x: u64) -> Seq<u8> {
    spec_u64_to_le_bytes(x)
}

/// `data` preceded by its length as eight little-endian bytes.
pub open spec fn frame(data: Seq<u8>) -> Seq<u8> {
    le64(data.len() as u64) + data
}

/// Appends the bytes of `data` to `out`.
pub fn append_bytes(out: &mut Vec<u8>, data: &[u8])
    ensures
        final(out)@ == old(out)@ + data@,
{
    let n = data.len();
    let mut i: usize = 0;
    while i < n
        invariant
            0 <= i <= n,
            n == data@.len(),
            out@ == old(out)@ + data@.take(i as int),
        decreases n - i,
    {
        out.push(data[i]);
        assert(data@.take(i as int + 1) =~= data@.take(i as int).push(data@[i as int]));
        i = i + 1;
    }
    assert(data@.take(n as int) =~= data@);
}

/// Appends `x` as eight little-endian bytes.
pub fn append_le64(out: &mut Vec<u8>, x: u64)
    ensures
        final(out)@ == old(out)@ + le64(x),
{
    let b = u64_to_le_bytes(x);
    append_bytes(out, b.as_slice());
}

/// Appends `data` preceded by its length.
pub fn append_frame(out: &mut Vec<u8>, data: &[u8])
    ensures
        final(out)@ == old(out)@ + frame(data@),
{
    append_le64(out, data.len() as u64);
    append_bytes(out, data);
    assert(final(out)@ =~= old(out)@ + frame(data@));
}

} // verus!
