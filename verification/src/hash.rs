use vstd::prelude::*;

verus! {

/// Lexicographic strict order on byte sequences of equal length: `a` comes
/// before `b` when they agree up to some index `k` and `a[k] < b[k]`.
pub open spec fn lex_lt(a: Seq<u8>, b: Seq<u8>) -> bool {
    exists|k: int|
        0 <= k < a.len() && k < b.len() && a.take(k) == b.take(k) && (#[trigger] a[k]) < b[k]
}

/// Lexicographic non-strict order on byte sequences.
pub open spec fn lex_le(a: Seq<u8>, b: Seq<u8>) -> bool {
    a == b || lex_lt(a, b)
}

/// A 32-byte hash value.
#[derive(Clone, Copy, Debug, Eq, PartialOrd, Ord, Hash)]
pub struct FixedHash(pub [u8; 32]);

impl View for FixedHash {
    type V = Seq<u8>;

    open spec fn view(&self) -> Seq<u8> {
        self.0@
    }
}

/// Whether two byte slices hold the same bytes.
pub fn bytes_eq(a: &[u8], b: &[u8]) -> (r: bool)
    ensures
        r == (a@ == b@),
{
    if a.len() != b.len() {
        return false;
    }
    let n = a.len();
    let mut i: usize = 0;
    while i < n
        invariant
            0 <= i <= n,
            n == a@.len(),
            n == b@.len(),
            forall|j: int| 0 <= j < i ==> a@[j] == b@[j],
        decreases n - i,
    {
        if a[i] != b[i] {
            return false;
        }
        i = i + 1;
    }
    assert(a@ =~= b@);
    true
}

impl PartialEq for FixedHash {
    fn eq(&self, other: &Self) -> (r: bool) {
        crate::hash::bytes_eq(self.0.as_slice(), other.0.as_slice())
    }
}

impl vstd::std_specs::cmp::PartialEqSpecImpl for FixedHash {
    open spec fn obeys_eq_spec() -> bool {
        true
    }

    open spec fn eq_spec(&self, other: &Self) -> bool {
        self@ == other@
    }
}

/// The error returned when bytes of the wrong length are read as a hash.
pub struct FixedHashSizeError {
    pub size: usize,
}

impl FixedHash {
    /// Reads a hash from exactly 32 bytes.
    pub fn try_from_vec(value: Vec<u8>) -> (r: Result<FixedHash, FixedHashSizeError>)
        ensures
            value@.len() == 32 <==> r is Ok,
            r matches Ok(h) ==> h@ == value@,
            r matches Err(e) ==> e.size == value@.len(),
    {
        if value.len() != 32 {
            return Err(FixedHashSizeError { size: value.len() });
        }
        let mut out = [0u8; 32];
        let mut i: usize = 0;
        while i < 32
            invariant
                0 <= i <= 32,
                value@.len() == 32,
                out@.len() == 32,
                forall|j: int| 0 <= j < i ==> out@[j] == value@[j],
            decreases 32 - i,
        {
            out[i] = value[i];
            i = i + 1;
        }
        assert(out@ =~= value@);
        Ok(FixedHash(out))
    }

    /// The hash whose bytes are all zero.
    pub fn zero() -> (r: FixedHash)
        ensures
            r@ == Seq::new(32, |i: int| 0u8),
    {
        let r = FixedHash([0u8; 32]);
        assert(r@ =~= Seq::new(32, |i: int| 0u8));
        r
    }

    pub fn from_array(bytes: [u8; 32]) -> (r: FixedHash)
        ensures
            r@ == bytes@,
    {
        FixedHash(bytes)
    }

    pub fn into_array(self) -> (r: [u8; 32])
        ensures
            r@ == self@,
    {
        self.0
    }

    pub fn as_slice(&self) -> (r: &[u8])
        ensures
            r@ == self@,
    {
        self.0.as_slice()
    }
}

/// Two sequences that agree on their first `k` elements agree on every
/// shorter prefix.
proof fn lemma_take_shorter(a: Seq<u8>, b: Seq<u8>, j: int, k: int)
    requires
        0 <= j <= k <= a.len(),
        k <= b.len(),
        a.take(k) == b.take(k),
    ensures
        a.take(j) == b.take(j),
        forall|i: int| 0 <= i < j ==> a[i] == b[i],
{
    assert forall|i: int| 0 <= i < j implies a[i] == b[i] by {
        assert(a.take(k)[i] == a[i]);
        assert(b.take(k)[i] == b[i]);
    }
    assert(a.take(j) =~= b.take(j));
}

/// No sequence comes strictly before itself.
pub proof fn lemma_lex_lt_irreflexive(a: Seq<u8>)
    ensures
        !lex_lt(a, a),
{
}

/// The lexicographic order is transitive.
pub proof fn lemma_lex_lt_transitive(a: Seq<u8>, b: Seq<u8>, c: Seq<u8>)
    requires
        lex_lt(a, b),
        lex_lt(b, c),
    ensures
        lex_lt(a, c),
{
    let k1 = choose|k: int|
        0 <= k < a.len() && k < b.len() && a.take(k) == b.take(k) && (#[trigger] a[k]) < b[k];
    let k2 = choose|k: int|
        0 <= k < b.len() && k < c.len() && b.take(k) == c.take(k) && (#[trigger] b[k]) < c[k];
    if k1 < k2 {
        lemma_take_shorter(b, c, k1, k2);
        assert(b.take(k2)[k1] == b[k1]);
        assert(c.take(k2)[k1] == c[k1]);
        assert(a.take(k1) == c.take(k1));
        assert(a[k1] < c[k1]);
    } else if k2 < k1 {
        lemma_take_shorter(a, b, k2, k1);
        assert(a.take(k1)[k2] == a[k2]);
        assert(b.take(k1)[k2] == b[k2]);
        assert(a.take(k2) == c.take(k2));
        assert(a[k2] < c[k2]);
    } else {
        assert(a.take(k1) == c.take(k1));
        assert(a[k1] < c[k1]);
    }
}

/// The lexicographic order is asymmetric.
pub proof fn lemma_lex_lt_asymmetric(a: Seq<u8>, b: Seq<u8>)
    requires
        lex_lt(a, b),
    ensures
        !lex_lt(b, a),
{
    if lex_lt(b, a) {
        lemma_lex_lt_transitive(a, b, a);
    }
}

proof fn lemma_lex_total_from(a: Seq<u8>, b: Seq<u8>, i: int)
    requires
        a.len() == b.len(),
        0 <= i <= a.len(),
        a.take(i) == b.take(i),
        a != b,
    ensures
        lex_lt(a, b) || lex_lt(b, a),
    decreases a.len() - i,
{
    if i == a.len() {
        assert(a =~= a.take(i));
        assert(b =~= b.take(i));
    } else if a[i] != b[i] {
        if a[i] < b[i] {
            assert(lex_lt(a, b));
        } else {
            assert(lex_lt(b, a));
        }
    } else {
        assert(a.take(i + 1) =~= b.take(i + 1)) by {
            assert forall|j: int| 0 <= j < i + 1 implies #[trigger] a.take(i + 1)[j] == b.take(i + 1)[j] by {
                if j < i {
                    assert(a.take(i)[j] == b.take(i)[j]);
                }
            }
        }
        lemma_lex_total_from(a, b, i + 1);
    }
}

/// Two distinct sequences of equal length are ordered one way or the other.
pub proof fn lemma_lex_lt_total(a: Seq<u8>, b: Seq<u8>)
    requires
        a.len() == b.len(),
        a != b,
    ensures
        lex_lt(a, b) || lex_lt(b, a),
{
    assert(a.take(0) =~= b.take(0));
    lemma_lex_total_from(a, b, 0);
}

/// The order compares bytes as unsigned numbers at the first position where
/// two hashes differ: if `a` and `b` agree before position `k` and the byte of
/// `a` there is the smaller one, then `a` comes strictly before `b`, `b` does
/// not come before `a`, and in every sorted list that holds both, `a` stands
/// before `b`.
pub proof fn lemma_hash_order_first_difference(a: FixedHash, b: FixedHash, k: int, s: Seq<FixedHash>)
    requires
        0 <= k < 32,
        forall|i: int| 0 <= i < k ==> a@[i] == b@[i],
        (a@[k] as int) < (b@[k] as int),
    ensures
        lex_lt(a@, b@),
        !lex_lt(b@, a@),
        !lex_le(b@, a@),
        sorted_hashes(s) ==> forall|i: int, j: int|
            0 <= i < s.len() && 0 <= j < s.len() && s[i] == a && s[j] == b ==> i < j,
{
    assert(a@.len() == 32 && b@.len() == 32);
    assert(a@.take(k) =~= b@.take(k));
    assert(lex_lt(a@, b@));
    lemma_lex_lt_asymmetric(a@, b@);
    assert(a@ != b@);
    if sorted_hashes(s) {
        assert forall|i: int, j: int|
            0 <= i < s.len() && 0 <= j < s.len() && s[i] == a && s[j] == b implies i < j by {
            if j < i {
                assert(lex_le(s[j]@, s[i]@));
            } else if i == j {
                assert(a@ == b@);
            }
        }
    }
}

/// Whether `a` comes strictly before `b` in the byte-wise order.
pub fn hash_lt(a: &FixedHash, b: &FixedHash) -> (r: bool)
    ensures
        r == lex_lt(a@, b@),
{
    let mut i: usize = 0;
    while i < 32
        invariant
            0 <= i <= 32,
            a@.len() == 32,
            b@.len() == 32,
            a@.take(i as int) == b@.take(i as int),
        decreases 32 - i,
    {
        if a.0[i] != b.0[i] {
            if a.0[i] < b.0[i] {
                assert(lex_lt(a@, b@));
                return true;
            } else {
                proof {
                    if lex_lt(a@, b@) {
                        let k = choose|k: int|
                            0 <= k < a@.len() && k < b@.len() && a@.take(k) == b@.take(k)
                                && (#[trigger] a@[k]) < b@[k];
                        if k < i {
                            lemma_take_shorter(a@, b@, k + 1, i as int);
                        } else if k > i {
                            lemma_take_shorter(a@, b@, i as int + 1, k);
                        }
                    }
                }
                return false;
            }
        }
        assert(a@.take(i + 1) =~= b@.take(i + 1)) by {
            assert forall|j: int| 0 <= j < i + 1 implies #[trigger] a@.take(i + 1)[j] == b@.take(i + 1)[j] by {
                if j < i {
                    assert(a@.take(i as int)[j] == b@.take(i as int)[j]);
                }
            }
        }
        i = i + 1;
    }
    assert(a@ =~= a@.take(32));
    assert(b@ =~= b@.take(32));
    false
}

/// The hashes' bytes are in non-decreasing byte-wise order.
pub open spec fn sorted_hashes(s: Seq<FixedHash>) -> bool {
    forall|i: int, j: int| 0 <= i < j < s.len() ==> lex_le(#[trigger] s[i]@, #[trigger] s[j]@)
}

/// Two hashes whose bytes are ordered both ways are the same hash.
pub proof fn lemma_lex_le_antisymmetric(a: FixedHash, b: FixedHash)
    requires
        lex_le(a@, b@),
        lex_le(b@, a@),
    ensures
        a == b,
{
    if a@ != b@ {
        lemma_lex_lt_asymmetric(a@, b@);
    }
    assert(a.0 =~= b.0) by {
        broadcast use vstd::array::group_array_axioms;
    }
}

/// Two sorted lists that hold the same hashes, each as often, are equal: the
/// sorted order of a collection of hashes is unique.
pub proof fn lemma_sorted_unique(s1: Seq<FixedHash>, s2: Seq<FixedHash>)
    requires
        sorted_hashes(s1),
        sorted_hashes(s2),
        s1.to_multiset() == s2.to_multiset(),
    ensures
        s1 == s2,
    decreases s1.len(),
{
    s1.to_multiset_ensures();
    s2.to_multiset_ensures();
    if s1.len() == 0 {
        assert(s1 =~= s2);
    } else {
        let x = s1[0];
        let y = s2[0];
        assert(s1.contains(x));
        assert(s2.to_multiset().count(x) > 0);
        assert(s2.contains(x));
        let j = choose|j: int| 0 <= j < s2.len() && s2[j] == x;
        if j > 0 {
            assert(lex_le(s2[0]@, s2[j]@));
        }
        assert(lex_le(y@, x@));
        assert(s2.contains(y));
        assert(s1.to_multiset().count(y) > 0);
        assert(s1.contains(y));
        let k = choose|k: int| 0 <= k < s1.len() && s1[k] == y;
        if k > 0 {
            assert(lex_le(s1[0]@, s1[k]@));
        }
        assert(lex_le(x@, y@));
        lemma_lex_le_antisymmetric(x, y);
        let t1 = s1.remove(0);
        let t2 = s2.remove(0);
        assert(t1.to_multiset() == t2.to_multiset());
        assert(sorted_hashes(t1)) by {
            assert forall|a: int, b: int| 0 <= a < b < t1.len() implies lex_le(
                #[trigger] t1[a]@,
                #[trigger] t1[b]@,
            ) by {
                assert(t1[a] == s1[a + 1]);
                assert(t1[b] == s1[b + 1]);
            }
        }
        assert(sorted_hashes(t2)) by {
            assert forall|a: int, b: int| 0 <= a < b < t2.len() implies lex_le(
                #[trigger] t2[a]@,
                #[trigger] t2[b]@,
            ) by {
                assert(t2[a] == s2[a + 1]);
                assert(t2[b] == s2[b + 1]);
            }
        }
        lemma_sorted_unique(t1, t2);
        assert(s1 =~= s2) by {
            assert forall|i: int| 0 <= i < s1.len() implies s1[i] == s2[i] by {
                if i > 0 {
                    assert(s1[i] == t1[i - 1]);
                    assert(s2[i] == t2[i - 1]);
                }
            }
        }
    }
}

/// Sorts hashes in byte-wise order; the result holds the same hashes, each
/// as often as the input does.
pub fn sort_hashes(v: Vec<FixedHash>) -> (r: Vec<FixedHash>)
    ensures
        sorted_hashes(r@),
        r@.to_multiset() == v@.to_multiset(),
{
    let mut out: Vec<FixedHash> = Vec::new();
    let n = v.len();
    let mut i: usize = 0;
    assert(out@ =~= v@.take(0));
    while i < n
        invariant
            0 <= i <= n,
            n == v@.len(),
            sorted_hashes(out@),
            out@.to_multiset() == v@.take(i as int).to_multiset(),
            forall|j: int| 0 <= j < out@.len() ==> (#[trigger] out@[j])@.len() == 32,
        decreases n - i,
    {
        let x = v[i];
        // First position whose hash comes strictly after `x`.
        let mut p: usize = 0;
        while p < out.len() && !hash_lt(&x, &out[p])
            invariant
                0 <= p <= out@.len(),
                forall|j: int| 0 <= j < p ==> !lex_lt(x@, #[trigger] out@[j]@),
            decreases out@.len() - p,
        {
            p = p + 1;
        }
        let ghost old_out = out@;
        proof {
            assert forall|j: int| 0 <= j < p implies lex_le(#[trigger] old_out[j]@, x@) by {
                if old_out[j]@ != x@ {
                    lemma_lex_lt_total(old_out[j]@, x@);
                }
            }
            assert forall|j: int| p <= j < old_out.len() implies lex_lt(x@, #[trigger] old_out[j]@) by {
                if j > p {
                    assert(lex_le(old_out[p as int]@, old_out[j]@));
                    if old_out[p as int]@ != old_out[j]@ {
                        lemma_lex_lt_transitive(x@, old_out[p as int]@, old_out[j]@);
                    }
                }
            }
        }
        out.insert(p, x);
        proof {
            old_out.insert_ensures(p as int, x);
            assert forall|a: int, b: int| 0 <= a < b < out@.len() implies lex_le(
                #[trigger] out@[a]@,
                #[trigger] out@[b]@,
            ) by {
                if a < p && b < p {
                } else if a < p && b == p {
                } else if a < p && b > p {
                    assert(out@[b] == old_out[b - 1]);
                    assert(lex_le(old_out[a]@, old_out[b - 1]@));
                } else if a == p {
                    assert(out@[b] == old_out[b - 1]);
                } else {
                    assert(out@[a] == old_out[a - 1]);
                    assert(out@[b] == old_out[b - 1]);
                }
            }
            vstd::seq_lib::to_multiset_insert(old_out, p as int, x);
            assert(v@.take(i as int + 1) =~= v@.take(i as int).push(x));
            v@.take(i as int).to_multiset_ensures();
        }
        i = i + 1;
    }
    assert(v@.take(n as int) =~= v@);
    out
}

} // verus!
