//! Feature bit vectors and the two encodings the backends report them in:
//! a list of feature indices, and a packed big-endian buffer.
use vstd::prelude::*;

verus! {

/// Whether bit `j` (least significant first) of byte `b` is set.
pub open spec fn byte_has_bit(b: u8, j: u8) -> bool {
    (b >> j) & 1u8 == 1u8
}

/// The byte at position `k`, reading past either end as zero.
pub open spec fn byte_at(s: Seq<u8>, k: int) -> u8 {
    if 0 <= k < s.len() {
        s[k]
    } else {
        0u8
    }
}

/// Bit `i` of a little-endian buffer: byte `i / 8`, bit `i % 8` of that byte.
pub open spec fn le_bit(flags: Seq<u8>, i: nat) -> bool {
    byte_has_bit(byte_at(flags, (i / 8) as int), (i % 8) as u8)
}

/// Bit `i` of a big-endian buffer: the last byte holds bits 0 to 7.
pub open spec fn be_bit(bytes: Seq<u8>, i: nat) -> bool {
    byte_has_bit(byte_at(bytes, bytes.len() - 1 - (i / 8) as int), (i % 8) as u8)
}

/// The feature indices set in a little-endian buffer.
pub open spec fn le_bits(flags: Seq<u8>) -> Set<nat> {
    Set::new(|i: nat| le_bit(flags, i))
}

/// The feature indices set in a big-endian buffer.
pub open spec fn be_bits(bytes: Seq<u8>) -> Set<nat> {
    Set::new(|i: nat| be_bit(bytes, i))
}

/// The feature indices listed in `indices`.
pub open spec fn index_set(indices: Seq<u32>) -> Set<nat> {
    Set::new(|i: nat| exists|m: int| 0 <= m < indices.len() && indices[m] as nat == i)
}

/// `len` is the smallest byte count whose bits cover every listed index.
pub open spec fn is_covering_len(indices: Seq<u32>, len: nat) -> bool {
    &&& (len == 0 <==> indices.len() == 0)
    &&& forall|m: int| 0 <= m < indices.len() ==> (#[trigger] indices[m] / 8) < len
    &&& indices.len() > 0 ==> exists|m: int| 0 <= m < indices.len() && (#[trigger] indices[m]) / 8 == len - 1
}

/// A set of supported protocol features, held as a little-endian bit buffer
/// (bit `i` is bit `i % 8` of byte `i / 8`).
#[derive(Clone, Debug)]
pub struct FeatureVector {
    pub flags: Vec<u8>,
}

impl View for FeatureVector {
    type V = Seq<u8>;

    open spec fn view(&self) -> Seq<u8> {
        self.flags@
    }
}

proof fn lemma_byte_bits(b: u8, j: u8, m: u8)
    requires
        j < 8,
        m < 8,
    ensures
        byte_has_bit(b | (1u8 << m), j) == (byte_has_bit(b, j) || j == m),
        !byte_has_bit(0u8, j),
{
    assert(((b | (1u8 << m)) >> j) & 1u8 == 1u8 <==> (((b >> j) & 1u8 == 1u8) || j == m))
        by (bit_vector)
        requires
            j < 8,
            m < 8,
    ;
    assert((0u8 >> j) & 1u8 != 1u8) by (bit_vector);
}

proof fn lemma_bytes_differ(x: u8, y: u8) -> (j: u8)
    requires
        x != y,
    ensures
        j < 8,
        byte_has_bit(x, j) != byte_has_bit(y, j),
{
    assert(x != y ==> ((x >> 0u8) & 1u8 != (y >> 0u8) & 1u8 || (x >> 1u8) & 1u8 != (y >> 1u8) & 1u8
        || (x >> 2u8) & 1u8 != (y >> 2u8) & 1u8 || (x >> 3u8) & 1u8 != (y >> 3u8) & 1u8 || (x >> 4u8)
        & 1u8 != (y >> 4u8) & 1u8 || (x >> 5u8) & 1u8 != (y >> 5u8) & 1u8 || (x >> 6u8) & 1u8 != (y
        >> 6u8) & 1u8 || (x >> 7u8) & 1u8 != (y >> 7u8) & 1u8)) by (bit_vector);
    assert(forall|j: u8| ((x >> j) & 1u8 == 1u8) <==> ((x >> j) & 1u8 != 0u8)) by (bit_vector);
    assert(forall|j: u8| ((y >> j) & 1u8 == 1u8) <==> ((y >> j) & 1u8 != 0u8)) by (bit_vector);
    assert(forall|j: u8| (x >> j) & 1u8 <= 1u8) by (bit_vector);
    assert(forall|j: u8| (y >> j) & 1u8 <= 1u8) by (bit_vector);
    if (x >> 0u8) & 1u8 != (y >> 0u8) & 1u8 {
        0u8
    } else if (x >> 1u8) & 1u8 != (y >> 1u8) & 1u8 {
        1u8
    } else if (x >> 2u8) & 1u8 != (y >> 2u8) & 1u8 {
        2u8
    } else if (x >> 3u8) & 1u8 != (y >> 3u8) & 1u8 {
        3u8
    } else if (x >> 4u8) & 1u8 != (y >> 4u8) & 1u8 {
        4u8
    } else if (x >> 5u8) & 1u8 != (y >> 5u8) & 1u8 {
        5u8
    } else if (x >> 6u8) & 1u8 != (y >> 6u8) & 1u8 {
        6u8
    } else {
        7u8
    }
}

/// Bit `8 * k + j` is bit `j` of byte `k`.
proof fn lemma_bit_position(k: nat, j: nat)
    requires
        j < 8,
    ensures
        (8 * k + j) / 8 == k,
        (8 * k + j) % 8 == j,
{
    assert((8 * k + j) / 8 == k && (8 * k + j) % 8 == j) by (nonlinear_arith)
        requires
            j < 8,
    ;
}

/// Setting bit `f` of a buffer adds `f` to its bit set and nothing else.
proof fn lemma_set_bit(old: Seq<u8>, new: Seq<u8>, k: int, shift: u8, f: nat)
    requires
        f / 8 == k,
        f % 8 == shift as nat,
        0 <= k < old.len(),
        new == old.update(k, old[k] | (1u8 << shift)),
    ensures
        forall|i: nat| #[trigger] le_bit(new, i) == (le_bit(old, i) || i == f),
{
    assert forall|i: nat| #[trigger] le_bit(new, i) == (le_bit(old, i) || i == f) by {
        let j = (i % 8) as u8;
        lemma_byte_bits(old[k], j, shift);
        if (i / 8) as int == k {
            assert(byte_at(new, k) == old[k] | (1u8 << shift));
            assert(byte_at(old, k) == old[k]);
            if j == shift {
                assert(i == 8 * (i / 8) + i % 8);
                assert(f == 8 * (f / 8) + f % 8);
                assert(i == f);
            } else {
                assert(i != f);
            }
        } else {
            assert(i != f);
            assert(byte_at(new, (i / 8) as int) == byte_at(old, (i / 8) as int));
        }
    }
}

/// A byte position of one buffer that differs from another's makes their
/// bit sets differ.
proof fn lemma_differing_byte(a: Seq<u8>, b: Seq<u8>, k: nat)
    requires
        byte_at(a, k as int) != byte_at(b, k as int),
    ensures
        le_bits(a) != le_bits(b),
{
    let j = lemma_bytes_differ(byte_at(a, k as int), byte_at(b, k as int));
    let i: nat = 8 * k + j as nat;
    lemma_bit_position(k, j as nat);
    assert(le_bit(a, i) != le_bit(b, i));
    assert(le_bits(a).contains(i) != le_bits(b).contains(i));
}

/// Bit `i` of a buffer read big-endian is bit `i` of the reversed buffer
/// read little-endian.
proof fn lemma_reverse_bits(bytes: Seq<u8>)
    ensures
        le_bits(bytes.reverse()) == be_bits(bytes),
{
    let r = bytes.reverse();
    assert forall|i: nat| le_bit(r, i) == be_bit(bytes, i) by {
        let k = (i / 8) as int;
        if k < bytes.len() {
            assert(byte_at(r, k) == byte_at(bytes, bytes.len() - 1 - k));
        } else {
            assert(byte_at(r, k) == 0u8);
            assert(byte_at(bytes, bytes.len() - 1 - k) == 0u8);
        }
    }
    assert(le_bits(r) =~= be_bits(bytes));
}

impl FeatureVector {
    /// The indices of the features this vector holds.
    pub open spec fn bits(&self) -> Set<nat> {
        le_bits(self@)
    }

    /// A vector with no feature set, for a backend that reports no feature data.
    pub fn empty() -> (r: FeatureVector)
        ensures
            r@ == Seq::<u8>::empty(),
            r.bits() == Set::<nat>::empty(),
    {
        let r = FeatureVector { flags: Vec::new() };
        proof {
            assert forall|i: nat| !le_bit(r@, i) by {
                lemma_byte_bits(0u8, (i % 8) as u8, 0u8);
            }
            assert(r.bits() =~= Set::<nat>::empty());
        }
        r
    }

    /// A vector over a little-endian buffer, taken as it is.
    pub fn from_le_bytes(flags: Vec<u8>) -> (r: FeatureVector)
        ensures
            r@ == flags@,
    {
        FeatureVector { flags }
    }

    /// A vector over a big-endian buffer, as one backend packs its features:
    /// the bytes are put in little-endian order.
    pub fn from_be_bytes(bytes: Vec<u8>) -> (r: FeatureVector)
        ensures
            r@ == bytes@.reverse(),
            r.bits() == be_bits(bytes@),
    {
        let n = bytes.len();
        let mut flags: Vec<u8> = Vec::with_capacity(n);
        let mut k: usize = 0;
        while k < n
            invariant
                n == bytes@.len(),
                k <= n,
                flags@.len() == k,
                forall|m: int| 0 <= m < k ==> flags@[m] == bytes@[n - 1 - m],
            decreases n - k,
        {
            flags.push(bytes[n - 1 - k]);
            k = k + 1;
        }
        proof {
            assert(flags@ =~= bytes@.reverse());
            lemma_reverse_bits(bytes@);
        }
        FeatureVector { flags }
    }

    /// The vector holding exactly the listed feature indices, in the smallest
    /// buffer that covers the largest of them.
    pub fn from_index_set(indices: &Vec<u32>) -> (r: FeatureVector)
        ensures
            r.bits() == index_set(indices@),
            forall|i: nat| r.has_bit(i) <==> index_set(indices@).contains(i),
            is_covering_len(indices@, r@.len()),
    {
        let n = indices.len();
        let mut len: usize = 0;
        let mut m: usize = 0;
        while m < n
            invariant
                n == indices@.len(),
                m <= n,
                len <= 0x2000_0000,
                len == 0 <==> m == 0,
                forall|q: int| 0 <= q < m ==> (#[trigger] indices@[q] / 8) < len,
                m > 0 ==> exists|q: int| 0 <= q < m && (#[trigger] indices@[q]) / 8 == len - 1,
            decreases n - m,
        {
            let need = (indices[m] / 8) as usize + 1;
            if need > len {
                len = need;
            }
            m = m + 1;
        }
        let mut flags: Vec<u8> = vec![0u8; len];
        proof {
            assert forall|i: nat| !le_bit(flags@, i) by {
                lemma_byte_bits(0u8, (i % 8) as u8, 0u8);
            }
        }
        let mut m: usize = 0;
        while m < n
            invariant
                n == indices@.len(),
                m <= n,
                flags@.len() == len,
                forall|q: int| 0 <= q < n ==> (#[trigger] indices@[q] / 8) < len,
                forall|i: nat|
                    le_bit(flags@, i) <==> exists|q: int| 0 <= q < m && indices@[q] as nat == i,
            decreases n - m,
        {
            let f = indices[m];
            let k = (f / 8) as usize;
            let shift = (f % 8) as u8;
            let old_flags = Ghost(flags@);
            flags.set(k, flags[k] | (1u8 << shift));
            proof {
                lemma_set_bit(old_flags@, flags@, k as int, shift, f as nat);
                assert forall|i: nat|
                    le_bit(flags@, i) <==> exists|q: int|
                        0 <= q < m + 1 && indices@[q] as nat == i by {
                    if exists|q: int| 0 <= q < m + 1 && indices@[q] as nat == i {
                        let q = choose|q: int| 0 <= q < m + 1 && indices@[q] as nat == i;
                        if q < m {
                            assert(exists|q: int| 0 <= q < m && indices@[q] as nat == i);
                        }
                    }
                    if exists|q: int| 0 <= q < m && indices@[q] as nat == i {
                        let q = choose|q: int| 0 <= q < m && indices@[q] as nat == i;
                        assert(0 <= q < m + 1 && indices@[q] as nat == i);
                    }
                    if i == f as nat {
                        assert(0 <= m < m + 1 && indices@[m as int] as nat == i);
                    }
                }
            }
            m = m + 1;
        }
        let r = FeatureVector { flags };
        proof {
            assert(r.bits() =~= index_set(indices@));
        }
        r
    }

    /// Whether the feature at `index` is set (spec form).
    pub open spec fn has_bit(&self, index: nat) -> bool {
        self.bits().contains(index)
    }

    /// Whether the feature at `index` is set.
    pub fn contains(&self, index: u32) -> (r: bool)
        ensures
            r == self.has_bit(index as nat),
    {
        let k = (index / 8) as usize;
        if k < self.flags.len() {
            let shift = (index % 8) as u8;
            let b = self.flags[k];
            (b >> shift) & 1u8 == 1u8
        } else {
            proof {
                lemma_byte_bits(0u8, (index % 8) as u8, 0u8);
            }
            false
        }
    }

    /// The little-endian buffer.
    pub fn le_flags(&self) -> (r: &Vec<u8>)
        ensures
            r@ == self@,
    {
        &self.flags
    }

    /// Whether both vectors hold the same features; trailing zero bytes do
    /// not count.
    pub fn same_features(&self, other: &FeatureVector) -> (r: bool)
        ensures
            r == (self.bits() == other.bits()),
    {
        let la = self.flags.len();
        let lb = other.flags.len();
        let top = if la > lb {
            la
        } else {
            lb
        };
        let mut k: usize = 0;
        while k < top
            invariant
                la == self@.len(),
                lb == other@.len(),
                top >= la && top >= lb,
                k <= top,
                forall|q: int| 0 <= q < k ==> byte_at(self@, q) == byte_at(other@, q),
            decreases top - k,
        {
            let x = if k < la {
                self.flags[k]
            } else {
                0u8
            };
            let y = if k < lb {
                other.flags[k]
            } else {
                0u8
            };
            if x != y {
                proof {
                    lemma_differing_byte(self@, other@, k as nat);
                }
                return false;
            }
            k = k + 1;
        }
        proof {
            assert forall|i: nat| le_bit(self@, i) == le_bit(other@, i) by {
                let q = (i / 8) as int;
                if q < top {
                    assert(byte_at(self@, q) == byte_at(other@, q));
                }
            }
            assert(self.bits() =~= other.bits());
        }
        true
    }
}

impl PartialEq for FeatureVector {
    fn eq(&self, other: &FeatureVector) -> (r: bool) {
        self.same_features(other)
    }
}

impl vstd::std_specs::cmp::PartialEqSpecImpl for FeatureVector {
    open spec fn obeys_eq_spec() -> bool {
        true
    }

    open spec fn eq_spec(&self, other: &FeatureVector) -> bool {
        self.bits() == other.bits()
    }
}

/// Both encodings of one logical feature set give equal vectors: the
/// vector built from an index list equals the one read from a big-endian
/// buffer whose bits are exactly those indices.
pub proof fn lemma_encodings_agree(indices: Seq<u32>, bytes: Seq<u8>)
    requires
        be_bits(bytes) == index_set(indices),
    ensures
        le_bits(bytes.reverse()) == index_set(indices),
{
    lemma_reverse_bits(bytes);
}

} // verus!
