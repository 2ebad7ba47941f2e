use vstd::prelude::*;

verus! {

/// Number of bytes in an on-chain address.
pub const ADDRESS_LEN: usize = 32;

/// An on-chain address: 32 raw bytes.
#[derive(Clone, Copy, Debug, PartialEq, Eq, Hash)]
pub struct Address {
    pub bytes: [u8; 32],
}

impl View for Address {
    type V = Seq<u8>;

    open spec fn view(&self) -> Seq<u8> {
        self.bytes@
    }
}

/// Lexicographic "less than" on two byte strings, looking at positions `i..`
/// only; a proper prefix orders first.
pub open spec fn bytes_lt_from(a: Seq<u8>, b: Seq<u8>, i: int) -> bool
    decreases a.len() - i,
{
    if i < 0 {
        false
    } else if i >= a.len() || i >= b.len() {
        a.len() < b.len()
    } else if a[i] != b[i] {
        a[i] < b[i]
    } else {
        bytes_lt_from(a, b, i + 1)
    }
}

/// Lexicographic order on byte strings. On strings of one length it is the
/// order of the big-endian integers that they encode.
pub open spec fn bytes_lt(a: Seq<u8>, b: Seq<u8>) -> bool {
    bytes_lt_from(a, b, 0)
}

/// The two byte strings with the lower one first.
pub open spec fn sorted_pair(a: Seq<u8>, b: Seq<u8>) -> (Seq<u8>, Seq<u8>) {
    if bytes_lt(b, a) {
        (b, a)
    } else {
        (a, b)
    }
}

proof fn lemma_bytes_lt_from_asymmetric(a: Seq<u8>, b: Seq<u8>, i: int)
    requires
        0 <= i,
    ensures
        !(bytes_lt_from(a, b, i) && bytes_lt_from(b, a, i)),
    decreases a.len() - i,
{
    if i < a.len() && i < b.len() && a[i] == b[i] {
        lemma_bytes_lt_from_asymmetric(a, b, i + 1);
    }
}

proof fn lemma_bytes_lt_from_total(a: Seq<u8>, b: Seq<u8>, i: int)
    requires
        0 <= i,
        !bytes_lt_from(a, b, i),
        !bytes_lt_from(b, a, i),
    ensures
        a.len() == b.len(),
        forall|j: int| i <= j < a.len() ==> a[j] == b[j],
    decreases a.len() - i,
{
    if i < a.len() && i < b.len() {
        lemma_bytes_lt_from_total(a, b, i + 1);
    }
}

/// The byte order is a strict total order: never both ways, and neither way
/// only between equal strings.
pub proof fn lemma_bytes_lt_trichotomy(a: Seq<u8>, b: Seq<u8>)
    ensures
        !(bytes_lt(a, b) && bytes_lt(b, a)),
        !bytes_lt(a, b) && !bytes_lt(b, a) ==> a == b,
{
    lemma_bytes_lt_from_asymmetric(a, b, 0);
    if !bytes_lt(a, b) && !bytes_lt(b, a) {
        lemma_bytes_lt_from_total(a, b, 0);
        assert(a =~= b);
    }
}

/// Sorting a pair of byte strings does not depend on the order in which the
/// two are given.
pub proof fn lemma_sorted_pair_symmetric(a: Seq<u8>, b: Seq<u8>)
    ensures
        sorted_pair(a, b) == sorted_pair(b, a),
{
    lemma_bytes_lt_trichotomy(a, b);
}

impl Address {
    /// An address made of the given bytes.
    pub fn new(bytes: [u8; 32]) -> (r: Address)
        ensures
            r@ == bytes@,
    {
        Address { bytes }
    }

    /// The raw bytes, as a vector.
    pub fn to_vec(&self) -> (r: Vec<u8>)
        ensures
            r@ == self@,
    {
        let mut v: Vec<u8> = Vec::new();
        let mut i: usize = 0;
        while i < ADDRESS_LEN
            invariant
                i <= ADDRESS_LEN,
                self@.len() == ADDRESS_LEN,
                v@ == self@.take(i as int),
            decreases ADDRESS_LEN - i,
        {
            v.push(self.bytes[i]);
            i = i + 1;
            assert(v@ =~= self@.take(i as int));
        }
        assert(v@ =~= self@);
        v
    }

    /// Whether this address orders strictly before `other`, comparing the raw
    /// bytes as a big-endian integer.
    pub fn is_less_than(&self, other: &Address) -> (r: bool)
        ensures
            r == bytes_lt(self@, other@),
    {
        let mut i: usize = 0;
        while i < ADDRESS_LEN
            invariant
                i <= ADDRESS_LEN,
                self@.len() == ADDRESS_LEN,
                other@.len() == ADDRESS_LEN,
                bytes_lt(self@, other@) == bytes_lt_from(self@, other@, i as int),
            decreases ADDRESS_LEN - i,
        {
            let x = self.bytes[i];
            let y = other.bytes[i];
            if x != y {
                return x < y;
            }
            i = i + 1;
        }
        false
    }
}

/// The two addresses with the lower one first.
pub fn sort_pair(a: Address, b: Address) -> (r: (Address, Address))
    ensures
        (r.0@, r.1@) == sorted_pair(a@, b@),
{
    if b.is_less_than(&a) {
        (b, a)
    } else {
        (a, b)
    }
}

} // verus!
