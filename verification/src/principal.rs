//! Principal identifiers and their canonical order.

use vstd::prelude::*;
use vstd::std_specs::cmp::PartialEqSpecImpl;

verus! {

/// A principal: an owner, a peer or a delegate, named by 32 bytes.
#[derive(Clone, Copy, Debug)]
pub struct Principal {
    pub bytes: [u8; 32],
}

impl View for Principal {
    type V = Seq<u8>;

    open spec fn view(&self) -> Seq<u8> {
        self.bytes@
    }
}

/// Of two byte strings of one length, `a` comes strictly before `b`: at the first index
/// where they differ, `a` holds the smaller byte.
pub open spec fn lex_lt(a: Seq<u8>, b: Seq<u8>) -> bool {
    exists|i: int| diverges_below(a, b, i)
}

/// `a` and `b` agree before index `i`, and there `a` holds the smaller byte.
pub open spec fn diverges_below(a: Seq<u8>, b: Seq<u8>, i: int) -> bool {
    &&& 0 <= i < a.len()
    &&& i < b.len()
    &&& a[i] < b[i]
    &&& forall|j: int| 0 <= j < i ==> a[j] == b[j]
}

/// The order of identifiers, which are byte strings of one length: byte by byte, the
/// first difference decides.
pub open spec fn lex_le(a: Seq<u8>, b: Seq<u8>) -> bool {
    a == b || lex_lt(a, b)
}

/// Thirty-two zero bytes.
pub open spec fn zero_bytes() -> [u8; 32] {
    vstd::array::spec_array_fill_for_copy_type::<u8, 32>(0u8)
}

/// The pair `(a, b)` with its smaller element first.
pub open spec fn spec_sort_pair(a: Principal, b: Principal) -> (Principal, Principal) {
    if lex_le(a@, b@) {
        (a, b)
    } else {
        (b, a)
    }
}

impl PartialEqSpecImpl for Principal {
    open spec fn obeys_eq_spec() -> bool {
        true
    }

    open spec fn eq_spec(&self, other: &Principal) -> bool {
        *self == *other
    }
}

impl PartialEq for Principal {
    fn eq(&self, other: &Principal) -> (r: bool) {
        let mut i: usize = 0;
        while i < 32
            invariant
                i <= 32,
                forall|j: int| 0 <= j < i ==> self.bytes[j] == other.bytes[j],
            decreases 32 - i,
        {
            if self.bytes[i] != other.bytes[i] {
                return false;
            }
            i += 1;
        }
        assert(self.bytes =~= other.bytes);
        true
    }
}

impl Eq for Principal {

}

impl Principal {
    /// The identifier made of the given bytes.
    pub fn new(bytes: [u8; 32]) -> (r: Principal)
        ensures
            r.bytes == bytes,
    {
        Principal { bytes }
    }

    /// The reserved identifier that stands for "nobody": 32 zero bytes.
    pub open spec fn spec_zero() -> Principal {
        Principal { bytes: zero_bytes() }
    }

    /// The reserved identifier that stands for "nobody": 32 zero bytes.
    pub fn zero() -> (r: Principal)
        ensures
            r == Principal::spec_zero(),
            forall|i: int| 0 <= i < 32 ==> r@[i] == 0,
    {
        Principal { bytes: [0u8; 32] }
    }

    /// Whether `self` comes before `other`, or equals it, in the order of identifiers.
    pub fn le(&self, other: &Principal) -> (r: bool)
        ensures
            r == lex_le(self@, other@),
    {
        let mut i: usize = 0;
        while i < 32
            invariant
                i <= 32,
                forall|j: int| 0 <= j < i ==> self@[j] == other@[j],
            decreases 32 - i,
        {
            if self.bytes[i] < other.bytes[i] {
                assert(diverges_below(self@, other@, i as int));
                return true;
            }
            if self.bytes[i] > other.bytes[i] {
                assert(self@ != other@);
                assert forall|k: int| !diverges_below(self@, other@, k) by {
                    if diverges_below(self@, other@, k) {
                        if k > i {
                            assert(self@[i as int] == other@[i as int]);
                        }
                    }
                }
                return false;
            }
            i += 1;
        }
        assert(self@ =~= other@);
        true
    }
}

/// Orders two identifiers: the smaller comes first.
pub fn sort_pair(a: Principal, b: Principal) -> (r: (Principal, Principal))
    ensures
        r == spec_sort_pair(a, b),
{
    if a.le(&b) {
        (a, b)
    } else {
        (b, a)
    }
}

/// Each of the thirty-two zero bytes is zero.
pub proof fn lemma_zero_bytes()
    ensures
        zero_bytes()@.len() == 32,
        forall|i: int| 0 <= i < 32 ==> zero_bytes()@[i] == 0,
{
}

/// Two identifiers with the same bytes are the same identifier.
pub proof fn lemma_same_bytes(a: Principal, b: Principal)
    requires
        a@ == b@,
    ensures
        a == b,
{
    assert forall|i: int| 0 <= i < 32 implies a.bytes[i] == b.bytes[i] by {
        assert(a@[i] == b@[i]);
    }
    assert(a.bytes =~= b.bytes);
}

/// Two byte strings of one length that agree before index `i` are equal, or one of them
/// comes strictly before the other.
proof fn lemma_first_difference(a: Seq<u8>, b: Seq<u8>, i: int)
    requires
        a.len() == b.len(),
        0 <= i <= a.len(),
        forall|j: int| 0 <= j < i ==> a[j] == b[j],
    ensures
        a == b || lex_lt(a, b) || lex_lt(b, a),
    decreases a.len() - i,
{
    if i == a.len() {
        assert(a =~= b);
    } else if a[i] < b[i] {
        assert(diverges_below(a, b, i));
    } else if b[i] < a[i] {
        assert(diverges_below(b, a, i));
    } else {
        lemma_first_difference(a, b, i + 1);
    }
}

/// The order of identifiers is total: of two byte strings of one length, one comes
/// before the other or equals it.
pub proof fn lemma_lex_le_total(a: Seq<u8>, b: Seq<u8>)
    requires
        a.len() == b.len(),
    ensures
        lex_le(a, b) || lex_le(b, a),
{
    lemma_first_difference(a, b, 0);
}

/// The order of identifiers is antisymmetric: two byte strings that each come before
/// the other, or equal it, are equal.
pub proof fn lemma_lex_le_antisymmetric(a: Seq<u8>, b: Seq<u8>)
    requires
        lex_le(a, b),
        lex_le(b, a),
    ensures
        a == b,
{
    if a != b {
        let i = choose|i: int| diverges_below(a, b, i);
        let k = choose|k: int| diverges_below(b, a, k);
        if i < k {
            assert(b[i] == a[i]);
        } else if k < i {
            assert(a[k] == b[k]);
        }
    }
}

/// The canonical pair does not depend on the order in which the two identifiers are
/// given: `sort_pair(a, b)` and `sort_pair(b, a)` are the same pair.
pub proof fn lemma_sort_pair_symmetric(a: Principal, b: Principal)
    ensures
        spec_sort_pair(a, b) == spec_sort_pair(b, a),
{
    lemma_lex_le_total(a@, b@);
    if lex_le(a@, b@) && lex_le(b@, a@) {
        lemma_lex_le_antisymmetric(a@, b@);
        lemma_same_bytes(a, b);
    }
}

/// The canonical pair holds the two given identifiers, the smaller first.
pub proof fn lemma_sort_pair_canonical(a: Principal, b: Principal)
    ensures
        lex_le(spec_sort_pair(a, b).0@, spec_sort_pair(a, b).1@),
        spec_sort_pair(a, b) == (a, b) || spec_sort_pair(a, b) == (b, a),
{
    lemma_lex_le_total(a@, b@);
}

} // verus!
