//! Comparing texts: equality, and the order in which strings sort, which is
//! the order of their bytes.

use vstd::prelude::*;
use vstd::utf8::{encode_utf8, encode_utf8_decode_utf8};

verus! {

/// Whether two texts are the same.
pub fn str_equal(a: &str, b: &str) -> (same: bool)
    ensures
        same == (a@ == b@),
{
    a.to_owned() == b.to_owned()
}

/// Whether two byte strings agree on their first `k` bytes.
pub open spec fn agree_upto(a: Seq<u8>, b: Seq<u8>, k: int) -> bool {
    &&& 0 <= k <= a.len()
    &&& k <= b.len()
    &&& forall|j: int| 0 <= j < k ==> a[j] == b[j]
}

/// Whether `a` comes before `b` in the order of the dictionary: where they
/// first differ `a` has the smaller byte, or `a` ends there and `b` goes on.
pub open spec fn bytes_precede(a: Seq<u8>, b: Seq<u8>) -> bool {
    exists|k: int|
        #[trigger] agree_upto(a, b, k) && k < b.len() && (k == a.len() || a[k] < b[k])
}

/// Whether the text `a` sorts before the text `b`: strings sort by their
/// bytes.
pub open spec fn precedes(a: Seq<char>, b: Seq<char>) -> bool {
    bytes_precede(encode_utf8(a), encode_utf8(b))
}

/// How one text stands to another in the sorting order.
#[derive(Clone, Copy, Debug, PartialEq, Eq, Structural)]
pub enum Place {
    Before,
    Same,
    After,
}

/// Where `a` stands relative to `b` in the sorting order.
pub fn place_of(a: &str, b: &str) -> (place: Place)
    ensures
        place == Place::Before ==> precedes(a@, b@),
        place == Place::Same ==> a@ == b@,
        place == Place::After ==> precedes(b@, a@),
{
    let x = a.as_bytes();
    let y = b.as_bytes();
    let mut i: usize = 0;
    while i < x.len() && i < y.len()
        invariant
            x@ == encode_utf8(a@),
            y@ == encode_utf8(b@),
            agree_upto(x@, y@, i as int),
        decreases x.len() - i,
    {
        if x[i] < y[i] {
            assert(agree_upto(x@, y@, i as int));
            return Place::Before;
        }
        if x[i] > y[i] {
            assert(agree_upto(y@, x@, i as int));
            return Place::After;
        }
        i = i + 1;
    }
    if i < y.len() {
        assert(agree_upto(x@, y@, i as int));
        Place::Before
    } else if i < x.len() {
        assert(agree_upto(y@, x@, i as int));
        Place::After
    } else {
        proof {
            assert(x@ =~= y@);
            encode_utf8_decode_utf8(a@);
            encode_utf8_decode_utf8(b@);
        }
        Place::Same
    }
}

/// No text sorts before itself.
pub proof fn precedes_is_irreflexive(a: Seq<char>)
    ensures
        !precedes(a, a),
{
}

/// The sorting order is transitive.
pub proof fn precedes_is_transitive(a: Seq<char>, b: Seq<char>, c: Seq<char>)
    requires
        precedes(a, b),
        precedes(b, c),
    ensures
        precedes(a, c),
{
    let x = encode_utf8(a);
    let y = encode_utf8(b);
    let z = encode_utf8(c);
    let k1 = choose|k: int| #[trigger] agree_upto(x, y, k) && k < y.len() && (k == x.len() || x[k] < y[k]);
    let k2 = choose|k: int| #[trigger] agree_upto(y, z, k) && k < z.len() && (k == y.len() || y[k] < z[k]);
    let k = if k1 <= k2 { k1 } else { k2 };
    assert(agree_upto(x, z, k));
}

} // verus!
