//! The order of UUIDs: that of their bytes, where the first byte in which
//! two values differ decides.

use vstd::prelude::*;

verus! {

/// True where `a` and `b` agree on the bytes before `i`.
pub open spec fn agree_before(a: Seq<u8>, b: Seq<u8>, i: int) -> bool {
    forall|j: int| 0 <= j < i ==> a[j] == b[j]
}

/// True where `a` comes before `b`: at the first byte in which they differ,
/// that of `a` is the smaller.
pub open spec fn comes_before(a: Seq<u8>, b: Seq<u8>) -> bool {
    exists|i: int| 0 <= i < 16 && agree_before(a, b, i) && #[trigger] a[i] < b[i]
}

/// True where `i` is the first index at which `a` and `b` differ, or 16
/// where they do not differ.
pub open spec fn first_difference_is(a: Seq<u8>, b: Seq<u8>, i: int) -> bool {
    &&& 0 <= i <= 16
    &&& agree_before(a, b, i)
    &&& i < 16 ==> a[i] != b[i]
}

/// The first index at which `a` and `b` differ, or 16 where they are equal.
pub fn first_difference(a: &[u8; 16], b: &[u8; 16]) -> (i: usize)
    ensures
        first_difference_is(a@, b@, i as int),
        i == 16 <==> a@ == b@,
{
    let mut i: usize = 0;
    while i < 16
        invariant
            0 <= i <= 16,
            agree_before(a@, b@, i as int),
        decreases 16 - i,
    {
        if a[i] != b[i] {
            return i;
        }
        i = i + 1;
    }
    assert(a@ =~= b@);
    i
}

/// Of two UUIDs exactly one holds: they are equal, the first comes before
/// the second, or the second before the first.
pub proof fn lemma_order_is_total(a: Seq<u8>, b: Seq<u8>)
    requires
        a.len() == 16,
        b.len() == 16,
    ensures
        a == b || comes_before(a, b) || comes_before(b, a),
        !(a == b && comes_before(a, b)),
        !(a == b && comes_before(b, a)),
        !(comes_before(a, b) && comes_before(b, a)),
{
    if a != b {
        assert(!(a =~= b));
        lemma_first_difference_exists(a, b, 16);
        let i = choose|i: int| 0 <= i < 16 && a[i] != b[i] && agree_before(a, b, i);
        if a[i] < b[i] {
            assert(comes_before(a, b));
        } else {
            assert(b[i] < a[i]);
            assert(agree_before(b, a, i));
            assert(comes_before(b, a));
        }
    }
    if comes_before(a, b) && comes_before(b, a) {
        let i = choose|i: int| 0 <= i < 16 && agree_before(a, b, i) && #[trigger] a[i] < b[i];
        let k = choose|k: int| 0 <= k < 16 && agree_before(b, a, k) && #[trigger] b[k] < a[k];
        if i < k {
            assert(b[i] == a[i]);
        } else if k < i {
            assert(a[k] == b[k]);
        }
    }
}

/// Two sequences that differ before `n` have a first index at which they
/// differ.
proof fn lemma_first_difference_exists(a: Seq<u8>, b: Seq<u8>, n: int)
    requires
        0 <= n <= 16,
        a.len() == 16,
        b.len() == 16,
        exists|j: int| 0 <= j < n && a[j] != b[j],
    ensures
        exists|i: int| 0 <= i < n && a[i] != b[i] && agree_before(a, b, i),
    decreases n,
{
    if exists|j: int| 0 <= j < n - 1 && a[j] != b[j] {
        lemma_first_difference_exists(a, b, n - 1);
        let i = choose|i: int| 0 <= i < n - 1 && a[i] != b[i] && agree_before(a, b, i);
        assert(0 <= i < n && a[i] != b[i] && agree_before(a, b, i));
    } else {
        assert(a[n - 1] != b[n - 1]);
        assert(agree_before(a, b, n - 1));
    }
}

} // verus!
