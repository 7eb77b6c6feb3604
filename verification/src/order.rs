//! The order of path texts: byte by byte, a text before every text that it
//! is a proper start of.

use vstd::prelude::*;

verus! {

/// Whether `a` is a start of `b`.
pub open spec fn is_prefix(a: Seq<u8>, b: Seq<u8>) -> bool {
    a.len() <= b.len() && forall|k: int| 0 <= k < a.len() ==> a[k] == b[k]
}

/// Whether `k` is the first place at which `a` and `b` differ.
pub open spec fn differ_at(a: Seq<u8>, b: Seq<u8>, k: int) -> bool {
    0 <= k < a.len() && k < b.len() && a[k] != b[k] && forall|j: int|
        0 <= j < k ==> a[j] == b[j]
}

/// Whether `a` comes before `b` or is `b`: `a` is a start of `b`, or has
/// the smaller byte at the first place at which they differ.
pub open spec fn text_le(a: Seq<u8>, b: Seq<u8>) -> bool {
    is_prefix(a, b) || exists|k: int| differ_at(a, b, k) && a[k] < b[k]
}

/// Whether the texts stand in order.
pub open spec fn sorted(ts: Seq<Seq<u8>>) -> bool {
    forall|i: int, j: int| 0 <= i < j < ts.len() ==> text_le(ts[i], ts[j])
}

proof fn lemma_total_from(a: Seq<u8>, b: Seq<u8>, i: int)
    requires
        0 <= i <= a.len(),
        i <= b.len(),
        forall|k: int| 0 <= k < i ==> a[k] == b[k],
    ensures
        text_le(a, b) || text_le(b, a),
    decreases a.len() - i,
{
    if i == a.len() {
        assert(is_prefix(a, b));
    } else if i == b.len() {
        assert(is_prefix(b, a));
    } else if a[i] != b[i] {
        assert(differ_at(a, b, i));
        assert(differ_at(b, a, i));
    } else {
        lemma_total_from(a, b, i + 1);
    }
}

/// Of two texts one comes before the other, or they are the same.
pub proof fn lemma_text_le_total(a: Seq<u8>, b: Seq<u8>)
    ensures
        text_le(a, b) || text_le(b, a),
{
    lemma_total_from(a, b, 0);
}

/// The order is transitive.
pub proof fn lemma_text_le_transitive(a: Seq<u8>, b: Seq<u8>, c: Seq<u8>)
    requires
        text_le(a, b),
        text_le(b, c),
    ensures
        text_le(a, c),
{
    if is_prefix(a, b) {
        if is_prefix(b, c) {
            assert(is_prefix(a, c));
        } else {
            let m = choose|m: int| differ_at(b, c, m) && b[m] < c[m];
            if m < a.len() {
                assert(differ_at(a, c, m));
            } else {
                assert(is_prefix(a, c));
            }
        }
    } else {
        let k = choose|k: int| differ_at(a, b, k) && a[k] < b[k];
        if is_prefix(b, c) {
            assert(differ_at(a, c, k));
        } else {
            let m = choose|m: int| differ_at(b, c, m) && b[m] < c[m];
            if k <= m {
                assert(differ_at(a, c, k));
            } else {
                assert(differ_at(a, c, m));
            }
        }
    }
}

/// Two texts that come before each other are the same.
pub proof fn lemma_text_le_antisymmetric(a: Seq<u8>, b: Seq<u8>)
    requires
        text_le(a, b),
        text_le(b, a),
    ensures
        a == b,
{
    if is_prefix(a, b) && is_prefix(b, a) {
        assert(a =~= b);
    } else if is_prefix(a, b) {
        let k = choose|k: int| differ_at(b, a, k) && b[k] < a[k];
        assert(a[k] == b[k]);
    } else if is_prefix(b, a) {
        let k = choose|k: int| differ_at(a, b, k) && a[k] < b[k];
        assert(b[k] == a[k]);
    } else {
        let k = choose|k: int| differ_at(a, b, k) && a[k] < b[k];
        let m = choose|m: int| differ_at(b, a, m) && b[m] < a[m];
        if k < m {
            assert(b[k] == a[k]);
        } else if m < k {
            assert(a[m] == b[m]);
        }
    }
}

/// Whether `a` comes before `b` or is `b`.
pub fn bytes_le(a: &[u8], b: &[u8]) -> (r: bool)
    ensures
        r == text_le(a@, b@),
{
    let mut i: usize = 0;
    while i < a.len() && i < b.len() && a[i] == b[i]
        invariant
            i <= a@.len(),
            i <= b@.len(),
            forall|k: int| 0 <= k < i ==> a@[k] == b@[k],
        decreases a.len() - i,
    {
        i += 1;
    }
    if i == a.len() {
        assert(is_prefix(a@, b@));
        true
    } else if i == b.len() {
        assert(!is_prefix(a@, b@));
        assert forall|k: int| !(differ_at(a@, b@, k) && a@[k] < b@[k]) by {
            if differ_at(a@, b@, k) {
                assert(a@[k] == b@[k]);
            }
        }
        false
    } else {
        assert(differ_at(a@, b@, i as int));
        if a[i] < b[i] {
            true
        } else {
            assert(!is_prefix(a@, b@));
            assert forall|k: int| !(differ_at(a@, b@, k) && a@[k] < b@[k]) by {
                if differ_at(a@, b@, k) {
                    if k < i {
                        assert(a@[k] == b@[k]);
                    } else if k > i {
                        assert(a@[i as int] == b@[i as int]);
                    }
                }
            }
            false
        }
    }
}

} // verus!
