//! The lexical order of texts, character by character.

use vstd::prelude::*;

verus! {

/// Whether `a` and `b` agree in their first `k` characters.
pub open spec fn agree_up_to(a: Seq<char>, b: Seq<char>, k: int) -> bool {
    &&& 0 <= k <= a.len()
    &&& k <= b.len()
    &&& forall|i: int| 0 <= i < k ==> a[i] == b[i]
}

/// Whether `a` stands before `b` in lexical order: at the first place where
/// they differ `a` has the lesser character, or `a` ends there and `b` does not.
pub open spec fn precedes(a: Seq<char>, b: Seq<char>) -> bool {
    exists|k: int| #[trigger]
        agree_up_to(a, b, k) && k < b.len() && (k == a.len() || (a[k] as u32) < (b[k] as u32))
}

/// Different characters have different code points.
pub proof fn lemma_codes_differ(x: char, y: char)
    requires
        x != y,
    ensures
        (x as u32) != (y as u32),
{
}

/// Of two texts one stands before the other, or they are the same text.
pub proof fn lemma_precedes_total(a: Seq<char>, b: Seq<char>)
    ensures
        precedes(a, b) || precedes(b, a) || a == b,
{
    if a != b {
        let k = first_difference(a, b, 0);
        lemma_first_difference(a, b, 0);
        assert(agree_up_to(a, b, k));
        assert(agree_up_to(b, a, k));
        if k == a.len() {
            assert(k < b.len()) by {
                if k == b.len() {
                    assert(a =~= b);
                }
            }
        } else if k < b.len() {
            lemma_codes_differ(a[k], b[k]);
        }
    }
}

/// No text stands before itself, and of two texts at most one stands before the other.
pub proof fn lemma_precedes_asymmetric(a: Seq<char>, b: Seq<char>)
    requires
        precedes(a, b),
    ensures
        !precedes(b, a),
        a != b,
{
    let k = choose|k: int| #[trigger]
        agree_up_to(a, b, k) && k < b.len() && (k == a.len() || (a[k] as u32) < (b[k] as u32));
    if precedes(b, a) {
        let m = choose|m: int| #[trigger]
            agree_up_to(b, a, m) && m < a.len() && (m == b.len() || (b[m] as u32) < (a[m] as u32));
        if m < k {
            assert(a[m] == b[m]);
        } else if k < m {
            assert(b[k] == a[k]);
        }
    }
}

/// The lexical order is transitive.
pub proof fn lemma_precedes_transitive(a: Seq<char>, b: Seq<char>, c: Seq<char>)
    requires
        precedes(a, b),
        precedes(b, c),
    ensures
        precedes(a, c),
{
    let k = choose|k: int| #[trigger]
        agree_up_to(a, b, k) && k < b.len() && (k == a.len() || (a[k] as u32) < (b[k] as u32));
    let m = choose|m: int| #[trigger]
        agree_up_to(b, c, m) && m < c.len() && (m == b.len() || (b[m] as u32) < (c[m] as u32));
    let n = if k <= m {
        k
    } else {
        m
    };
    assert(agree_up_to(a, c, n)) by {
        assert forall|i: int| 0 <= i < n implies a[i] == c[i] by {
            assert(a[i] == b[i]);
            assert(b[i] == c[i]);
        }
    }
    if k < m {
        assert(b[k] == c[k]);
    } else if m < k {
        assert(a[m] == b[m]);
    }
}

/// The first index from `from` on at which `a` and `b` differ or one of them ends.
pub open spec fn first_difference(a: Seq<char>, b: Seq<char>, from: int) -> int
    decreases a.len() - from,
{
    if 0 <= from < a.len() && from < b.len() && a[from] == b[from] {
        first_difference(a, b, from + 1)
    } else {
        from
    }
}

/// Up to their first difference two texts agree.
pub proof fn lemma_first_difference(a: Seq<char>, b: Seq<char>, from: int)
    requires
        agree_up_to(a, b, from),
    ensures
        agree_up_to(a, b, first_difference(a, b, from)),
        first_difference(a, b, from) < a.len() && first_difference(a, b, from) < b.len()
            ==> a[first_difference(a, b, from)] != b[first_difference(a, b, from)],
    decreases a.len() - from,
{
    if from < a.len() && from < b.len() && a[from] == b[from] {
        lemma_first_difference(a, b, from + 1);
    }
}

/// Whether `a` stands before `b` in lexical order.
pub fn text_precedes(a: &Vec<char>, b: &Vec<char>) -> (r: bool)
    ensures
        r == precedes(a@, b@),
{
    let mut i: usize = 0;
    while i < a.len() && i < b.len() && a[i] == b[i]
        invariant
            agree_up_to(a@, b@, i as int),
        decreases a@.len() - i,
    {
        i += 1;
    }
    let r = i < b.len() && (i == a.len() || (a[i] as u32) < (b[i] as u32));
    proof {
        if r {
            assert(agree_up_to(a@, b@, i as int));
        } else if precedes(a@, b@) {
            let k = choose|k: int| #[trigger]
                agree_up_to(a@, b@, k) && k < b@.len() && (k == a@.len() || (a@[k] as u32) < (
                b@[k] as u32));
            if k < i {
                assert(a@[k] == b@[k]);
            } else if i < k {
                assert(a@[i as int] == b@[i as int]);
            }
        }
    }
    r
}

} // verus!

