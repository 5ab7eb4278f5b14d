//! Lexicographic order on strings, as `String`'s `Ord` compares them.
use vstd::prelude::*;

verus! {

/// `a` comes after `b`, comparing from position `k` on.
pub open spec fn lex_gt_from(a: Seq<char>, b: Seq<char>, k: int) -> bool
    decreases a.len() - k,
{
    if k < 0 || k >= a.len() {
        false
    } else if k >= b.len() {
        true
    } else if a[k] != b[k] {
        a[k] > b[k]
    } else {
        lex_gt_from(a, b, k + 1)
    }
}

/// `a` comes strictly after `b` in lexicographic order.
pub open spec fn lex_gt(a: Seq<char>, b: Seq<char>) -> bool {
    lex_gt_from(a, b, 0)
}

/// Each entry comes strictly after every later one.
pub open spec fn strictly_descending(s: Seq<Seq<char>>) -> bool {
    forall|i: int, j: int| 0 <= i < j < s.len() ==> lex_gt(#[trigger] s[i], #[trigger] s[j])
}

proof fn lemma_irreflexive_from(a: Seq<char>, k: int)
    requires
        0 <= k,
    ensures
        !lex_gt_from(a, a, k),
    decreases a.len() - k,
{
    if k < a.len() {
        lemma_irreflexive_from(a, k + 1);
    }
}

pub proof fn lemma_irreflexive(a: Seq<char>)
    ensures
        !lex_gt(a, a),
{
    lemma_irreflexive_from(a, 0);
}

proof fn lemma_transitive_from(a: Seq<char>, b: Seq<char>, c: Seq<char>, k: int)
    requires
        0 <= k,
        lex_gt_from(a, b, k),
        lex_gt_from(b, c, k),
    ensures
        lex_gt_from(a, c, k),
    decreases a.len() - k,
{
    if k < a.len() && k < b.len() && k < c.len() && a[k] == b[k] && b[k] == c[k] {
        lemma_transitive_from(a, b, c, k + 1);
    }
}

pub proof fn lemma_transitive(a: Seq<char>, b: Seq<char>, c: Seq<char>)
    requires
        lex_gt(a, b),
        lex_gt(b, c),
    ensures
        lex_gt(a, c),
{
    lemma_transitive_from(a, b, c, 0);
}

proof fn lemma_total_from(a: Seq<char>, b: Seq<char>, k: int)
    requires
        0 <= k <= a.len(),
        k <= b.len(),
        !lex_gt_from(a, b, k),
        !lex_gt_from(b, a, k),
    ensures
        a.len() == b.len(),
        forall|i: int| k <= i < a.len() ==> a[i] == b[i],
    decreases a.len() - k,
{
    if k < a.len() && k < b.len() {
        lemma_total_from(a, b, k + 1);
    }
}

/// Two different strings are ordered one way or the other.
pub proof fn lemma_total(a: Seq<char>, b: Seq<char>)
    requires
        a != b,
        !lex_gt(a, b),
    ensures
        lex_gt(b, a),
{
    if !lex_gt(b, a) {
        lemma_total_from(a, b, 0);
        assert(a =~= b);
    }
}

proof fn lemma_tail_set(a: Seq<Seq<char>>)
    requires
        strictly_descending(a),
        a.len() > 0,
    ensures
        a.drop_first().to_set() == a.to_set().remove(a[0]),
{
    assert forall|x: Seq<char>| a.drop_first().contains(x) <==> a.contains(x) && x != a[0] by {
        if a.drop_first().contains(x) {
            let k = choose|k: int| 0 <= k < a.drop_first().len() && a.drop_first()[k] == x;
            assert(lex_gt(a[0], a[k + 1]));
            lemma_irreflexive(x);
        }
        if a.contains(x) && x != a[0] {
            let k = choose|k: int| 0 <= k < a.len() && a[k] == x;
            assert(a.drop_first()[k - 1] == x);
        }
    }
    assert(a.drop_first().to_set() =~= a.to_set().remove(a[0]));
}

/// Strictly descending sequences that hold the same elements are equal.
pub proof fn lemma_descending_unique(a: Seq<Seq<char>>, b: Seq<Seq<char>>)
    requires
        strictly_descending(a),
        strictly_descending(b),
        a.to_set() == b.to_set(),
    ensures
        a == b,
    decreases a.len(),
{
    if a.len() == 0 || b.len() == 0 {
        if b.len() > 0 {
            assert(b.to_set().contains(b[0]));
        }
        if a.len() > 0 {
            assert(a.to_set().contains(a[0]));
        }
        assert(a =~= b);
    } else {
        assert(a.to_set().contains(b[0]));
        assert(b.to_set().contains(a[0]));
        let j = choose|j: int| 0 <= j < a.len() && a[j] == b[0];
        let k = choose|k: int| 0 <= k < b.len() && b[k] == a[0];
        if a[0] != b[0] {
            assert(lex_gt(a[0], a[j]));
            assert(lex_gt(b[0], b[k]));
            lemma_transitive(a[0], b[0], a[0]);
            lemma_irreflexive(a[0]);
        }
        lemma_tail_set(a);
        lemma_tail_set(b);
        assert forall|i: int, l: int| 0 <= i < l < a.drop_first().len() implies lex_gt(
            #[trigger] a.drop_first()[i],
            #[trigger] a.drop_first()[l],
        ) by {
            assert(lex_gt(a[i + 1], a[l + 1]));
        }
        assert forall|i: int, l: int| 0 <= i < l < b.drop_first().len() implies lex_gt(
            #[trigger] b.drop_first()[i],
            #[trigger] b.drop_first()[l],
        ) by {
            assert(lex_gt(b[i + 1], b[l + 1]));
        }
        lemma_descending_unique(a.drop_first(), b.drop_first());
        assert(a.len() == b.len());
        assert forall|i: int| 0 <= i < a.len() implies a[i] == b[i] by {
            if i > 0 {
                assert(a.drop_first()[i - 1] == b.drop_first()[i - 1]);
            }
        }
        assert(a =~= b);
    }
}

/// A strictly descending sequence holds each element once.
pub proof fn lemma_descending_no_duplicates(a: Seq<Seq<char>>)
    requires
        strictly_descending(a),
    ensures
        a.no_duplicates(),
        a.to_set().len() == a.len(),
{
    assert forall|i: int, j: int| 0 <= i < a.len() && 0 <= j < a.len() && i != j implies a[i] != a[j] by {
        lemma_irreflexive(a[i]);
        if i < j {
            assert(lex_gt(a[i], a[j]));
        } else {
            assert(lex_gt(a[j], a[i]));
        }
    }
    a.unique_seq_to_set();
}

/// Whether `a` comes strictly after `b`.
pub fn str_gt(a: &str, b: &str) -> (r: bool)
    ensures
        r == lex_gt(a@, b@),
{
    let n = a.unicode_len();
    let m = b.unicode_len();
    let mut k: usize = 0;
    while k < n && k < m
        invariant
            n == a@.len(),
            m == b@.len(),
            k <= n,
            k <= m,
            lex_gt(a@, b@) == lex_gt_from(a@, b@, k as int),
        decreases n - k,
    {
        let x = a.get_char(k);
        let y = b.get_char(k);
        if x != y {
            return x > y;
        }
        k = k + 1;
    }
    k < n
}

} // verus!
