//! The order of texts the timeline sorts by: lexicographic by character,
//! which is the order of their UTF-8 bytes.

use vstd::prelude::*;
use crate::text::chars_of;

verus! {

/// `x` comes strictly before `y`: at the first position where they differ
/// `x` has the smaller character (by code point), or `x` is a proper prefix
/// of `y`.
pub open spec fn text_lt(x: Seq<char>, y: Seq<char>) -> bool
    decreases x.len(),
{
    if x.len() == 0 {
        y.len() > 0
    } else if y.len() == 0 {
        false
    } else if x[0] != y[0] {
        x[0] < y[0]
    } else {
        text_lt(x.drop_first(), y.drop_first())
    }
}

/// No text comes before itself.
pub proof fn lemma_text_lt_irreflexive(x: Seq<char>)
    ensures
        !text_lt(x, x),
    decreases x.len(),
{
    if x.len() > 0 {
        lemma_text_lt_irreflexive(x.drop_first());
    }
}

/// Of two texts, at most one comes before the other.
pub proof fn lemma_text_lt_asymmetric(x: Seq<char>, y: Seq<char>)
    ensures
        text_lt(x, y) ==> !text_lt(y, x),
    decreases x.len(),
{
    if x.len() > 0 && y.len() > 0 && x[0] == y[0] {
        lemma_text_lt_asymmetric(x.drop_first(), y.drop_first());
    }
}

/// The order is transitive.
pub proof fn lemma_text_lt_transitive(x: Seq<char>, y: Seq<char>, z: Seq<char>)
    requires
        text_lt(x, y),
        text_lt(y, z),
    ensures
        text_lt(x, z),
    decreases x.len(),
{
    if x.len() > 0 && y.len() > 0 && z.len() > 0 && x[0] == y[0] && y[0] == z[0] {
        lemma_text_lt_transitive(x.drop_first(), y.drop_first(), z.drop_first());
    }
}

/// Of two different texts, one comes before the other.
pub proof fn lemma_text_lt_total(x: Seq<char>, y: Seq<char>)
    requires
        x != y,
    ensures
        text_lt(x, y) || text_lt(y, x),
    decreases x.len(),
{
    if x.len() > 0 && y.len() > 0 && x[0] == y[0] {
        if x.drop_first() == y.drop_first() {
            assert(x =~= seq![x[0]] + x.drop_first());
            assert(y =~= seq![y[0]] + y.drop_first());
        }
        lemma_text_lt_total(x.drop_first(), y.drop_first());
    } else if x.len() == 0 && y.len() == 0 {
        assert(x =~= y);
    }
}

/// Whether `a` comes strictly before `b`.
pub fn text_less(a: &str, b: &str) -> (r: bool)
    ensures
        r == text_lt(a@, b@),
{
    let x = chars_of(a);
    let y = chars_of(b);
    let mut i: usize = 0;
    assert(x@.skip(0) =~= x@);
    assert(y@.skip(0) =~= y@);
    while i < x.len() && i < y.len() && x[i] == y[i]
        invariant
            i <= x@.len(),
            i <= y@.len(),
            text_lt(x@, y@) == text_lt(x@.skip(i as int), y@.skip(i as int)),
        decreases x@.len() - i,
    {
        proof {
            let xs = x@.skip(i as int);
            let ys = y@.skip(i as int);
            assert(xs.drop_first() =~= x@.skip(i + 1));
            assert(ys.drop_first() =~= y@.skip(i + 1));
        }
        i = i + 1;
    }
    proof {
        let xs = x@.skip(i as int);
        let ys = y@.skip(i as int);
        if i < x.len() && i < y.len() {
            assert(xs[0] == x@[i as int]);
            assert(ys[0] == y@[i as int]);
        }
    }
    if i == x.len() {
        i < y.len()
    } else if i == y.len() {
        false
    } else {
        x[i] < y[i]
    }
}

/// `(a0, a1)` comes strictly before `(b0, b1)`, comparing the first texts,
/// then the second.
pub open spec fn pair_lt(a0: Seq<char>, a1: Seq<char>, b0: Seq<char>, b1: Seq<char>) -> bool {
    text_lt(a0, b0) || (a0 == b0 && text_lt(a1, b1))
}

/// The pair order is a strict total order on different pairs.
pub proof fn lemma_pair_lt_order(a0: Seq<char>, a1: Seq<char>, b0: Seq<char>, b1: Seq<char>, c0: Seq<char>, c1: Seq<char>)
    ensures
        !pair_lt(a0, a1, a0, a1),
        pair_lt(a0, a1, b0, b1) ==> !pair_lt(b0, b1, a0, a1),
        pair_lt(a0, a1, b0, b1) && pair_lt(b0, b1, c0, c1) ==> pair_lt(a0, a1, c0, c1),
        (a0 != b0 || a1 != b1) ==> pair_lt(a0, a1, b0, b1) || pair_lt(b0, b1, a0, a1),
{
    lemma_text_lt_irreflexive(a0);
    lemma_text_lt_irreflexive(a1);
    lemma_text_lt_asymmetric(a0, b0);
    lemma_text_lt_asymmetric(a1, b1);
    if text_lt(a0, b0) && text_lt(b0, c0) {
        lemma_text_lt_transitive(a0, b0, c0);
    }
    if text_lt(a1, b1) && text_lt(b1, c1) {
        lemma_text_lt_transitive(a1, b1, c1);
    }
    if a0 != b0 {
        lemma_text_lt_total(a0, b0);
    }
    if a1 != b1 {
        lemma_text_lt_total(a1, b1);
    }
}

/// Whether `(a0, a1)` comes strictly before `(b0, b1)`.
pub fn pair_less(a0: &str, a1: &str, b0: &str, b1: &str) -> (r: bool)
    ensures
        r == pair_lt(a0@, a1@, b0@, b1@),
{
    if text_less(a0, b0) {
        true
    } else if text_less(b0, a0) {
        proof {
            lemma_text_lt_asymmetric(b0@, a0@);
        }
        false
    } else {
        proof {
            if a0@ != b0@ {
                lemma_text_lt_total(a0@, b0@);
            }
        }
        text_less(a1, b1)
    }
}

} // verus!
