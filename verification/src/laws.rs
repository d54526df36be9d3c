use vstd::prelude::*;

use crate::callable::Apply;

verus! {

/// Law: `map` is the element-wise image. When a callable's contract pins
/// each result to `sf` of its argument, a sequence pair related as input and
/// output of `map` satisfies `r == [sf(a0), sf(a1), ...]`.
pub proof fn lemma_map_elementwise<A, B, F: Apply<A, B>>(
    f: F,
    sf: spec_fn(A) -> B,
    l: Seq<A>,
    r: Seq<B>,
)
    requires
        forall|a: A, b: B| f.post(a, b) ==> b == sf(a),
        r.len() == l.len(),
        forall|i: int| 0 <= i < l.len() ==> f.post(l[i], #[trigger] r[i]),
    ensures
        r =~= l.map_values(sf),
{
    assert forall|i: int| 0 <= i < r.len() implies r[i] == l.map_values(sf)[i] by {
        assert(f.post(l[i], r[i]));
    }
}

/// Law: mapping an identity callable changes nothing. When the callable's
/// contract pins each result to its argument, the output sequence of `map`
/// equals the input.
pub proof fn lemma_map_identity<A, F: Apply<A, A>>(f: F, l: Seq<A>, r: Seq<A>)
    requires
        forall|a: A, b: A| f.post(a, b) ==> b == a,
        r.len() == l.len(),
        forall|i: int| 0 <= i < l.len() ==> f.post(l[i], #[trigger] r[i]),
    ensures
        r =~= l,
{
    assert forall|i: int| 0 <= i < r.len() implies r[i] == l[i] by {
        assert(f.post(l[i], r[i]));
    }
}

/// Law: two maps compose. When `f`'s contract pins its results to `sf` and
/// `g`'s to `sg`, mapping `f` and then `g` yields the element-wise image of
/// the composition of the two.
pub proof fn lemma_map_composition<A, B, C, F: Apply<A, B>, G: Apply<B, C>>(
    f: F,
    g: G,
    sf: spec_fn(A) -> B,
    sg: spec_fn(B) -> C,
    l: Seq<A>,
    m: Seq<B>,
    r: Seq<C>,
)
    requires
        forall|a: A, b: B| f.post(a, b) ==> b == sf(a),
        forall|b: B, c: C| g.post(b, c) ==> c == sg(b),
        m.len() == l.len(),
        forall|i: int| 0 <= i < l.len() ==> f.post(l[i], #[trigger] m[i]),
        r.len() == m.len(),
        forall|i: int| 0 <= i < m.len() ==> g.post(m[i], #[trigger] r[i]),
    ensures
        r.len() == l.len(),
        r =~= l.map_values(|a: A| sg(sf(a))),
{
    assert forall|i: int| 0 <= i < r.len() implies r[i] == l.map_values(
        (|a: A| sg(sf(a))),
    )[i] by {
        assert(f.post(l[i], m[i]));
        assert(g.post(m[i], r[i]));
    }
}

} // verus!
