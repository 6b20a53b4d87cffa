//! The function-like capability every node of a composed noise tree
//! implements, and the nodes themselves: decorators and combinators.

pub mod cache;
pub mod combiners;
pub mod generators;
pub mod tally;

use vstd::prelude::*;

verus! {

/// The capability every node of a composed noise tree implements: given an
/// N-dimensional point, produce one scalar sample.
///
/// A node may hold configuration (a seed, fractal parameters, wrapped
/// sources) and even mutable working state, but it must behave as
/// referentially transparent: the function it computes, `spec_get`, is
/// fixed by its configuration, and an evaluation never changes it. The
/// call is total for every point of the node's dimension whose state
/// satisfies `get_pre`; what an evaluation may do to the node's own state
/// beyond that is pinned down per node type by `get_post`.
pub trait NoiseFn: Sized {
    /// The length every point handed to this node must have. Fixed when
    /// the tree is composed; an evaluation never changes it.
    spec fn dim(&self) -> nat;

    /// The mathematical function this node computes: the sample it
    /// returns for each point, as determined by its configuration alone.
    spec fn spec_get(&self, point: Seq<i64>) -> i64;

    /// What this node asks of its own state before an evaluation. A node
    /// without working state asks nothing; an instrumented node may, for
    /// instance, ask that a counter has room left.
    spec fn get_pre(&self, point: Seq<i64>) -> bool;

    /// How one evaluation at `point` relates the node's state after the
    /// call (`post`) to its state before (`pre`). Each node type defines
    /// this to publish what its evaluation does beyond returning the
    /// sample: a memoizing decorator pins down its memo slot here, and a
    /// combinator passes the relation on to both of its sources.
    spec fn get_post(pre: Self, post: Self, point: Seq<i64>) -> bool;

    /// Evaluate this node at `point`.
    ///
    /// The sample returned is exactly `spec_get` of the point, and the
    /// function the node computes is the same before and after the call:
    /// evaluation may touch working state (a memo slot, a counter) but
    /// never the configuration that fixes the node's output.
    fn get(&mut self, point: &Vec<i64>) -> (value: i64)
        requires
            point@.len() == old(self).dim(),
            old(self).get_pre(point@),
        ensures
            value == old(self).spec_get(point@),
            final(self).dim() == old(self).dim(),
            forall|q: Seq<i64>| #[trigger] final(self).spec_get(q) == old(self).spec_get(q),
            Self::get_post(*old(self), *final(self), point@),
    ;
}

/// Everything one call of [`NoiseFn::get`] guarantees, gathered into a
/// single relation between the node's state before the call (`pre`), its
/// state after (`post`), the point evaluated, and the sample returned.
/// The laws about call sequences are stated over this relation.
pub open spec fn get_step<F: NoiseFn>(pre: F, post: F, point: Seq<i64>, value: i64) -> bool {
    &&& value == pre.spec_get(point)
    &&& post.dim() == pre.dim()
    &&& (forall|q: Seq<i64>| #[trigger] post.spec_get(q) == pre.spec_get(q))
    &&& F::get_post(pre, post, point)
}

/// A run of evaluations: the node `post` is reachable from `pre` by
/// evaluating the points of `points` in order, obtaining the samples of
/// `values`, one call of [`NoiseFn::get`] per point.
pub open spec fn runs<F: NoiseFn>(pre: F, post: F, points: Seq<Seq<i64>>, values: Seq<i64>) -> bool
    decreases points.len(),
{
    if points.len() == 0 {
        &&& values.len() == 0
        &&& post == pre
    } else {
        &&& values.len() == points.len()
        &&& exists|mid: F|
            {
                &&& #[trigger] get_step(pre, mid, points.first(), values.first())
                &&& runs(mid, post, points.drop_first(), values.drop_first())
            }
    }
}

/// Determinism: two trees that compute the same function — as two
/// independently constructed trees with identical structure, seeds, and
/// fractal parameters do — return identical samples for the same sequence
/// of points, however each tree's working state evolves between the
/// calls.
pub proof fn lemma_determinism<F: NoiseFn>(
    a0: F, a1: F,
    b0: F, b1: F,
    points: Seq<Seq<i64>>,
    va: Seq<i64>, vb: Seq<i64>,
)
    requires
        forall|r: Seq<i64>| #[trigger] a0.spec_get(r) == b0.spec_get(r),
        runs(a0, a1, points, va),
        runs(b0, b1, points, vb),
    ensures
        va == vb,
    decreases points.len(),
{
    if points.len() == 0 {
        assert(va =~= vb);
    } else {
        let am = choose|mid: F|
            {
                &&& #[trigger] get_step(a0, mid, points.first(), va.first())
                &&& runs(mid, a1, points.drop_first(), va.drop_first())
            };
        let bm = choose|mid: F|
            {
                &&& #[trigger] get_step(b0, mid, points.first(), vb.first())
                &&& runs(mid, b1, points.drop_first(), vb.drop_first())
            };
        assert(va.first() == vb.first());
        assert(forall|r: Seq<i64>| #[trigger] am.spec_get(r) == bm.spec_get(r));
        lemma_determinism(am, a1, bm, b1, points.drop_first(), va.drop_first(), vb.drop_first());
        assert forall|i: int| 0 <= i < va.len() implies va[i] == vb[i] by {
            if i > 0 {
                assert(va[i] == va.drop_first()[i - 1]);
                assert(vb[i] == vb.drop_first()[i - 1]);
            }
        }
        assert(va =~= vb);
    }
}

} // verus!
