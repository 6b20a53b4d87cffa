//! The combinator that outputs the smaller of its two sources' samples.

use vstd::prelude::*;

use crate::noise_fns::get_step;
use crate::noise_fns::NoiseFn;

verus! {

/// The smaller of two samples.
pub open spec fn spec_min(a: i64, b: i64) -> i64 {
    if a <= b {
        a
    } else {
        b
    }
}

/// Noise function that outputs the smaller of the two output values from
/// two source functions.
///
/// Evaluation asks both sources for their sample unconditionally — there
/// is no short-circuiting even when the first sample already decides the
/// minimum — and the node holds no working state of its own. Samples are
/// totally ordered integers, so the minimum is exact for every pair;
/// there is no incomparable case to rule on. Sibling combinators
/// (maximum, sum, product, …) share this exact shape and differ only in
/// the binary merge rule.
pub struct Min<T, U> {
    /// Outputs a value.
    pub source1: T,

    /// Outputs a value.
    pub source2: U,
}

impl<T: NoiseFn, U: NoiseFn> Min<T, U> {
    /// Take ownership of two sources of the same dimension.
    pub fn new(source1: T, source2: U) -> (combined: Self)
        requires
            source1.dim() == source2.dim(),
        ensures
            combined.source1 == source1,
            combined.source2 == source2,
    {
        Self { source1, source2 }
    }
}

impl<T: NoiseFn, U: NoiseFn> NoiseFn for Min<T, U> {
    open spec fn dim(&self) -> nat {
        self.source1.dim()
    }

    open spec fn spec_get(&self, point: Seq<i64>) -> i64 {
        spec_min(self.source1.spec_get(point), self.source2.spec_get(point))
    }

    open spec fn get_pre(&self, point: Seq<i64>) -> bool {
        &&& self.source2.dim() == self.source1.dim()
        &&& self.source1.get_pre(point)
        &&& self.source2.get_pre(point)
    }

    open spec fn get_post(pre: Self, post: Self, point: Seq<i64>) -> bool {
        &&& T::get_post(pre.source1, post.source1, point)
        &&& U::get_post(pre.source2, post.source2, point)
    }

    fn get(&mut self, point: &Vec<i64>) -> (value: i64) {
        let value1 = self.source1.get(point);
        let value2 = self.source2.get(point);
        if value1 <= value2 {
            value1
        } else {
            value2
        }
    }
}

/// Combinator correctness: one evaluation of a `Min` node returns exactly
/// the smaller of the two samples its sources held for the point, and the
/// evaluation reaches both sources — each steps by its own evaluation
/// relation — even when their samples are equal.
pub proof fn lemma_min_combines<T: NoiseFn, U: NoiseFn>(
    m0: Min<T, U>, m1: Min<T, U>, point: Seq<i64>, value: i64,
)
    requires
        get_step(m0, m1, point, value),
    ensures
        value == spec_min(m0.source1.spec_get(point), m0.source2.spec_get(point)),
        T::get_post(m0.source1, m1.source1, point),
        U::get_post(m0.source2, m1.source2, point),
{
}

} // verus!
