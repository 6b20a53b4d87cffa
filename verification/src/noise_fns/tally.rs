//! An instrumented decorator that counts its source's evaluations.

use vstd::prelude::*;

use crate::multifractal::MultiFractal;
use crate::noise_fns::NoiseFn;
use crate::seedable::Seedable;

verus! {

/// Noise function that passes every evaluation through to its source and
/// counts how many reached it.
///
/// Wrapped around a source — under a memoizing decorator, say — it makes
/// observable how often the source was actually consulted: the counter
/// grows by exactly one per evaluation, and nothing else moves it. The
/// counter is working state; the samples, the seed, and the fractal
/// parameters are exactly the source's own, and both capabilities are
/// forwarded with the count carried through.
pub struct Tally<S> {
    /// The source every evaluation is passed to.
    pub source: S,

    /// How many evaluations have reached the source.
    pub evaluations: u64,
}

impl<S> Tally<S> {
    /// Wrap `source` with an evaluation count of zero.
    pub fn new(source: S) -> (node: Self)
        ensures
            node.source == source,
            node.evaluations == 0,
    {
        Self { source, evaluations: 0 }
    }
}

impl<S: NoiseFn> NoiseFn for Tally<S> {
    open spec fn dim(&self) -> nat {
        self.source.dim()
    }

    open spec fn spec_get(&self, point: Seq<i64>) -> i64 {
        self.source.spec_get(point)
    }

    open spec fn get_pre(&self, point: Seq<i64>) -> bool {
        &&& self.evaluations < u64::MAX
        &&& self.source.get_pre(point)
    }

    open spec fn get_post(pre: Self, post: Self, point: Seq<i64>) -> bool {
        &&& post.evaluations == pre.evaluations + 1
        &&& S::get_post(pre.source, post.source, point)
    }

    fn get(&mut self, point: &Vec<i64>) -> (value: i64) {
        self.evaluations = self.evaluations + 1;
        self.source.get(point)
    }
}

impl<S: Seedable> Seedable for Tally<S> {
    open spec fn spec_seed(&self) -> u32 {
        self.source.spec_seed()
    }

    open spec fn new_post(seed: u32, node: Self) -> bool {
        &&& node.evaluations == 0
        &&& S::new_post(seed, node.source)
    }

    open spec fn set_seed_post(pre: Self, post: Self, seed: u32) -> bool {
        &&& post.evaluations == pre.evaluations
        &&& S::set_seed_post(pre.source, post.source, seed)
    }

    fn new(seed: u32) -> Self {
        Self { source: S::new(seed), evaluations: 0 }
    }

    fn set_seed(self, seed: u32) -> Self {
        Self { source: self.source.set_seed(seed), evaluations: self.evaluations }
    }

    fn seed(&self) -> u32 {
        self.source.seed()
    }
}

impl<S: MultiFractal> MultiFractal for Tally<S> {
    open spec fn spec_octaves(&self) -> usize {
        self.source.spec_octaves()
    }

    open spec fn spec_frequency(&self) -> i64 {
        self.source.spec_frequency()
    }

    open spec fn spec_lacunarity(&self) -> i64 {
        self.source.spec_lacunarity()
    }

    open spec fn spec_persistence(&self) -> i64 {
        self.source.spec_persistence()
    }

    open spec fn set_param_post(pre: Self, post: Self) -> bool {
        &&& post.evaluations == pre.evaluations
        &&& S::set_param_post(pre.source, post.source)
    }

    fn set_octaves(self, octaves: usize) -> Self {
        Self { source: self.source.set_octaves(octaves), evaluations: self.evaluations }
    }

    fn set_frequency(self, frequency: i64) -> Self {
        Self { source: self.source.set_frequency(frequency), evaluations: self.evaluations }
    }

    fn set_lacunarity(self, lacunarity: i64) -> Self {
        Self { source: self.source.set_lacunarity(lacunarity), evaluations: self.evaluations }
    }

    fn set_persistence(self, persistence: i64) -> Self {
        Self { source: self.source.set_persistence(persistence), evaluations: self.evaluations }
    }
}

} // verus!
