//! Leaf generators: concrete sources at the bottom of a composed tree.
//!
//! Real gradient, value, or cellular kernels plug into the composition
//! machinery through the same traits. The leaves here are minimal, fully
//! specified stand-ins: enough to compose, reseed, and tune a tree end to
//! end without pulling in a whole noise kernel.

use vstd::prelude::*;

use crate::multifractal::MultiFractal;
use crate::noise_fns::NoiseFn;
use crate::seedable::Seedable;

verus! {

/// Noise function that outputs a constant value, whatever the point.
pub struct Constant {
    /// The number of coordinates a point must have.
    pub dimensions: usize,

    /// The value to output.
    pub value: i64,
}

impl Constant {
    /// Construct a constant source of the given dimension.
    pub fn new(dimensions: usize, value: i64) -> (node: Self)
        ensures
            node.dimensions == dimensions,
            node.value == value,
    {
        Self { dimensions, value }
    }
}

impl NoiseFn for Constant {
    open spec fn dim(&self) -> nat {
        self.dimensions as nat
    }

    open spec fn spec_get(&self, point: Seq<i64>) -> i64 {
        self.value
    }

    open spec fn get_pre(&self, point: Seq<i64>) -> bool {
        true
    }

    open spec fn get_post(pre: Self, post: Self, point: Seq<i64>) -> bool {
        post == pre
    }

    fn get(&mut self, point: &Vec<i64>) -> (value: i64) {
        self.value
    }
}

/// The octave count a fresh [`Ramp`] starts with.
pub const DEFAULT_OCTAVES: usize = 1;

/// The frequency a fresh [`Ramp`] starts with.
pub const DEFAULT_FREQUENCY: i64 = 1;

/// The lacunarity a fresh [`Ramp`] starts with.
pub const DEFAULT_LACUNARITY: i64 = 2;

/// The persistence a fresh [`Ramp`] starts with.
pub const DEFAULT_PERSISTENCE: i64 = 1;

/// The dimension of a [`Ramp`] constructed through the [`Seedable`]
/// capability alone.
pub const DEFAULT_DIMENSIONS: usize = 3;

/// The frequency-scaled, wrapping sum of a point's coordinates: the
/// point-dependent part of a [`Ramp`] sample.
pub open spec fn ramp_fold(point: Seq<i64>, frequency: i64) -> i64
    decreases point.len(),
{
    if point.len() == 0 {
        0
    } else {
        ramp_fold(point.drop_last(), frequency).wrapping_add(point.last().wrapping_mul(frequency))
    }
}

/// A minimal leaf generator: a seeded linear ramp over the coordinates.
///
/// The sample is a wrapping sum of a seed-derived offset, the coordinates
/// scaled by the frequency, and the lacunarity and persistence offsets —
/// deterministic, total, and cheap. The ramp carries the full fractal
/// parameter set so that decorators have something to forward to; being
/// a single-pass ramp rather than a true multi-octave kernel, it stores
/// the octave count without letting it enter the sample.
pub struct Ramp {
    /// The number of coordinates a point must have.
    pub dimensions: usize,

    /// The seed the sample offset is derived from.
    pub seed: u32,

    /// The configured octave count; carried for forwarding.
    pub octaves: usize,

    /// The factor each coordinate is scaled by.
    pub frequency: i64,

    /// A constant offset standing in for a frequency multiplier.
    pub lacunarity: i64,

    /// A constant offset standing in for an amplitude attenuation.
    pub persistence: i64,
}

impl Ramp {
    /// The sample this ramp computes for a point.
    pub open spec fn spec_sample(self, point: Seq<i64>) -> i64 {
        (self.seed as i64).wrapping_mul(1_000_003).wrapping_add(
            ramp_fold(point, self.frequency),
        ).wrapping_add(self.lacunarity).wrapping_add(self.persistence)
    }

    /// Construct a ramp of the given dimension with the default fractal
    /// parameters.
    pub fn new(dimensions: usize, seed: u32) -> (node: Self)
        ensures
            node == (Ramp {
                dimensions,
                seed,
                octaves: DEFAULT_OCTAVES,
                frequency: DEFAULT_FREQUENCY,
                lacunarity: DEFAULT_LACUNARITY,
                persistence: DEFAULT_PERSISTENCE,
            }),
    {
        Self {
            dimensions,
            seed,
            octaves: DEFAULT_OCTAVES,
            frequency: DEFAULT_FREQUENCY,
            lacunarity: DEFAULT_LACUNARITY,
            persistence: DEFAULT_PERSISTENCE,
        }
    }
}

impl NoiseFn for Ramp {
    open spec fn dim(&self) -> nat {
        self.dimensions as nat
    }

    open spec fn spec_get(&self, point: Seq<i64>) -> i64 {
        self.spec_sample(point)
    }

    open spec fn get_pre(&self, point: Seq<i64>) -> bool {
        true
    }

    open spec fn get_post(pre: Self, post: Self, point: Seq<i64>) -> bool {
        post == pre
    }

    fn get(&mut self, point: &Vec<i64>) -> (value: i64) {
        let mut acc: i64 = 0;
        let mut i: usize = 0;
        while i < point.len()
            invariant
                i <= point@.len(),
                acc == ramp_fold(point@.subrange(0, i as int), self.frequency),
                self == old(self),
            decreases point@.len() - i,
        {
            acc = acc.wrapping_add(point[i].wrapping_mul(self.frequency));
            proof {
                let grown = point@.subrange(0, i + 1);
                assert(grown.drop_last() =~= point@.subrange(0, i as int));
                assert(grown.last() == point@[i as int]);
            }
            i = i + 1;
        }
        proof {
            assert(point@.subrange(0, point@.len() as int) =~= point@);
        }
        (self.seed as i64).wrapping_mul(1_000_003).wrapping_add(acc).wrapping_add(
            self.lacunarity,
        ).wrapping_add(self.persistence)
    }
}

impl Seedable for Ramp {
    open spec fn spec_seed(&self) -> u32 {
        self.seed
    }

    open spec fn new_post(seed: u32, node: Self) -> bool {
        node == (Ramp {
            dimensions: DEFAULT_DIMENSIONS,
            seed,
            octaves: DEFAULT_OCTAVES,
            frequency: DEFAULT_FREQUENCY,
            lacunarity: DEFAULT_LACUNARITY,
            persistence: DEFAULT_PERSISTENCE,
        })
    }

    open spec fn set_seed_post(pre: Self, post: Self, seed: u32) -> bool {
        post == (Ramp { seed, ..pre })
    }

    fn new(seed: u32) -> Self {
        Ramp::new(DEFAULT_DIMENSIONS, seed)
    }

    fn set_seed(self, seed: u32) -> Self {
        Self { seed, ..self }
    }

    fn seed(&self) -> u32 {
        self.seed
    }
}

impl MultiFractal for Ramp {
    open spec fn spec_octaves(&self) -> usize {
        self.octaves
    }

    open spec fn spec_frequency(&self) -> i64 {
        self.frequency
    }

    open spec fn spec_lacunarity(&self) -> i64 {
        self.lacunarity
    }

    open spec fn spec_persistence(&self) -> i64 {
        self.persistence
    }

    open spec fn set_param_post(pre: Self, post: Self) -> bool {
        &&& post.seed == pre.seed
        &&& post.dimensions == pre.dimensions
    }

    fn set_octaves(self, octaves: usize) -> Self {
        Self { octaves, ..self }
    }

    fn set_frequency(self, frequency: i64) -> Self {
        Self { frequency, ..self }
    }

    fn set_lacunarity(self, lacunarity: i64) -> Self {
        Self { lacunarity, ..self }
    }

    fn set_persistence(self, persistence: i64) -> Self {
        Self { persistence, ..self }
    }
}

} // verus!
