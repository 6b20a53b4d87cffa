//! The fractal-parameter capability a node type may support.

use vstd::prelude::*;

verus! {

/// The multi-octave fractal capability: four tuning parameters — octave
/// count, frequency, lacunarity, and persistence — each adjusted by a
/// consuming, fluent setter.
///
/// This layer consumes the parameters opaquely: what they mean is the
/// concrete generator's business. Each setter is total, replaces exactly
/// the parameter it names, and carries every other parameter through
/// unchanged. A decorator implements the trait by forwarding each setter
/// to its wrapped source; what a node type guarantees about its own state
/// across a setter is pinned down by `set_param_post`.
pub trait MultiFractal: Sized {
    /// The number of octaves the node is configured with.
    spec fn spec_octaves(&self) -> usize;

    /// The frequency of the first octave.
    spec fn spec_frequency(&self) -> i64;

    /// The frequency multiplier between successive octaves.
    spec fn spec_lacunarity(&self) -> i64;

    /// The amplitude attenuation between successive octaves.
    spec fn spec_persistence(&self) -> i64;

    /// How a node returned by any of the four setters (`post`) relates to
    /// the node the setter consumed (`pre`), beyond the parameters
    /// themselves: a decorator states here that the change reached its
    /// source and that state derived from the old source has been
    /// dropped, since the changed parameter alters the source's output.
    spec fn set_param_post(pre: Self, post: Self) -> bool;

    /// Consume this node and produce one configured with `octaves`.
    fn set_octaves(self, octaves: usize) -> (node: Self)
        ensures
            node.spec_octaves() == octaves,
            node.spec_frequency() == self.spec_frequency(),
            node.spec_lacunarity() == self.spec_lacunarity(),
            node.spec_persistence() == self.spec_persistence(),
            Self::set_param_post(self, node),
    ;

    /// Consume this node and produce one configured with `frequency`.
    fn set_frequency(self, frequency: i64) -> (node: Self)
        ensures
            node.spec_frequency() == frequency,
            node.spec_octaves() == self.spec_octaves(),
            node.spec_lacunarity() == self.spec_lacunarity(),
            node.spec_persistence() == self.spec_persistence(),
            Self::set_param_post(self, node),
    ;

    /// Consume this node and produce one configured with `lacunarity`.
    fn set_lacunarity(self, lacunarity: i64) -> (node: Self)
        ensures
            node.spec_lacunarity() == lacunarity,
            node.spec_octaves() == self.spec_octaves(),
            node.spec_frequency() == self.spec_frequency(),
            node.spec_persistence() == self.spec_persistence(),
            Self::set_param_post(self, node),
    ;

    /// Consume this node and produce one configured with `persistence`.
    fn set_persistence(self, persistence: i64) -> (node: Self)
        ensures
            node.spec_persistence() == persistence,
            node.spec_octaves() == self.spec_octaves(),
            node.spec_frequency() == self.spec_frequency(),
            node.spec_lacunarity() == self.spec_lacunarity(),
            Self::set_param_post(self, node),
    ;
}

} // verus!
