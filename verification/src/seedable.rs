//! The reseeding capability a node type may support.

use vstd::prelude::*;

verus! {

/// The reseeding capability: a node parameterized by a 32-bit seed.
///
/// Construction and reseeding are total and infallible. A decorator that
/// wraps a seedable source implements this trait by routing both to the
/// source, and must not retain derived state that the new seed makes
/// stale; what a node type guarantees there beyond the seed itself is
/// pinned down by `new_post` and `set_seed_post`.
pub trait Seedable: Sized {
    /// The seed the node currently carries.
    spec fn spec_seed(&self) -> u32;

    /// What a freshly constructed node guarantees beyond carrying `seed`:
    /// a decorator states here that its own working state starts empty
    /// and that its source is itself freshly constructed from `seed`.
    spec fn new_post(seed: u32, node: Self) -> bool;

    /// How a reseeded node (`post`) relates to the node it was made from
    /// (`pre`), beyond carrying `seed`: a decorator states here that the
    /// reseed reached its source and that any state derived from the old
    /// source has been dropped.
    spec fn set_seed_post(pre: Self, post: Self, seed: u32) -> bool;

    /// Construct a fresh instance parameterized by `seed`.
    fn new(seed: u32) -> (node: Self)
        ensures
            node.spec_seed() == seed,
            Self::new_post(seed, node),
    ;

    /// Consume this node and produce one reseeded with `seed`.
    fn set_seed(self, seed: u32) -> (node: Self)
        ensures
            node.spec_seed() == seed,
            Self::set_seed_post(self, node, seed),
    ;

    /// Report the current seed.
    fn seed(&self) -> (s: u32)
        ensures
            s == self.spec_seed(),
    ;
}

} // verus!
