//! The memoizing decorator: a node that caches the single most recent
//! sample of its wrapped source.

use vstd::prelude::*;

use crate::multifractal::MultiFractal;
use crate::noise_fns::get_step;
use crate::noise_fns::NoiseFn;
use crate::seedable::Seedable;

verus! {

/// Noise function that caches the last output value generated by the
/// source function.
///
/// If the coordinates passed to `get` are equal — component-wise and
/// exactly — to those of the previous call, the node returns the cached
/// result of that call without consulting `source`. Otherwise `source`
/// is evaluated with the new coordinates, the result overwrites the memo
/// slot, and the result is returned to the caller.
///
/// The memo is a single slot, not a map: a second distinct point always
/// evicts the first, even if the first point recurs immediately
/// afterward. Caching a noise function is useful when it feeds several
/// consumers, which would otherwise recompute the same sample once each.
///
/// Evaluation takes the node by mutable reference: the memo slot is
/// working state that every call may overwrite, and this library keeps
/// such mutation explicit in the signature rather than hiding it behind
/// an interior-mutable cell, which would also not be safe to share
/// across threads. The memo never leaks into the node's observable
/// output: `get` returns exactly what the wrapped source would.
///
/// Reseeding and fractal-parameter changes alter the function the source
/// computes, so both reset the memo to empty along with forwarding the
/// change: a value cached for the old configuration would otherwise be
/// returned stale.
#[derive(Clone, Debug)]
pub struct Cache<S> {
    /// Outputs the value to be cached.
    pub source: S,

    /// Working state: the cached sample, if any. Read it through
    /// [`Cache::memo`] in specifications; `memo_ok` ties it to the
    /// source.
    pub last_value: Option<i64>,

    /// Working state: the point the cached sample was computed for.
    /// Meaningful only while `last_value` is present.
    pub last_point: Vec<i64>,
}

impl<S> Cache<S> {
    /// The memo slot: the most recently evaluated point, paired with the
    /// value the source produced for it, or `None` when nothing has been
    /// cached since construction or since the last invalidation.
    pub open spec fn memo(&self) -> Option<(Seq<i64>, i64)> {
        match self.last_value {
            Some(value) => Some((self.last_point@, value)),
            None => None,
        }
    }

    /// Whether an evaluation at `point` would be answered from the memo
    /// slot alone, without consulting the source.
    pub open spec fn hits(&self, point: Seq<i64>) -> bool {
        match self.memo() {
            Some((cached, _)) => cached == point,
            None => false,
        }
    }

    /// Construct a cache around `source` with an empty memo.
    pub fn new(source: S) -> (cache: Self)
        ensures
            cache.source == source,
            cache.memo() is None,
    {
        Self { source, last_value: None, last_point: Vec::new() }
    }
}

impl<S: NoiseFn> Cache<S> {
    /// The memo invariant: whatever the slot holds is a point of the
    /// source's dimension together with exactly the sample the source
    /// computes for it. Every constructor establishes it (trivially, with
    /// an empty slot) and every evaluation preserves it.
    pub open spec fn memo_ok(&self) -> bool {
        match self.memo() {
            Some((cached, value)) => {
                &&& cached.len() == self.source.dim()
                &&& value == self.source.spec_get(cached)
            },
            None => true,
        }
    }
}

impl<S: NoiseFn> NoiseFn for Cache<S> {
    open spec fn dim(&self) -> nat {
        self.source.dim()
    }

    open spec fn spec_get(&self, point: Seq<i64>) -> i64 {
        self.source.spec_get(point)
    }

    open spec fn get_pre(&self, point: Seq<i64>) -> bool {
        &&& self.memo_ok()
        &&& (self.hits(point) || self.source.get_pre(point))
    }

    open spec fn get_post(pre: Self, post: Self, point: Seq<i64>) -> bool {
        &&& post.memo() == Some((point, pre.source.spec_get(point)))
        &&& post.memo_ok()
        &&& (pre.hits(point) ==> post.source == pre.source)
        &&& (!pre.hits(point) ==> S::get_post(pre.source, post.source, point))
    }

    fn get(&mut self, point: &Vec<i64>) -> (value: i64) {
        if let Some(value) = self.last_value {
            if quick_eq(&self.last_point, point) {
                return value;
            }
        }
        let value = self.source.get(point);
        let ghost source_after = self.source;
        self.last_value = Some(value);
        self.last_point.clear();
        let mut i: usize = 0;
        while i < point.len()
            invariant
                i <= point@.len(),
                self.last_point@ =~= point@.subrange(0, i as int),
                self.last_value == Some(value),
                self.source == source_after,
            decreases point@.len() - i,
        {
            self.last_point.push(point[i]);
            i = i + 1;
        }
        proof {
            assert(self.last_point@ =~= point@);
        }
        value
    }
}

impl<S: Seedable> Seedable for Cache<S> {
    open spec fn spec_seed(&self) -> u32 {
        self.source.spec_seed()
    }

    open spec fn new_post(seed: u32, node: Self) -> bool {
        &&& node.memo() is None
        &&& S::new_post(seed, node.source)
    }

    open spec fn set_seed_post(pre: Self, post: Self, seed: u32) -> bool {
        &&& post.memo() is None
        &&& S::set_seed_post(pre.source, post.source, seed)
    }

    fn new(seed: u32) -> Self {
        Self { source: S::new(seed), last_value: None, last_point: Vec::new() }
    }

    fn set_seed(self, seed: u32) -> Self {
        Self { source: self.source.set_seed(seed), last_value: None, last_point: self.last_point }
    }

    fn seed(&self) -> u32 {
        self.source.seed()
    }
}

impl<S: MultiFractal> MultiFractal for Cache<S> {
    open spec fn spec_octaves(&self) -> usize {
        self.source.spec_octaves()
    }

    open spec fn spec_frequency(&self) -> i64 {
        self.source.spec_frequency()
    }

    open spec fn spec_lacunarity(&self) -> i64 {
        self.source.spec_lacunarity()
    }

    open spec fn spec_persistence(&self) -> i64 {
        self.source.spec_persistence()
    }

    open spec fn set_param_post(pre: Self, post: Self) -> bool {
        &&& post.memo() is None
        &&& S::set_param_post(pre.source, post.source)
    }

    fn set_octaves(self, octaves: usize) -> Self {
        Self {
            source: self.source.set_octaves(octaves),
            last_value: None,
            last_point: self.last_point,
        }
    }

    fn set_frequency(self, frequency: i64) -> Self {
        Self {
            source: self.source.set_frequency(frequency),
            last_value: None,
            last_point: self.last_point,
        }
    }

    fn set_lacunarity(self, lacunarity: i64) -> Self {
        Self {
            source: self.source.set_lacunarity(lacunarity),
            last_value: None,
            last_point: self.last_point,
        }
    }

    fn set_persistence(self, persistence: i64) -> Self {
        Self {
            source: self.source.set_persistence(persistence),
            last_value: None,
            last_point: self.last_point,
        }
    }
}

/// Component-wise exact equality of two coordinate vectors of equal
/// length.
fn quick_eq(a: &Vec<i64>, b: &Vec<i64>) -> (equal: bool)
    requires
        a@.len() == b@.len(),
    ensures
        equal <==> a@ == b@,
{
    let mut i: usize = 0;
    while i < a.len()
        invariant
            i <= a@.len(),
            a@.len() == b@.len(),
            a@.subrange(0, i as int) =~= b@.subrange(0, i as int),
        decreases a@.len() - i,
    {
        if a[i] != b[i] {
            proof {
                assert(a@[i as int] != b@[i as int]);
            }
            return false;
        }
        proof {
            assert(a@.subrange(0, i + 1 as int) =~= b@.subrange(0, i + 1 as int));
        }
        i = i + 1;
    }
    proof {
        assert(a@ =~= a@.subrange(0, a@.len() as int));
        assert(b@ =~= b@.subrange(0, b@.len() as int));
    }
    true
}

/// Memoization correctness: two successive evaluations of a cache at the
/// same point return the identical value, and the second is answered from
/// the memo slot alone — the wrapped source is left untouched, so its
/// evaluation ran exactly once for the pair of calls.
pub proof fn lemma_cache_memoizes<S: NoiseFn>(
    c0: Cache<S>, c1: Cache<S>, c2: Cache<S>, point: Seq<i64>, value1: i64, value2: i64,
)
    requires
        get_step(c0, c1, point, value1),
        get_step(c1, c2, point, value2),
    ensures
        value2 == value1,
        c1.hits(point),
        c2.source == c1.source,
        c0.hits(point) ==> c1.source == c0.source,
        !c0.hits(point) ==> S::get_post(c0.source, c1.source, point),
{
}

/// Single-slot eviction: the call sequence `get(p1); get(p2); get(p1)`
/// with distinct points, begun on a cache not already holding `p1`,
/// reaches the wrapped source all three times — the intervening point
/// evicts the first, so no history of it survives to the third call.
pub proof fn lemma_single_slot_eviction<S: NoiseFn>(
    c0: Cache<S>, c1: Cache<S>, c2: Cache<S>, c3: Cache<S>,
    p1: Seq<i64>, p2: Seq<i64>,
    v1: i64, v2: i64, v3: i64,
)
    requires
        p1 != p2,
        !c0.hits(p1),
        get_step(c0, c1, p1, v1),
        get_step(c1, c2, p2, v2),
        get_step(c2, c3, p1, v3),
    ensures
        !c2.hits(p1),
        S::get_post(c0.source, c1.source, p1),
        S::get_post(c1.source, c2.source, p2),
        S::get_post(c2.source, c3.source, p1),
        v3 == v1,
{
}

/// Reseed invalidation: a reseeded cache starts with an empty memo, so
/// its next evaluation — at any point, including the one cached before
/// the reseed — recomputes from the reseeded source.
pub proof fn lemma_reseed_invalidates<S: NoiseFn + Seedable>(
    c0: Cache<S>, c1: Cache<S>, c2: Cache<S>, seed: u32, point: Seq<i64>, value: i64,
)
    requires
        <Cache<S> as Seedable>::set_seed_post(c0, c1, seed),
        get_step(c1, c2, point, value),
    ensures
        !c1.hits(point),
        S::get_post(c1.source, c2.source, point),
{
}

/// Capability forwarding: a cache reports exactly the seed and the
/// fractal parameters of the source it wraps — the decorator adds no
/// state of its own to either capability.
pub proof fn lemma_capability_forwarding<S: Seedable + MultiFractal>(cache: Cache<S>)
    ensures
        cache.spec_seed() == cache.source.spec_seed(),
        cache.spec_octaves() == cache.source.spec_octaves(),
        cache.spec_frequency() == cache.source.spec_frequency(),
        cache.spec_lacunarity() == cache.source.spec_lacunarity(),
        cache.spec_persistence() == cache.source.spec_persistence(),
{
}

} // verus!
