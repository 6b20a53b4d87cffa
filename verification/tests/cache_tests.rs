use noise::Cache;
use noise::MultiFractal;
use noise::NoiseFn;
use noise::Ramp;
use noise::Seedable;
use noise::Tally;

#[test]
fn ramp_sample_formula() {
    let mut ramp = Ramp::new(2, 3);
    let p = vec![5i64, 9];
    // seed offset 3 * 1_000_003, coordinates 5 + 9, lacunarity 2, persistence 1
    assert_eq!(ramp.get(&p), 3_000_026);
}

#[test]
fn memoization_evaluates_source_once() {
    let mut cache = Cache::new(Tally::new(Ramp::new(3, 3)));
    let p = vec![1i64, -2, 5];
    let v1 = cache.get(&p);
    let v2 = cache.get(&p);
    assert_eq!(cache.source.evaluations, 1);
    assert_eq!(v1, v2);
}

#[test]
fn single_slot_eviction_recomputes() {
    let mut cache = Cache::new(Tally::new(Ramp::new(2, 3)));
    let p1 = vec![0i64, 0];
    let p2 = vec![0i64, 1];
    let a = cache.get(&p1);
    let _ = cache.get(&p2);
    let b = cache.get(&p1);
    assert_eq!(cache.source.evaluations, 3);
    assert_eq!(a, b);
}

#[test]
fn cache_is_referentially_transparent() {
    let mut plain = Ramp::new(2, 8);
    let mut cache = Cache::new(Ramp::new(2, 8));
    let walk = vec![vec![1i64, 2], vec![3i64, 4], vec![1i64, 2], vec![1i64, 2]];
    for p in &walk {
        assert_eq!(cache.get(p), plain.get(p));
    }
}

#[test]
fn zero_dimensional_points_cache() {
    let mut cache = Cache::new(Tally::new(Ramp::new(0, 1)));
    let p: Vec<i64> = vec![];
    let v1 = cache.get(&p);
    let v2 = cache.get(&p);
    assert_eq!(cache.source.evaluations, 1);
    assert_eq!(v1, v2);
}

#[test]
fn reseed_resets_memo_and_forwards() {
    let mut cache = Cache::new(Tally::new(Ramp::new(1, 3)));
    let p = vec![4i64];
    let before = cache.get(&p);
    assert_eq!(cache.source.evaluations, 1);
    let mut cache = cache.set_seed(9);
    assert_eq!(cache.seed(), 9);
    assert_eq!(cache.source.source.seed, 9);
    let after = cache.get(&p);
    assert_eq!(cache.source.evaluations, 2);
    assert_ne!(before, after);
}

#[test]
fn seedable_construction_forwards() {
    let cache: Cache<Tally<Ramp>> = Seedable::new(5);
    assert_eq!(cache.seed(), 5);
    assert_eq!(cache.source.evaluations, 0);
    assert_eq!(cache.source.source.seed, 5);
    assert_eq!(cache.source.source.dimensions, 3);
    assert_eq!(cache.source.source.octaves, 1);
    assert_eq!(cache.source.source.frequency, 1);
    assert_eq!(cache.source.source.lacunarity, 2);
    assert_eq!(cache.source.source.persistence, 1);
}

#[test]
fn fractal_parameters_forward_to_source() {
    let cache = Cache::new(Ramp::new(2, 3)).set_octaves(6);
    assert_eq!(cache.source.octaves, 6);
    let cache = cache.set_frequency(10).set_lacunarity(3).set_persistence(4);
    assert_eq!(cache.source.frequency, 10);
    assert_eq!(cache.source.lacunarity, 3);
    assert_eq!(cache.source.persistence, 4);
    assert_eq!(cache.source.octaves, 6);
    assert_eq!(cache.source.seed, 3);
}

#[test]
fn fractal_parameter_change_invalidates_memo() {
    let mut cache = Cache::new(Tally::new(Ramp::new(1, 3)));
    let p = vec![2i64];
    let before = cache.get(&p);
    let mut cache = cache.set_frequency(7);
    let after = cache.get(&p);
    assert_eq!(cache.source.evaluations, 2);
    assert_ne!(before, after);
}
