use noise::Cache;
use noise::Constant;
use noise::Min;
use noise::NoiseFn;
use noise::Ramp;
use noise::Tally;

#[test]
fn min_returns_smaller_and_evaluates_both() {
    let mut combined = Min::new(
        Tally::new(Constant::new(2, 3)),
        Tally::new(Constant::new(2, 5)),
    );
    let p = vec![0i64, 0];
    assert_eq!(combined.get(&p), 3);
    assert_eq!(combined.source1.evaluations, 1);
    assert_eq!(combined.source2.evaluations, 1);
}

#[test]
fn min_evaluates_both_on_equal_outputs() {
    let mut combined = Min::new(
        Tally::new(Constant::new(2, 4)),
        Tally::new(Constant::new(2, 4)),
    );
    let p = vec![2i64, -1];
    assert_eq!(combined.get(&p), 4);
    assert_eq!(combined.source1.evaluations, 1);
    assert_eq!(combined.source2.evaluations, 1);
}

#[test]
fn min_handles_negative_samples() {
    let mut combined = Min::new(Constant::new(1, -7), Constant::new(1, 2));
    let p = vec![0i64];
    assert_eq!(combined.get(&p), -7);
}

#[test]
fn min_follows_the_pointwise_smaller_source() {
    // The ramp with seed 0 outputs its coordinate plus 3; the constant
    // outputs 10. Each source wins somewhere.
    let mut combined = Min::new(Ramp::new(1, 0), Constant::new(1, 10));
    assert_eq!(combined.get(&vec![1i64]), 4);
    assert_eq!(combined.get(&vec![50i64]), 10);
}

#[test]
fn min_keeps_its_sources() {
    let combined = Min::new(Constant::new(2, 1), Constant::new(2, 2));
    assert_eq!(combined.source1.value, 1);
    assert_eq!(combined.source2.value, 2);
}

#[test]
fn min_handles_extreme_samples() {
    let mut combined = Min::new(
        Constant::new(1, i64::MIN),
        Constant::new(1, i64::MAX),
    );
    let p = vec![0i64];
    assert_eq!(combined.get(&p), i64::MIN);
}

#[test]
fn nested_combinators_take_the_smallest() {
    let mut tree = Min::new(
        Min::new(Constant::new(2, 9), Constant::new(2, -3)),
        Constant::new(2, 5),
    );
    let p = vec![1i64, 1];
    assert_eq!(tree.get(&p), -3);
}

#[test]
fn nested_caches_memoize() {
    let mut tree = Cache::new(Cache::new(Tally::new(Ramp::new(2, 2))));
    let p = vec![3i64, -8];
    let v1 = tree.get(&p);
    let v2 = tree.get(&p);
    assert_eq!(tree.source.source.evaluations, 1);
    assert_eq!(v1, v2);
}

#[test]
fn cache_inside_a_tree_memoizes() {
    let mut tree = Min::new(
        Cache::new(Tally::new(Ramp::new(2, 1))),
        Constant::new(2, 0),
    );
    let p = vec![6i64, 7];
    let v1 = tree.get(&p);
    let v2 = tree.get(&p);
    assert_eq!(tree.source1.source.evaluations, 1);
    assert_eq!(v1, v2);
}

#[test]
fn identical_trees_agree_pointwise() {
    let mut first = Min::new(Cache::new(Ramp::new(2, 11)), Ramp::new(2, 7));
    let mut second = Min::new(Cache::new(Ramp::new(2, 11)), Ramp::new(2, 7));
    let walk = vec![
        vec![0i64, 0],
        vec![1i64, 2],
        vec![1i64, 2],
        vec![-9i64, 30],
        vec![1i64, 2],
    ];
    for p in &walk {
        assert_eq!(first.get(p), second.get(p));
    }
}
