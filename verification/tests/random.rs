use sketch_geometry::random::RandomSource;

#[test]
fn an_empty_range_gives_its_upper_end() {
    let mut rng = RandomSource::seeded(0);
    assert_eq!(rng.sample_safely(5, 5), 5);
    assert_eq!(rng.sample_safely(5, 3), 3);
    assert_eq!(rng.sample_safely(i64::MAX, i64::MIN), i64::MIN);
    assert_eq!(rng.sample_safely(0, 0), 0);
}

#[test]
fn an_empty_range_costs_no_draw() {
    let mut guarded = RandomSource::seeded(9);
    assert_eq!(guarded.sample_safely(5, 5), 5);
    assert_eq!(guarded.sample_safely(5, 3), 3);
    let mut fresh = RandomSource::seeded(9);
    assert_eq!(guarded.uniform(0, 1_000_000), fresh.uniform(0, 1_000_000));
}

#[test]
fn a_range_of_one_value_gives_that_value() {
    let mut rng = RandomSource::seeded(1);
    for _ in 0..50 {
        assert_eq!(rng.uniform(7, 8), 7);
        assert_eq!(rng.sample_safely(-3, -2), -3);
    }
}

#[test]
fn draws_stay_in_their_range() {
    let mut rng = RandomSource::seeded(3);
    for _ in 0..1000 {
        let r = rng.uniform(-10, 10);
        assert!(-10 <= r && r < 10);
        let s = rng.sample_safely(100, 103);
        assert!(100 <= s && s < 103);
    }
}

#[test]
fn draws_cover_their_range() {
    let mut rng = RandomSource::seeded(4);
    let mut seen = [false; 8];
    for _ in 0..1000 {
        let r = rng.uniform(-4, 4);
        seen[(r + 4) as usize] = true;
    }
    assert_eq!(seen, [true; 8]);
}

#[test]
fn draws_from_the_whole_integer_range() {
    let mut rng = RandomSource::seeded(5);
    let mut negative = false;
    let mut positive = false;
    for _ in 0..200 {
        let r = rng.uniform(i64::MIN, i64::MAX);
        assert!(r < i64::MAX);
        negative |= r < 0;
        positive |= r > 0;
    }
    assert!(negative && positive);
}

#[test]
fn a_seed_fixes_the_stream() {
    let mut a = RandomSource::seeded(42);
    let mut b = RandomSource::seeded(42);
    let mut c = RandomSource::seeded(43);
    let first: Vec<i64> = (0..16).map(|_| a.uniform(0, 1_000_000)).collect();
    let second: Vec<i64> = (0..16).map(|_| b.uniform(0, 1_000_000)).collect();
    let third: Vec<i64> = (0..16).map(|_| c.uniform(0, 1_000_000)).collect();
    assert_eq!(first, second);
    assert_ne!(first, third);
}
