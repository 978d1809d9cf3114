use sketch_geometry::path::{PathCommand, PathSpec, Point2D};
use sketch_geometry::polygon::{
    random_shape_builder, sampling_window, InvalidConfig, Quadrant, QuadrantPolygonGenerator,
    SampleRange, Window,
};
use sketch_geometry::random::RandomSource;

fn vertices(path: &PathSpec) -> Vec<Point2D> {
    let mut out = Vec::new();
    for command in &path.commands {
        match command {
            PathCommand::MoveTo(p) => out.push(*p),
            PathCommand::LineTo(p) => out.push(*p),
            PathCommand::QuadraticBezierTo { .. } => panic!("a polygon has no arcs"),
            PathCommand::Close => {}
        }
    }
    out
}

/// The quadrant of vertex `i` of `n`, by the quarter that `i / n` falls into.
fn bucket(i: usize, n: usize) -> u8 {
    let place = i as f64 / n as f64;
    if place <= 0.25 {
        1
    } else if place <= 0.5 {
        2
    } else if place <= 0.75 {
        3
    } else {
        4
    }
}

#[test]
fn seed_42_gives_the_reference_polygon() {
    let mut rng = RandomSource::seeded(42);
    let path = random_shape_builder(400, 300, 8, &mut rng).unwrap();
    let expected = PathSpec {
        commands: vec![
            PathCommand::MoveTo(Point2D { x: -183, y: 10 }),
            PathCommand::LineTo(Point2D { x: 339, y: 39 }),
            PathCommand::LineTo(Point2D { x: 339, y: 36 }),
            PathCommand::LineTo(Point2D { x: 202, y: -183 }),
            PathCommand::LineTo(Point2D { x: -344, y: -285 }),
            PathCommand::LineTo(Point2D { x: -364, y: -44 }),
            PathCommand::Close,
        ],
    };
    assert_eq!(path, expected);
}

#[test]
fn the_same_seed_gives_the_same_polygon() {
    for seed in 0..20u64 {
        let mut first = RandomSource::seeded(seed);
        let mut second = RandomSource::seeded(seed);
        let a = random_shape_builder(400, 300, 8, &mut first).unwrap();
        let b = random_shape_builder(400, 300, 8, &mut second).unwrap();
        assert_eq!(a, b);
    }
}

#[test]
fn different_seeds_give_different_polygons() {
    let mut first = RandomSource::seeded(1);
    let mut second = RandomSource::seeded(2);
    let a = random_shape_builder(400, 300, 8, &mut first).unwrap();
    let b = random_shape_builder(400, 300, 8, &mut second).unwrap();
    assert_ne!(a, b);
}

#[test]
fn polygon_is_one_closed_outline() {
    for seed in 0..200u64 {
        let mut rng = RandomSource::seeded(seed);
        let path = random_shape_builder(400, 300, 8, &mut rng).unwrap();
        assert!(path.is_well_formed());
        let n = path.commands.len() - 1;
        assert!(3 <= n && n <= 8, "{} vertices", n);
        assert!(matches!(path.commands[0], PathCommand::MoveTo(_)));
        for command in &path.commands[1..n] {
            assert!(matches!(command, PathCommand::LineTo(_)));
        }
        assert_eq!(path.commands[n], PathCommand::Close);
    }
}

#[test]
fn polygon_of_exactly_three_segments() {
    for seed in 0..20u64 {
        let mut rng = RandomSource::seeded(seed);
        let path = random_shape_builder(400, 300, 3, &mut rng).unwrap();
        assert_eq!(path.commands.len(), 4);
        let vs = vertices(&path);
        // 1/3, 2/3 and 3/3 fall into the second, third and fourth quarter.
        assert!(0 <= vs[0].x && vs[0].x < 400 && 0 <= vs[0].y && vs[0].y < 300);
        assert!(0 <= vs[1].x && vs[1].x < 400 && -300 <= vs[1].y && vs[1].y < 0);
        assert!(-400 <= vs[2].x && vs[2].x < 0 && -300 <= vs[2].y && vs[2].y < 0);
    }
}

#[test]
fn polygon_stays_on_the_canvas() {
    for seed in 0..200u64 {
        let mut rng = RandomSource::seeded(seed);
        let path = random_shape_builder(37, 5, 32, &mut rng).unwrap();
        assert!(path.is_within(37, 5));
        for p in vertices(&path) {
            assert!(-37 <= p.x && p.x <= 37);
            assert!(-5 <= p.y && p.y <= 5);
        }
    }
}

#[test]
fn polygon_on_the_smallest_canvas() {
    for seed in 0..50u64 {
        let mut rng = RandomSource::seeded(seed);
        let path = random_shape_builder(1, 1, 32, &mut rng).unwrap();
        assert!(path.is_well_formed());
        assert!(path.is_within(1, 1));
    }
}

#[test]
fn vertices_keep_their_direction_inside_a_quadrant() {
    for seed in 0..200u64 {
        let mut rng = RandomSource::seeded(seed);
        let path = random_shape_builder(400, 300, 32, &mut rng).unwrap();
        let vs = vertices(&path);
        let n = vs.len();
        for k in 1..n {
            let q = bucket(k + 1, n);
            if bucket(k, n) != q {
                continue;
            }
            let (prev, next) = (vs[k - 1], vs[k]);
            match q {
                1 => assert!(prev.x <= next.x && prev.y <= next.y),
                2 => assert!(prev.x <= next.x && next.y <= prev.y),
                3 => assert!(next.x <= prev.x && next.y <= prev.y),
                _ => assert!(next.x <= prev.x && prev.y <= next.y),
            }
        }
    }
}

#[test]
fn vertices_lie_in_their_quadrants() {
    for seed in 0..200u64 {
        let mut rng = RandomSource::seeded(seed);
        let path = random_shape_builder(400, 300, 32, &mut rng).unwrap();
        let vs = vertices(&path);
        let n = vs.len();
        for k in 0..n {
            let p = vs[k];
            match bucket(k + 1, n) {
                1 => assert!(-400 <= p.x && p.x <= 0 && 0 <= p.y && p.y <= 300),
                2 => assert!(0 <= p.x && p.x <= 400 && 0 <= p.y && p.y <= 300),
                3 => assert!(0 <= p.x && p.x <= 400 && -300 <= p.y && p.y <= 0),
                _ => assert!(-400 <= p.x && p.x <= 0 && -300 <= p.y && p.y <= 0),
            }
        }
    }
}

#[test]
fn too_few_segments_are_rejected() {
    let mut rng = RandomSource::seeded(7);
    assert_eq!(random_shape_builder(400, 300, 2, &mut rng), Err(InvalidConfig));
    assert_eq!(random_shape_builder(400, 300, 0, &mut rng), Err(InvalidConfig));
    assert!(QuadrantPolygonGenerator::new(400, 300, 2).is_err());
}

#[test]
fn a_canvas_without_extent_is_rejected() {
    let mut rng = RandomSource::seeded(7);
    assert_eq!(random_shape_builder(0, 300, 8, &mut rng), Err(InvalidConfig));
    assert_eq!(random_shape_builder(400, 0, 8, &mut rng), Err(InvalidConfig));
    assert_eq!(random_shape_builder(-400, 300, 8, &mut rng), Err(InvalidConfig));
    assert_eq!(random_shape_builder(400, -1, 8, &mut rng), Err(InvalidConfig));
    assert_eq!(random_shape_builder(i64::MIN, i64::MIN, 8, &mut rng), Err(InvalidConfig));
}

#[test]
fn a_rejected_configuration_draws_nothing() {
    let mut used = RandomSource::seeded(11);
    assert!(random_shape_builder(400, 300, 2, &mut used).is_err());
    let mut fresh = RandomSource::seeded(11);
    assert_eq!(used.uniform(0, 1_000_000), fresh.uniform(0, 1_000_000));
}

#[test]
fn generator_keeps_its_configuration() {
    let generator = QuadrantPolygonGenerator::new(400, 300, 8).unwrap();
    assert_eq!(generator.max_x(), 400);
    assert_eq!(generator.max_y(), 300);
    assert_eq!(generator.max_segments(), 8);
    let mut a = RandomSource::seeded(42);
    let mut b = RandomSource::seeded(42);
    assert_eq!(
        generator.generate(&mut a),
        random_shape_builder(400, 300, 8, &mut b).unwrap()
    );
}

#[test]
fn generator_accepts_the_largest_configuration() {
    let generator = QuadrantPolygonGenerator::new(i64::MAX, i64::MAX, 3).unwrap();
    let mut rng = RandomSource::seeded(3);
    let path = generator.generate(&mut rng);
    assert!(path.is_well_formed());
    assert!(path.is_within(i64::MAX, i64::MAX));
}

#[test]
fn quadrant_of_a_step() {
    // Quarter boundaries belong to the earlier quadrant.
    assert_eq!(Quadrant::of_step(1, 4), Quadrant::TopLeft);
    assert_eq!(Quadrant::of_step(2, 4), Quadrant::TopRight);
    assert_eq!(Quadrant::of_step(3, 4), Quadrant::BottomRight);
    assert_eq!(Quadrant::of_step(4, 4), Quadrant::BottomLeft);
    assert_eq!(Quadrant::of_step(1, 3), Quadrant::TopRight);
    assert_eq!(Quadrant::of_step(2, 3), Quadrant::BottomRight);
    assert_eq!(Quadrant::of_step(3, 3), Quadrant::BottomLeft);
    assert_eq!(Quadrant::of_step(2, 8), Quadrant::TopLeft);
    assert_eq!(Quadrant::of_step(3, 8), Quadrant::TopRight);
    assert_eq!(Quadrant::of_step(6, 8), Quadrant::BottomRight);
    assert_eq!(Quadrant::of_step(7, 8), Quadrant::BottomLeft);
    assert_eq!(Quadrant::of_step(u32::MAX, u32::MAX), Quadrant::BottomLeft);
    assert_eq!(Quadrant::of_step(1, u32::MAX), Quadrant::TopLeft);
}

#[test]
fn quadrant_of_a_step_agrees_with_the_quarters_of_the_unit_range() {
    for n in 1..=64usize {
        for i in 1..=n {
            assert_eq!(
                Quadrant::of_step(i as u32, n as u32).number(),
                bucket(i, n),
                "step {} of {}",
                i,
                n
            );
        }
    }
}

#[test]
fn quadrant_numbers() {
    assert_eq!(Quadrant::TopLeft.number(), 1);
    assert_eq!(Quadrant::TopRight.number(), 2);
    assert_eq!(Quadrant::BottomRight.number(), 3);
    assert_eq!(Quadrant::BottomLeft.number(), 4);
}

fn window(x: (i64, i64), y: (i64, i64)) -> Window {
    Window {
        x: SampleRange { low: x.0, high: x.1 },
        y: SampleRange { low: y.0, high: y.1 },
    }
}

#[test]
fn first_vertex_of_a_quadrant_is_drawn_from_the_whole_quadrant() {
    let last = Point2D { x: 17, y: -23 };
    assert_eq!(
        sampling_window(Quadrant::TopLeft, true, last, 400, 300),
        window((-400, 0), (0, 300))
    );
    assert_eq!(
        sampling_window(Quadrant::TopRight, true, last, 400, 300),
        window((0, 400), (0, 300))
    );
    assert_eq!(
        sampling_window(Quadrant::BottomRight, true, last, 400, 300),
        window((0, 400), (-300, 0))
    );
    assert_eq!(
        sampling_window(Quadrant::BottomLeft, true, last, 400, 300),
        window((-400, 0), (-300, 0))
    );
}

#[test]
fn later_vertices_are_drawn_beyond_their_predecessor() {
    assert_eq!(
        sampling_window(Quadrant::TopLeft, false, Point2D { x: -120, y: 40 }, 400, 300),
        window((-120, 0), (40, 300))
    );
    assert_eq!(
        sampling_window(Quadrant::TopRight, false, Point2D { x: 120, y: 40 }, 400, 300),
        window((120, 400), (0, 40))
    );
    assert_eq!(
        sampling_window(Quadrant::BottomRight, false, Point2D { x: 120, y: -40 }, 400, 300),
        window((0, 120), (-300, -40))
    );
    assert_eq!(
        sampling_window(Quadrant::BottomLeft, false, Point2D { x: -120, y: -40 }, 400, 300),
        window((-400, -120), (-40, 0))
    );
}
