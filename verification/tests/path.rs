use sketch_geometry::path::{PathCommand, PathSpec, Point2D};

fn pt(x: i64, y: i64) -> Point2D {
    Point2D { x, y }
}

#[test]
fn a_triangle_is_a_closed_outline() {
    let path = PathSpec {
        commands: vec![
            PathCommand::MoveTo(pt(0, 0)),
            PathCommand::LineTo(pt(1, 0)),
            PathCommand::LineTo(pt(0, 1)),
            PathCommand::Close,
        ],
    };
    assert!(path.is_well_formed());
}

#[test]
fn one_arc_is_enough_for_a_closed_outline() {
    let path = PathSpec {
        commands: vec![
            PathCommand::MoveTo(pt(0, 0)),
            PathCommand::QuadraticBezierTo { control: pt(1, 1), end: pt(2, 0) },
            PathCommand::Close,
        ],
    };
    assert!(path.is_well_formed());
}

#[test]
fn a_path_without_draw_commands_is_not_well_formed() {
    let bare = PathSpec { commands: vec![PathCommand::MoveTo(pt(0, 0)), PathCommand::Close] };
    assert!(!bare.is_well_formed());
    assert!(!PathSpec { commands: vec![] }.is_well_formed());
    assert!(!PathSpec { commands: vec![PathCommand::Close] }.is_well_formed());
}

#[test]
fn a_path_must_start_with_move_to_and_end_with_close() {
    let no_start = PathSpec {
        commands: vec![PathCommand::LineTo(pt(0, 0)), PathCommand::LineTo(pt(1, 0)), PathCommand::Close],
    };
    assert!(!no_start.is_well_formed());
    let no_end = PathSpec {
        commands: vec![
            PathCommand::MoveTo(pt(0, 0)),
            PathCommand::LineTo(pt(1, 0)),
            PathCommand::LineTo(pt(1, 1)),
        ],
    };
    assert!(!no_end.is_well_formed());
}

#[test]
fn a_path_holds_one_move_to_and_one_close() {
    let second_start = PathSpec {
        commands: vec![
            PathCommand::MoveTo(pt(0, 0)),
            PathCommand::LineTo(pt(1, 0)),
            PathCommand::MoveTo(pt(5, 5)),
            PathCommand::LineTo(pt(1, 1)),
            PathCommand::Close,
        ],
    };
    assert!(!second_start.is_well_formed());
    let early_close = PathSpec {
        commands: vec![
            PathCommand::MoveTo(pt(0, 0)),
            PathCommand::LineTo(pt(1, 0)),
            PathCommand::Close,
            PathCommand::LineTo(pt(1, 1)),
            PathCommand::Close,
        ],
    };
    assert!(!early_close.is_well_formed());
}

#[test]
fn commands_that_draw() {
    assert!(PathCommand::LineTo(pt(1, 2)).is_draw());
    assert!(PathCommand::QuadraticBezierTo { control: pt(1, 2), end: pt(3, 4) }.is_draw());
    assert!(!PathCommand::MoveTo(pt(1, 2)).is_draw());
    assert!(!PathCommand::Close.is_draw());
}

#[test]
fn points_on_and_off_the_canvas() {
    assert!(pt(400, -300).is_within(400, 300));
    assert!(pt(-400, 300).is_within(400, 300));
    assert!(pt(0, 0).is_within(0, 0));
    assert!(!pt(401, 0).is_within(400, 300));
    assert!(!pt(0, -301).is_within(400, 300));
    assert!(!pt(i64::MIN, 0).is_within(i64::MAX, i64::MAX));
}

#[test]
fn every_point_of_a_path_counts_for_its_bounds() {
    let arc = PathCommand::QuadraticBezierTo { control: pt(9, 0), end: pt(1, 1) };
    assert!(arc.is_within(9, 1));
    assert!(!arc.is_within(8, 1));
    assert!(PathCommand::Close.is_within(0, 0));
    let path = PathSpec {
        commands: vec![PathCommand::MoveTo(pt(0, 2)), arc, PathCommand::LineTo(pt(-3, 0)), PathCommand::Close],
    };
    assert!(path.is_within(9, 2));
    assert!(!path.is_within(9, 1));
    assert!(!path.is_within(2, 2));
    assert!(PathSpec { commands: vec![] }.is_within(0, 0));
}
