//! Random closed polygons that walk the four quadrants of a canvas.
//!
//! The canvas is the rectangle `[-max_x, max_x] x [-max_y, max_y]`. A polygon
//! of `n` vertices visits the quadrants in the order top left, top right,
//! bottom right, bottom left: vertex `i` (counted from 1) belongs to the
//! quarter of `(0, 1]` that holds `i / n`. The first vertex placed in a
//! quadrant is drawn from the whole quadrant. A vertex that follows another
//! in the same quadrant is drawn between its predecessor and the sides of
//! the quadrant that the walk is heading for, so that both coordinates keep
//! their direction inside a quadrant:
//!
//! | quadrant     | x           | y           |
//! |--------------|-------------|-------------|
//! | top left     | grows to 0  | grows       |
//! | top right    | grows       | falls to 0  |
//! | bottom right | falls to 0  | falls       |
//! | bottom left  | falls       | grows to 0  |

use crate::path::{closed_outline, outline_within, point_within, PathCommand, PathSpec, Point2D};
use crate::random::{safe_sample, RandomSource};
use vstd::prelude::*;

verus! {

/// A quarter of the canvas. The y axis points up.
#[derive(Clone, Copy, Debug, PartialEq, Eq, Structural)]
pub enum Quadrant {
    /// `x` in `[-max_x, 0]`, `y` in `[0, max_y]`.
    TopLeft,
    /// `x` in `[0, max_x]`, `y` in `[0, max_y]`.
    TopRight,
    /// `x` in `[0, max_x]`, `y` in `[-max_y, 0]`.
    BottomRight,
    /// `x` in `[-max_x, 0]`, `y` in `[-max_y, 0]`.
    BottomLeft,
}

/// The generator was asked for fewer than three segments, or for a canvas
/// without extent.
#[derive(Clone, Copy, Debug, PartialEq, Eq)]
pub struct InvalidConfig;

/// A range to draw one coordinate from: `low..high`, or `high` alone where
/// `low >= high`.
#[derive(Clone, Copy, Debug, PartialEq, Eq, Structural)]
pub struct SampleRange {
    pub low: i64,
    pub high: i64,
}

/// The ranges to draw the two coordinates of one vertex from.
#[derive(Clone, Copy, Debug, PartialEq, Eq, Structural)]
pub struct Window {
    pub x: SampleRange,
    pub y: SampleRange,
}

/// What makes a configuration acceptable: at least three segments and a
/// canvas that extends in both directions.
pub open spec fn valid_config(max_x: i64, max_y: i64, max_segments: u32) -> bool {
    max_x > 0 && max_y > 0 && max_segments >= 3
}

/// The quadrant of vertex `i` of `n`, counted from 1: the quarter of `(0, 1]`
/// that holds `i / n`.
pub open spec fn quadrant_of(i: int, n: int) -> Quadrant {
    if 4 * i <= n {
        Quadrant::TopLeft
    } else if 4 * i <= 2 * n {
        Quadrant::TopRight
    } else if 4 * i <= 3 * n {
        Quadrant::BottomRight
    } else {
        Quadrant::BottomLeft
    }
}

/// Whether `p` lies in quadrant `q` of the canvas, sides included.
pub open spec fn in_quadrant(q: Quadrant, p: Point2D, max_x: i64, max_y: i64) -> bool {
    match q {
        Quadrant::TopLeft => -max_x <= p.x <= 0 && 0 <= p.y <= max_y,
        Quadrant::TopRight => 0 <= p.x <= max_x && 0 <= p.y <= max_y,
        Quadrant::BottomRight => 0 <= p.x <= max_x && -max_y <= p.y <= 0,
        Quadrant::BottomLeft => -max_x <= p.x <= 0 && -max_y <= p.y <= 0,
    }
}

/// Whether the step from `prev` to `next` keeps the direction that quadrant
/// `q` gives to each coordinate.
pub open spec fn advances(q: Quadrant, prev: Point2D, next: Point2D) -> bool {
    match q {
        Quadrant::TopLeft => prev.x <= next.x && prev.y <= next.y,
        Quadrant::TopRight => prev.x <= next.x && next.y <= prev.y,
        Quadrant::BottomRight => next.x <= prev.x && next.y <= prev.y,
        Quadrant::BottomLeft => next.x <= prev.x && prev.y <= next.y,
    }
}

/// The ranges for a vertex in quadrant `q`. Where the vertex is the first in
/// its quadrant (`fresh`), they span the quadrant; otherwise `last`, the
/// vertex before it, replaces the side that the walk is leaving.
pub open spec fn window_of(q: Quadrant, fresh: bool, last: Point2D, max_x: i64, max_y: i64)
    -> Window {
    let left = (-max_x) as i64;
    let bottom = (-max_y) as i64;
    match q {
        Quadrant::TopLeft => Window {
            x: SampleRange { low: if fresh { left } else { last.x }, high: 0 },
            y: SampleRange { low: if fresh { 0 } else { last.y }, high: max_y },
        },
        Quadrant::TopRight => Window {
            x: SampleRange { low: if fresh { 0 } else { last.x }, high: max_x },
            y: SampleRange { low: 0, high: if fresh { max_y } else { last.y } },
        },
        Quadrant::BottomRight => Window {
            x: SampleRange { low: 0, high: if fresh { max_x } else { last.x } },
            y: SampleRange { low: bottom, high: if fresh { 0 } else { last.y } },
        },
        Quadrant::BottomLeft => Window {
            x: SampleRange { low: left, high: if fresh { 0 } else { last.x } },
            y: SampleRange { low: if fresh { bottom } else { last.y }, high: 0 },
        },
    }
}

/// Whether `p` may have been drawn from the window `w`.
pub open spec fn in_window(p: Point2D, w: Window) -> bool {
    &&& safe_sample(w.x.low as int, w.x.high as int, p.x as int)
    &&& safe_sample(w.y.low as int, w.y.high as int, p.y as int)
}

/// Whether vertex `k` of `vs` (counted from 0) may have been drawn in a walk
/// of `n` vertices: it lies in the window that its quadrant and the vertex
/// before it give.
pub open spec fn step_ok(vs: Seq<Point2D>, k: int, n: int, max_x: i64, max_y: i64) -> bool {
    let q = quadrant_of(k + 1, n);
    let fresh = k == 0 || quadrant_of(k, n) != q;
    let last = if k == 0 {
        Point2D { x: 0, y: 0 }
    } else {
        vs[k - 1]
    };
    in_window(vs[k], window_of(q, fresh, last, max_x, max_y))
}

/// Whether `vs` may be the first vertices of a walk of `n` vertices.
pub open spec fn walk_prefix(vs: Seq<Point2D>, n: int, max_x: i64, max_y: i64) -> bool {
    &&& vs.len() <= n
    &&& forall|k: int| 0 <= k < vs.len() ==> #[trigger] step_ok(vs, k, n, max_x, max_y)
}

/// Whether `vs` may be the vertices of one whole walk round the canvas.
pub open spec fn valid_walk(vs: Seq<Point2D>, max_x: i64, max_y: i64) -> bool {
    walk_prefix(vs, vs.len() as int, max_x, max_y)
}

/// The record that drawing `value` from the range `r` leaves: one entry, or
/// none where the range is empty and nothing is drawn.
pub open spec fn range_record(r: SampleRange, value: i64) -> Seq<(i64, i64, i64)> {
    if r.low < r.high {
        seq![(r.low, r.high, value)]
    } else {
        Seq::empty()
    }
}

/// The record that vertex `k` of `vs` (counted from 0) leaves in a walk of
/// `n` vertices: the draw of its `x`, then the draw of its `y`.
pub open spec fn step_record(vs: Seq<Point2D>, k: int, n: int, max_x: i64, max_y: i64) -> Seq<
    (i64, i64, i64),
> {
    let q = quadrant_of(k + 1, n);
    let fresh = k == 0 || quadrant_of(k, n) != q;
    let last = if k == 0 {
        Point2D { x: 0, y: 0 }
    } else {
        vs[k - 1]
    };
    let w = window_of(q, fresh, last, max_x, max_y);
    range_record(w.x, vs[k].x) + range_record(w.y, vs[k].y)
}

/// The record that the vertices `vs` leave together in a walk of `n`
/// vertices, in the order of the vertices.
pub open spec fn walk_record(vs: Seq<Point2D>, n: int, max_x: i64, max_y: i64) -> Seq<
    (i64, i64, i64),
>
    decreases vs.len(),
{
    if vs.len() == 0 {
        Seq::empty()
    } else {
        walk_record(vs.drop_last(), n, max_x, max_y) + step_record(
            vs,
            vs.len() - 1,
            n,
            max_x,
            max_y,
        )
    }
}

/// The point at which a command leaves the pen. `Close` has none of its own
/// and stands for the origin.
pub open spec fn end_point(c: PathCommand) -> Point2D {
    match c {
        PathCommand::MoveTo(p) => p,
        PathCommand::LineTo(p) => p,
        PathCommand::QuadraticBezierTo { control, end } => end,
        PathCommand::Close => Point2D { x: 0, y: 0 },
    }
}

/// The vertices of a polygon outline: the end points of all commands but
/// the trailing `Close`.
pub open spec fn polygon_vertices(cmds: Seq<PathCommand>) -> Seq<Point2D> {
    Seq::new((cmds.len() - 1) as nat, |i: int| end_point(cmds[i]))
}

/// The outline of the polygon with vertices `vs`: `MoveTo` the first,
/// `LineTo` each of the others in turn, then `Close`.
pub open spec fn polygon_outline(vs: Seq<Point2D>) -> Seq<PathCommand> {
    Seq::new(
        vs.len() + 1,
        |i: int|
            if i == 0 {
                PathCommand::MoveTo(vs[0])
            } else if i < vs.len() {
                PathCommand::LineTo(vs[i])
            } else {
                PathCommand::Close
            },
    )
}

/// Whether consecutive vertices of `vs` that share a quadrant keep that
/// quadrant's direction on both axes.
pub open spec fn walk_monotone(vs: Seq<Point2D>) -> bool {
    forall|k: int|
        0 < k < vs.len() && quadrant_of(k, vs.len() as int) == quadrant_of(k + 1, vs.len() as int)
            ==> advances(quadrant_of(k + 1, vs.len() as int), vs[k - 1], #[trigger] vs[k])
}

/// Every vertex of a walk lies in the quadrant that its place in the walk
/// assigns to it.
pub proof fn lemma_walk_stays_in_quadrant(
    vs: Seq<Point2D>,
    n: int,
    max_x: i64,
    max_y: i64,
    k: int,
)
    requires
        max_x > 0,
        max_y > 0,
        walk_prefix(vs, n, max_x, max_y),
        0 <= k < vs.len(),
    ensures
        in_quadrant(quadrant_of(k + 1, n), vs[k], max_x, max_y),
    decreases k,
{
    assert(step_ok(vs, k, n, max_x, max_y));
    if k > 0 && quadrant_of(k, n) == quadrant_of(k + 1, n) {
        lemma_walk_stays_in_quadrant(vs, n, max_x, max_y, k - 1);
    }
}

/// Every vertex of a walk lies on the canvas,
/// `[-max_x, max_x] x [-max_y, max_y]`.
pub proof fn lemma_walk_within_bounds(vs: Seq<Point2D>, max_x: i64, max_y: i64)
    requires
        max_x > 0,
        max_y > 0,
        valid_walk(vs, max_x, max_y),
    ensures
        forall|k: int| 0 <= k < vs.len() ==> point_within(#[trigger] vs[k], max_x as int, max_y as int),
{
    assert forall|k: int| 0 <= k < vs.len() implies point_within(
        #[trigger] vs[k],
        max_x as int,
        max_y as int,
    ) by {
        lemma_walk_stays_in_quadrant(vs, vs.len() as int, max_x, max_y, k);
    }
}

/// Between two consecutive vertices of a walk that share a quadrant, neither
/// coordinate moves against the direction that the quadrant gives it.
pub proof fn lemma_walk_monotone(vs: Seq<Point2D>, max_x: i64, max_y: i64)
    requires
        max_x > 0,
        max_y > 0,
        valid_walk(vs, max_x, max_y),
    ensures
        walk_monotone(vs),
{
    let n = vs.len() as int;
    assert forall|k: int| 0 < k < vs.len() && quadrant_of(k, n) == quadrant_of(k + 1, n) implies advances(
        quadrant_of(k + 1, n),
        vs[k - 1],
        #[trigger] vs[k],
    ) by {
        assert(step_ok(vs, k, n, max_x, max_y));
        lemma_walk_stays_in_quadrant(vs, n, max_x, max_y, k - 1);
    }
}

/// A walk costs at most two draws for each vertex.
pub proof fn lemma_walk_record_bound(vs: Seq<Point2D>, n: int, max_x: i64, max_y: i64)
    ensures
        walk_record(vs, n, max_x, max_y).len() <= 2 * vs.len(),
    decreases vs.len(),
{
    if vs.len() > 0 {
        lemma_walk_record_bound(vs.drop_last(), n, max_x, max_y);
    }
}

/// The record of the first `k` vertices of a walk opens the record of the
/// whole walk.
pub proof fn lemma_walk_record_prefix(vs: Seq<Point2D>, n: int, max_x: i64, max_y: i64, k: int)
    requires
        0 <= k <= vs.len(),
    ensures
        walk_record(vs.take(k), n, max_x, max_y).is_prefix_of(walk_record(vs, n, max_x, max_y)),
    decreases vs.len(),
{
    if k == vs.len() {
        assert(vs.take(k) =~= vs);
    } else {
        lemma_walk_record_prefix(vs.drop_last(), n, max_x, max_y, k);
        assert(vs.drop_last().take(k) =~= vs.take(k));
    }
}

/// Two walks of one length on one canvas that left the same record agree in
/// their first `k` vertices.
pub proof fn lemma_walk_prefix_fixed_by_record(
    a: Seq<Point2D>,
    b: Seq<Point2D>,
    n: int,
    max_x: i64,
    max_y: i64,
    k: int,
)
    requires
        a.len() == b.len(),
        walk_prefix(a, n, max_x, max_y),
        walk_prefix(b, n, max_x, max_y),
        walk_record(a, n, max_x, max_y) == walk_record(b, n, max_x, max_y),
        0 <= k <= a.len(),
    ensures
        a.take(k) == b.take(k),
    decreases k,
{
    if k == 0 {
        assert(a.take(0) =~= b.take(0));
    } else {
        let j = k - 1;
        lemma_walk_prefix_fixed_by_record(a, b, n, max_x, max_y, j);
        assert(j > 0 ==> a[j - 1] == a.take(j)[j - 1] && b[j - 1] == b.take(j)[j - 1]);
        let q = quadrant_of(j + 1, n);
        let fresh = j == 0 || quadrant_of(j, n) != q;
        let last = if j == 0 {
            Point2D { x: 0, y: 0 }
        } else {
            a[j - 1]
        };
        let w = window_of(q, fresh, last, max_x, max_y);
        let whole = walk_record(a, n, max_x, max_y);
        let shared = walk_record(a.take(j), n, max_x, max_y);
        let of_a = walk_record(a.take(k), n, max_x, max_y);
        let of_b = walk_record(b.take(k), n, max_x, max_y);
        lemma_walk_record_prefix(a, n, max_x, max_y, k);
        lemma_walk_record_prefix(b, n, max_x, max_y, k);
        assert(a.take(k).drop_last() =~= a.take(j));
        assert(b.take(k).drop_last() =~= b.take(j));
        assert(of_a == shared + step_record(a.take(k), j, n, max_x, max_y));
        assert(of_b == shared + step_record(b.take(k), j, n, max_x, max_y));
        assert(step_record(a.take(k), j, n, max_x, max_y) == range_record(w.x, a[j].x)
            + range_record(w.y, a[j].y));
        assert(step_record(b.take(k), j, n, max_x, max_y) == range_record(w.x, b[j].x)
            + range_record(w.y, b[j].y));
        assert(step_ok(a, j, n, max_x, max_y));
        assert(step_ok(b, j, n, max_x, max_y));
        let at = shared.len() as int;
        if w.x.low < w.x.high {
            assert(of_a[at] == (w.x.low, w.x.high, a[j].x));
            assert(of_b[at] == (w.x.low, w.x.high, b[j].x));
            assert(of_a[at] == whole[at] && of_b[at] == whole[at]);
            if w.y.low < w.y.high {
                assert(of_a[at + 1] == (w.y.low, w.y.high, a[j].y));
                assert(of_b[at + 1] == (w.y.low, w.y.high, b[j].y));
                assert(of_a[at + 1] == whole[at + 1] && of_b[at + 1] == whole[at + 1]);
            }
        } else if w.y.low < w.y.high {
            assert(of_a[at] == (w.y.low, w.y.high, a[j].y));
            assert(of_b[at] == (w.y.low, w.y.high, b[j].y));
            assert(of_a[at] == whole[at] && of_b[at] == whole[at]);
        }
        assert(a[j] == b[j]);
        assert(a.take(k) =~= a.take(j).push(a[j]));
        assert(b.take(k) =~= b.take(j).push(b[j]));
    }
}

/// A polygon is fixed by its canvas, the number of its vertices and the
/// values drawn for it: two walks of one length on one canvas that left the
/// same record are the same walk.
pub proof fn lemma_walk_fixed_by_record(a: Seq<Point2D>, b: Seq<Point2D>, max_x: i64, max_y: i64)
    requires
        a.len() == b.len(),
        valid_walk(a, max_x, max_y),
        valid_walk(b, max_x, max_y),
        walk_record(a, a.len() as int, max_x, max_y) == walk_record(
            b,
            b.len() as int,
            max_x,
            max_y,
        ),
    ensures
        a == b,
{
    lemma_walk_prefix_fixed_by_record(a, b, a.len() as int, max_x, max_y, a.len() as int);
    assert(a.take(a.len() as int) =~= a);
    assert(b.take(b.len() as int) =~= b);
}

/// The outline of a walk is closed and lies on the canvas.
pub proof fn lemma_polygon_outline_closed(vs: Seq<Point2D>, max_x: i64, max_y: i64)
    requires
        max_x > 0,
        max_y > 0,
        vs.len() >= 2,
        valid_walk(vs, max_x, max_y),
    ensures
        closed_outline(polygon_outline(vs)),
        outline_within(polygon_outline(vs), max_x as int, max_y as int),
        polygon_vertices(polygon_outline(vs)) == vs,
{
    let cmds = polygon_outline(vs);
    lemma_walk_within_bounds(vs, max_x, max_y);
    assert(cmds[0] is MoveTo);
    assert(cmds[cmds.len() - 1] is Close);
    assert(polygon_vertices(cmds) =~= vs);
}

impl Quadrant {
    /// The quadrant of vertex `i` of `n`, counted from 1.
    pub fn of_step(i: u32, n: u32) -> (q: Quadrant)
        ensures
            q == quadrant_of(i as int, n as int),
    {
        let place: u64 = 4 * (i as u64);
        let whole: u64 = n as u64;
        if place <= whole {
            Quadrant::TopLeft
        } else if place <= 2 * whole {
            Quadrant::TopRight
        } else if place <= 3 * whole {
            Quadrant::BottomRight
        } else {
            Quadrant::BottomLeft
        }
    }

    /// The number of the quadrant in the order of the walk, from 1 to 4.
    pub fn number(&self) -> (k: u8)
        ensures
            k == match *self {
                Quadrant::TopLeft => 1u8,
                Quadrant::TopRight => 2u8,
                Quadrant::BottomRight => 3u8,
                Quadrant::BottomLeft => 4u8,
            },
    {
        match self {
            Quadrant::TopLeft => 1,
            Quadrant::TopRight => 2,
            Quadrant::BottomRight => 3,
            Quadrant::BottomLeft => 4,
        }
    }
}

/// The ranges to draw a vertex of quadrant `q` from; see [`window_of`].
pub fn sampling_window(q: Quadrant, fresh: bool, last: Point2D, max_x: i64, max_y: i64) -> (w:
    Window)
    requires
        max_x > 0,
        max_y > 0,
    ensures
        w == window_of(q, fresh, last, max_x, max_y),
{
    let left: i64 = -max_x;
    let bottom: i64 = -max_y;
    match q {
        Quadrant::TopLeft => Window {
            x: SampleRange { low: if fresh { left } else { last.x }, high: 0 },
            y: SampleRange { low: if fresh { 0 } else { last.y }, high: max_y },
        },
        Quadrant::TopRight => Window {
            x: SampleRange { low: if fresh { 0 } else { last.x }, high: max_x },
            y: SampleRange { low: 0, high: if fresh { max_y } else { last.y } },
        },
        Quadrant::BottomRight => Window {
            x: SampleRange { low: 0, high: if fresh { max_x } else { last.x } },
            y: SampleRange { low: bottom, high: if fresh { 0 } else { last.y } },
        },
        Quadrant::BottomLeft => Window {
            x: SampleRange { low: left, high: if fresh { 0 } else { last.x } },
            y: SampleRange { low: if fresh { bottom } else { last.y }, high: 0 },
        },
    }
}

/// A validated configuration of the polygon generator.
pub struct QuadrantPolygonGenerator {
    max_x: i64,
    max_y: i64,
    max_segments: u32,
}

impl QuadrantPolygonGenerator {
    #[verifier::type_invariant]
    spec fn inv(self) -> bool {
        valid_config(self.max_x, self.max_y, self.max_segments)
    }

    /// Half the width of the canvas.
    pub closed spec fn spec_max_x(&self) -> i64 {
        self.max_x
    }

    /// Half the height of the canvas.
    pub closed spec fn spec_max_y(&self) -> i64 {
        self.max_y
    }

    /// The largest number of vertices of a polygon.
    pub closed spec fn spec_max_segments(&self) -> u32 {
        self.max_segments
    }

    /// A generator for the canvas `[-max_x, max_x] x [-max_y, max_y]` and
    /// polygons of 3 to `max_segments` vertices. Fails where the canvas has
    /// no extent or `max_segments` is under 3.
    pub fn new(max_x: i64, max_y: i64, max_segments: u32) -> (made: Result<
        QuadrantPolygonGenerator,
        InvalidConfig,
    >)
        ensures
            made is Ok <==> valid_config(max_x, max_y, max_segments),
            made matches Ok(g) ==> g.spec_max_x() == max_x && g.spec_max_y() == max_y
                && g.spec_max_segments() == max_segments,
    {
        if max_x <= 0 || max_y <= 0 || max_segments < 3 {
            return Err(InvalidConfig);
        }
        Ok(QuadrantPolygonGenerator { max_x, max_y, max_segments })
    }

    /// Half the width of the canvas.
    #[verifier::when_used_as_spec(spec_max_x)]
    pub fn max_x(&self) -> (r: i64)
        ensures
            r == self.spec_max_x(),
            r > 0,
    {
        proof {
            use_type_invariant(self);
        }
        self.max_x
    }

    /// Half the height of the canvas.
    #[verifier::when_used_as_spec(spec_max_y)]
    pub fn max_y(&self) -> (r: i64)
        ensures
            r == self.spec_max_y(),
            r > 0,
    {
        proof {
            use_type_invariant(self);
        }
        self.max_y
    }

    /// The largest number of vertices of a polygon.
    #[verifier::when_used_as_spec(spec_max_segments)]
    pub fn max_segments(&self) -> (r: u32)
        ensures
            r == self.spec_max_segments(),
            r >= 3,
    {
        proof {
            use_type_invariant(self);
        }
        self.max_segments
    }

    /// Draws one closed polygon.
    ///
    /// The number of vertices is drawn from `3..=max_segments`, then the two
    /// coordinates of each vertex in turn. A coordinate whose range is empty
    /// takes the end of the range and costs no draw.
    pub fn generate(&self, rng: &mut RandomSource) -> (path: PathSpec)
        ensures
            path@ == polygon_outline(polygon_vertices(path@)),
            3 <= polygon_vertices(path@).len() <= self.max_segments(),
            valid_walk(polygon_vertices(path@), self.max_x(), self.max_y()),
            walk_monotone(polygon_vertices(path@)),
            path.well_formed(),
            outline_within(path@, self.max_x() as int, self.max_y() as int),
            final(rng).drawn() == old(rng).drawn().push(
                (3i64, (self.max_segments() + 1) as i64, polygon_vertices(path@).len() as i64),
            ) + walk_record(
                polygon_vertices(path@),
                polygon_vertices(path@).len() as int,
                self.max_x(),
                self.max_y(),
            ),
            final(rng).draws() <= old(rng).draws() + 1 + 2 * polygon_vertices(path@).len(),
    {
        proof {
            use_type_invariant(self);
        }
        let max_x = self.max_x;
        let max_y = self.max_y;
        let n: u32 = rng.uniform(3, self.max_segments as i64 + 1) as u32;
        let mut commands: Vec<PathCommand> = Vec::new();
        let mut last = Point2D { x: 0, y: 0 };
        let ghost mut vs: Seq<Point2D> = Seq::empty();
        let mut k: u32 = 0;
        while k < n
            invariant
                max_x > 0,
                max_y > 0,
                0 <= k <= n,
                vs.len() == k,
                commands@.len() == k,
                walk_prefix(vs, n as int, max_x, max_y),
                k > 0 ==> last == vs[k - 1],
                k > 0 ==> commands@[0] == PathCommand::MoveTo(vs[0]),
                forall|j: int| 0 < j < k ==> commands@[j] == PathCommand::LineTo(vs[j]),
                rng.drawn() == old(rng).drawn().push(
                    (3i64, (self.max_segments + 1) as i64, n as i64),
                ) + walk_record(vs, n as int, max_x, max_y),
            decreases n - k,
        {
            let q = Quadrant::of_step(k + 1, n);
            let fresh = k == 0 || Quadrant::of_step(k, n) != q;
            let w = sampling_window(q, fresh, last, max_x, max_y);
            let ghost before = rng.drawn();
            let x = rng.sample_safely(w.x.low, w.x.high);
            let y = rng.sample_safely(w.y.low, w.y.high);
            let p = Point2D { x, y };
            if k == 0 {
                commands.push(PathCommand::MoveTo(p));
            } else {
                commands.push(PathCommand::LineTo(p));
            }
            proof {
                let grown = vs.push(p);
                assert forall|j: int| 0 <= j < grown.len() implies #[trigger] step_ok(
                    grown,
                    j,
                    n as int,
                    max_x,
                    max_y,
                ) by {
                    if j < vs.len() {
                        assert(step_ok(vs, j, n as int, max_x, max_y));
                    }
                }
                assert(grown.drop_last() =~= vs);
                assert(rng.drawn() =~= before + step_record(grown, k as int, n as int, max_x, max_y));
                assert(rng.drawn() =~= old(rng).drawn().push(
                    (3i64, (self.max_segments + 1) as i64, n as i64),
                ) + walk_record(grown, n as int, max_x, max_y));
                vs = grown;
            }
            last = p;
            k += 1;
        }
        commands.push(PathCommand::Close);
        let path = PathSpec { commands };
        proof {
            assert(polygon_vertices(path@) =~= vs);
            assert(path@ =~= polygon_outline(vs));
            lemma_walk_monotone(vs, max_x, max_y);
            lemma_walk_record_bound(vs, n as int, max_x, max_y);
            lemma_polygon_outline_closed(vs, max_x, max_y);
        }
        path
    }
}

/// Draws one closed polygon on the canvas `[-max_x, max_x] x [-max_y, max_y]`
/// with 3 to `max_segments` vertices, or fails, before anything is drawn,
/// where the configuration is not valid.
pub fn random_shape_builder(max_x: i64, max_y: i64, max_segments: u32, rng: &mut RandomSource) -> (made:
    Result<PathSpec, InvalidConfig>)
    ensures
        made is Ok <==> valid_config(max_x, max_y, max_segments),
        made is Err ==> *final(rng) == *old(rng),
        made matches Ok(path) ==> {
            &&& path@ == polygon_outline(polygon_vertices(path@))
            &&& 3 <= polygon_vertices(path@).len() <= max_segments
            &&& valid_walk(polygon_vertices(path@), max_x, max_y)
            &&& walk_monotone(polygon_vertices(path@))
            &&& path.well_formed()
            &&& outline_within(path@, max_x as int, max_y as int)
            &&& final(rng).drawn() == old(rng).drawn().push(
                (3i64, (max_segments + 1) as i64, polygon_vertices(path@).len() as i64),
            ) + walk_record(
                polygon_vertices(path@),
                polygon_vertices(path@).len() as int,
                max_x,
                max_y,
            )
            &&& final(rng).draws() <= old(rng).draws() + 1 + 2 * polygon_vertices(path@).len()
        },
{
    match QuadrantPolygonGenerator::new(max_x, max_y, max_segments) {
        Ok(generator) => Ok(generator.generate(rng)),
        Err(e) => Err(e),
    }
}

} // verus!
