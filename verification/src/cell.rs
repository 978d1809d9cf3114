//! An organic cell outline of four quadratic Bezier arcs.
//!
//! Each arc has a control point and a radius. Both drift toward targets at
//! a limited speed ([`tick`]); from time to time new targets and speeds are
//! drawn at random ([`retarget`]). All values are fixed-point numbers with
//! [`UNIT`] units to one canvas pixel.

use crate::path::{closed_outline, PathCommand, PathSpec, Point2D};
use crate::random::RandomSource;
use vstd::prelude::*;

verus! {

/// The number of units in one canvas pixel.
pub const UNIT: i64 = 1_000;

/// The least value of either coordinate of a control point target.
pub const CELL_CTRL_MIN: i64 = 100_000;

/// The bound below which either coordinate of a control point target stays.
pub const CELL_CTRL_MAX: i64 = 250_000;

/// The least radius of an arc.
pub const CELL_MIN_RADIUS: i64 = 100_000;

/// The least speed, in units per tick.
pub const CELL_MIN_SPEED: i64 = 1_000;

/// The bound below which the speed of a radius stays.
pub const CELL_MAX_SPEED: i64 = 4_000;

/// The bound below which the speed of a control point stays: half of
/// [`CELL_MAX_SPEED`].
pub const CELL_MAX_CTRL_SPEED: i64 = 2_000;

/// The largest coordinate of a control point for which the largest radius is
/// still representable.
pub const COORD_MAX: i64 = 0x3FFF_FFFF_FFFF_FFFF;

/// The index of the right top arc.
pub const CELL_SEG_RT: usize = 0;

/// The index of the right bottom arc.
pub const CELL_SEG_RB: usize = 1;

/// The index of the left bottom arc.
pub const CELL_SEG_LB: usize = 2;

/// The index of the left top arc.
pub const CELL_SEG_LT: usize = 3;

/// How the largest radius of an arc follows from its control point.
#[derive(Clone, Copy, Debug, PartialEq, Eq, Structural)]
pub enum MaxRadiusMode {
    /// 110% of the smaller coordinate of the control point.
    Tight,
    /// Two thirds of the sum of the coordinates of the control point.
    Loose,
}

/// One of the four arcs of a cell.
#[derive(Clone, Copy, Debug, PartialEq, Eq, Structural)]
pub struct CellSegment {
    pub ctrl: Point2D,
    pub ctrl_target: Point2D,
    pub ctrl_speed: i64,
    pub radius: i64,
    pub radius_target: i64,
    pub radius_speed: i64,
    pub max_radius_mode: MaxRadiusMode,
}

/// A cell: four arcs, indexed by [`CELL_SEG_RT`], [`CELL_SEG_RB`],
/// [`CELL_SEG_LB`] and [`CELL_SEG_LT`].
#[derive(Clone, Copy, Debug, PartialEq, Eq)]
pub struct Cell {
    pub segments: [CellSegment; 4],
}

/// The value one step after `current` on the way to `target`: `speed` closer,
/// but never past the target.
pub open spec fn next_location(current: int, target: int, speed: int) -> int {
    if current < target {
        if current + speed > target {
            target
        } else {
            current + speed
        }
    } else if current > target {
        if current - speed < target {
            target
        } else {
            current - speed
        }
    } else {
        current
    }
}

/// The largest radius that the control point `ctrl` would allow, before the
/// floor of [`max_radius_of`] is applied.
pub open spec fn raw_max_radius(ctrl: Point2D, mode: MaxRadiusMode) -> int {
    match mode {
        MaxRadiusMode::Tight => (if ctrl.x > ctrl.y {
            ctrl.y
        } else {
            ctrl.x
        }) * 11 / 10,
        MaxRadiusMode::Loose => (ctrl.x + ctrl.y) * 2 / 3,
    }
}

/// The largest radius of an arc with control point `ctrl`. Where the control
/// point would allow no more than [`CELL_MIN_RADIUS`], the result is one
/// pixel above it, so that `CELL_MIN_RADIUS..max_radius_of(..)` is never
/// empty.
pub open spec fn max_radius_of(ctrl: Point2D, mode: MaxRadiusMode) -> int {
    let raw = raw_max_radius(ctrl, mode);
    if raw <= CELL_MIN_RADIUS {
        CELL_MIN_RADIUS + UNIT
    } else {
        raw
    }
}

/// Whether `next` moved from `current` toward `target` by at most `speed`
/// without passing the target.
pub open spec fn rate_limited(current: int, target: int, speed: int, next: int) -> bool {
    &&& -speed <= next - current <= speed
    &&& current <= target ==> current <= next <= target
    &&& target <= current ==> target <= next <= current
}

/// Whether `after` is what [`CellSegment::retarget`] may make of `before`:
/// the control point, the radius and the mode stay, the speeds and targets
/// are drawn afresh within their bounds, and the new radius target stays
/// under the largest radius of `before`.
pub open spec fn retargeted(before: CellSegment, after: CellSegment) -> bool {
    &&& after.ctrl == before.ctrl
    &&& after.radius == before.radius
    &&& after.max_radius_mode == before.max_radius_mode
    &&& CELL_MIN_SPEED <= after.radius_speed < CELL_MAX_SPEED
    &&& CELL_MIN_SPEED <= after.ctrl_speed < CELL_MAX_CTRL_SPEED
    &&& CELL_CTRL_MIN <= after.ctrl_target.x < CELL_CTRL_MAX
    &&& CELL_CTRL_MIN <= after.ctrl_target.y < CELL_CTRL_MAX
    &&& CELL_MIN_RADIUS <= after.radius_target < max_radius_of(before.ctrl, before.max_radius_mode)
}

/// The record that [`CellSegment::retarget`] leaves when it makes `after` of
/// `before`: the five draws and what each of them became.
pub open spec fn segment_record(before: CellSegment, after: CellSegment) -> Seq<(i64, i64, i64)> {
    seq![
        (CELL_MIN_SPEED, CELL_MAX_SPEED, after.radius_speed),
        (CELL_MIN_SPEED, CELL_MAX_CTRL_SPEED, after.ctrl_speed),
        (CELL_CTRL_MIN, CELL_CTRL_MAX, after.ctrl_target.x),
        (CELL_CTRL_MIN, CELL_CTRL_MAX, after.ctrl_target.y),
        (
            CELL_MIN_RADIUS,
            max_radius_of(before.ctrl, before.max_radius_mode) as i64,
            after.radius_target,
        ),
    ]
}

/// The record that [`retarget`] leaves for the first `count` segments when
/// it makes `after` of `before`: their records in the order of the segments.
pub open spec fn retarget_record(before: Cell, after: Cell, count: int) -> Seq<(i64, i64, i64)>
    decreases count,
{
    if count <= 0 {
        Seq::empty()
    } else {
        retarget_record(before, after, count - 1) + segment_record(
            before.segments[count - 1],
            after.segments[count - 1],
        )
    }
}

/// The segment that a new cell is made of.
pub open spec fn initial_segment(mode: MaxRadiusMode) -> CellSegment {
    CellSegment {
        ctrl: Point2D { x: CELL_CTRL_MIN, y: CELL_CTRL_MIN },
        ctrl_target: Point2D { x: CELL_CTRL_MIN, y: CELL_CTRL_MIN },
        ctrl_speed: CELL_MIN_SPEED,
        radius: CELL_MIN_RADIUS,
        radius_target: CELL_MIN_RADIUS,
        radius_speed: CELL_MIN_SPEED,
        max_radius_mode: mode,
    }
}

/// The outline of a cell: from the top of the cell clockwise through the
/// right, bottom and left ends of its arcs, each arc bulging toward its
/// control point, mirrored into its own quadrant.
pub open spec fn cell_outline(cell: Cell) -> Seq<PathCommand> {
    let rt = cell.segments[CELL_SEG_RT as int];
    let rb = cell.segments[CELL_SEG_RB as int];
    let lb = cell.segments[CELL_SEG_LB as int];
    let lt = cell.segments[CELL_SEG_LT as int];
    seq![
        PathCommand::MoveTo(Point2D { x: 0, y: lt.radius }),
        PathCommand::QuadraticBezierTo {
            control: Point2D { x: rt.ctrl.x, y: rt.ctrl.y },
            end: Point2D { x: rt.radius, y: 0 },
        },
        PathCommand::QuadraticBezierTo {
            control: Point2D { x: rb.ctrl.x, y: (-rb.ctrl.y) as i64 },
            end: Point2D { x: 0, y: (-rb.radius) as i64 },
        },
        PathCommand::QuadraticBezierTo {
            control: Point2D { x: (-lb.ctrl.x) as i64, y: (-lb.ctrl.y) as i64 },
            end: Point2D { x: (-lb.radius) as i64, y: 0 },
        },
        PathCommand::QuadraticBezierTo {
            control: Point2D { x: (-lt.ctrl.x) as i64, y: lt.ctrl.y },
            end: Point2D { x: 0, y: lt.radius },
        },
        PathCommand::Close,
    ]
}

/// A step toward the target changes a value by at most `speed` and never
/// carries it past the target.
pub proof fn lemma_next_location_rate_limited(current: int, target: int, speed: int)
    requires
        speed >= 0,
    ensures
        rate_limited(current, target, speed, next_location(current, target, speed)),
{
}

/// A value that has reached its target stays where it is, whatever its speed.
pub proof fn lemma_next_location_at_target(current: int, speed: int)
    ensures
        next_location(current, current, speed) == current,
{
}

/// The largest radius is always more than [`CELL_MIN_RADIUS`].
pub proof fn lemma_max_radius_above_floor(ctrl: Point2D, mode: MaxRadiusMode)
    ensures
        max_radius_of(ctrl, mode) > CELL_MIN_RADIUS,
{
}

/// Above the floor, a control point that is no smaller on either axis allows
/// a radius that is no smaller.
pub proof fn lemma_max_radius_monotone(a: Point2D, b: Point2D, mode: MaxRadiusMode)
    requires
        raw_max_radius(a, mode) > CELL_MIN_RADIUS,
        a.x <= b.x,
        a.y <= b.y,
    ensures
        max_radius_of(a, mode) <= max_radius_of(b, mode),
{
}

/// A control point in the band that targets are drawn from allows more than
/// [`CELL_MIN_RADIUS`] by itself: the floor is not in play there.
pub proof fn lemma_floor_idle_in_band(ctrl: Point2D, mode: MaxRadiusMode)
    requires
        CELL_CTRL_MIN <= ctrl.x,
        CELL_CTRL_MIN <= ctrl.y,
    ensures
        raw_max_radius(ctrl, mode) > CELL_MIN_RADIUS,
        max_radius_of(ctrl, mode) == raw_max_radius(ctrl, mode),
{
}

/// Where the floor is not in play and the control point is not on its way
/// inward, a step keeps the radius and its target within the largest radius
/// that the control point allows.
pub proof fn lemma_step_keeps_radius_bound(seg: CellSegment)
    requires
        seg.well_formed(),
        raw_max_radius(seg.ctrl, seg.max_radius_mode) > CELL_MIN_RADIUS,
        seg.ctrl.x <= seg.ctrl_target.x,
        seg.ctrl.y <= seg.ctrl_target.y,
        seg.radius <= seg.max_radius(),
        seg.radius_target <= seg.max_radius(),
    ensures
        seg.stepped().radius <= seg.stepped().max_radius(),
        seg.stepped().radius_target <= seg.stepped().max_radius(),
        CELL_MIN_RADIUS <= seg.stepped().radius,
{
    lemma_next_location_rate_limited(
        seg.ctrl.x as int,
        seg.ctrl_target.x as int,
        seg.ctrl_speed as int,
    );
    lemma_next_location_rate_limited(
        seg.ctrl.y as int,
        seg.ctrl_target.y as int,
        seg.ctrl_speed as int,
    );
    lemma_next_location_rate_limited(
        seg.radius as int,
        seg.radius_target as int,
        seg.radius_speed as int,
    );
    lemma_max_radius_monotone(seg.ctrl, seg.stepped().ctrl, seg.max_radius_mode);
}

/// Drawing new targets keeps the radius within the largest radius that the
/// control point allows, and puts the new radius target under it.
pub proof fn lemma_retarget_keeps_radius_bound(before: CellSegment, after: CellSegment)
    requires
        retargeted(before, after),
        before.radius <= before.max_radius(),
    ensures
        after.radius <= after.max_radius(),
        after.radius_target < after.max_radius(),
{
}

/// The record of the first `count` segments does not depend on the segments
/// that come after them, and holds five draws for each.
pub proof fn lemma_retarget_record_prefix(before: Cell, a: Cell, b: Cell, count: int)
    requires
        0 <= count <= 4,
        forall|j: int| 0 <= j < count ==> a.segments[j] == b.segments[j],
    ensures
        retarget_record(before, a, count) == retarget_record(before, b, count),
        retarget_record(before, a, count).len() == 5 * count,
    decreases count,
{
    if count > 0 {
        lemma_retarget_record_prefix(before, a, b, count - 1);
    }
}

/// A retargeted segment is fixed by the segment before and the values drawn
/// for it.
pub proof fn lemma_retarget_fixed_by_record(before: CellSegment, a: CellSegment, b: CellSegment)
    requires
        retargeted(before, a),
        retargeted(before, b),
        segment_record(before, a) == segment_record(before, b),
    ensures
        a == b,
{
    let of_a = segment_record(before, a);
    let of_b = segment_record(before, b);
    assert(of_a[0] == of_b[0]);
    assert(of_a[1] == of_b[1]);
    assert(of_a[2] == of_b[2]);
    assert(of_a[3] == of_b[3]);
    assert(of_a[4] == of_b[4]);
}

/// The value one step after `current` on the way to `target`.
pub fn get_next_location(current: i64, target: i64, speed: i64) -> (next: i64)
    requires
        speed >= 0,
    ensures
        next == next_location(current as int, target as int, speed as int),
{
    if current == target {
        return current;
    }
    if current < target {
        let next_location: i128 = current as i128 + speed as i128;
        if next_location > target as i128 {
            return target;
        }
        next_location as i64
    } else {
        let next_location: i128 = current as i128 - speed as i128;
        if next_location < target as i128 {
            return target;
        }
        next_location as i64
    }
}

impl CellSegment {
    /// The invariant of a segment: the control point and its target are not
    /// negative and not beyond [`COORD_MAX`], the radius and its target are
    /// at least [`CELL_MIN_RADIUS`], and the speeds are not negative.
    pub open spec fn well_formed(&self) -> bool {
        &&& 0 <= self.ctrl.x <= COORD_MAX
        &&& 0 <= self.ctrl.y <= COORD_MAX
        &&& 0 <= self.ctrl_target.x <= COORD_MAX
        &&& 0 <= self.ctrl_target.y <= COORD_MAX
        &&& CELL_MIN_RADIUS <= self.radius
        &&& CELL_MIN_RADIUS <= self.radius_target
        &&& 0 <= self.ctrl_speed
        &&& 0 <= self.radius_speed
    }

    /// Whether the control point and the radius have reached their targets.
    pub open spec fn at_target(&self) -> bool {
        self.ctrl == self.ctrl_target && self.radius == self.radius_target
    }

    /// Whether the control point and its target lie in the band that targets
    /// are drawn from, `CELL_CTRL_MIN..CELL_CTRL_MAX` on both axes.
    pub open spec fn in_band(&self) -> bool {
        &&& CELL_CTRL_MIN <= self.ctrl.x < CELL_CTRL_MAX
        &&& CELL_CTRL_MIN <= self.ctrl.y < CELL_CTRL_MAX
        &&& CELL_CTRL_MIN <= self.ctrl_target.x < CELL_CTRL_MAX
        &&& CELL_CTRL_MIN <= self.ctrl_target.y < CELL_CTRL_MAX
    }

    /// The segment after one step of its control point and its radius toward
    /// their targets.
    pub open spec fn stepped(&self) -> CellSegment {
        CellSegment {
            ctrl: Point2D {
                x: next_location(
                    self.ctrl.x as int,
                    self.ctrl_target.x as int,
                    self.ctrl_speed as int,
                ) as i64,
                y: next_location(
                    self.ctrl.y as int,
                    self.ctrl_target.y as int,
                    self.ctrl_speed as int,
                ) as i64,
            },
            radius: next_location(
                self.radius as int,
                self.radius_target as int,
                self.radius_speed as int,
            ) as i64,
            ..*self
        }
    }

    /// Whether the control point and the radius can be mirrored to the other
    /// side of an axis: none of them is the least integer, which has no
    /// negative.
    pub open spec fn mirrorable(&self) -> bool {
        self.ctrl.x > i64::MIN && self.ctrl.y > i64::MIN && self.radius > i64::MIN
    }

    /// The largest radius that the segment's control point allows.
    pub open spec fn max_radius(&self) -> int {
        max_radius_of(self.ctrl, self.max_radius_mode)
    }

    /// A segment at rest at the least control point and radius.
    pub fn new(mode: MaxRadiusMode) -> (seg: CellSegment)
        ensures
            seg == initial_segment(mode),
            seg.well_formed(),
            seg.in_band(),
            seg.at_target(),
    {
        CellSegment {
            ctrl: Point2D { x: CELL_CTRL_MIN, y: CELL_CTRL_MIN },
            ctrl_target: Point2D { x: CELL_CTRL_MIN, y: CELL_CTRL_MIN },
            ctrl_speed: CELL_MIN_SPEED,
            radius: CELL_MIN_RADIUS,
            radius_target: CELL_MIN_RADIUS,
            radius_speed: CELL_MIN_SPEED,
            max_radius_mode: mode,
        }
    }

    /// A new segment in [`MaxRadiusMode::Tight`].
    pub fn tight() -> (seg: CellSegment)
        ensures
            seg == initial_segment(MaxRadiusMode::Tight),
    {
        CellSegment::new(MaxRadiusMode::Tight)
    }

    /// Tests the invariant of the segment.
    pub fn is_well_formed(&self) -> (b: bool)
        ensures
            b == self.well_formed(),
    {
        0 <= self.ctrl.x && self.ctrl.x <= COORD_MAX && 0 <= self.ctrl.y && self.ctrl.y
            <= COORD_MAX && 0 <= self.ctrl_target.x && self.ctrl_target.x <= COORD_MAX && 0
            <= self.ctrl_target.y && self.ctrl_target.y <= COORD_MAX && CELL_MIN_RADIUS
            <= self.radius && CELL_MIN_RADIUS <= self.radius_target && 0 <= self.ctrl_speed && 0
            <= self.radius_speed
    }

    /// The largest radius that the control point allows in the segment's
    /// mode, never less than one pixel above [`CELL_MIN_RADIUS`].
    pub fn get_max_radius(&self) -> (max_radius: i64)
        requires
            self.ctrl.x <= COORD_MAX,
            self.ctrl.y <= COORD_MAX,
        ensures
            max_radius == self.max_radius(),
            max_radius > CELL_MIN_RADIUS,
    {
        match self.max_radius_mode {
            MaxRadiusMode::Loose => self.get_looser_max_radius(),
            MaxRadiusMode::Tight => {
                let smaller: i64 = if self.ctrl.x > self.ctrl.y {
                    self.ctrl.y
                } else {
                    self.ctrl.x
                };
                if smaller <= 0 {
                    return CELL_MIN_RADIUS + UNIT;
                }
                let max_radius: i64 = (smaller as u128 * 11 / 10) as i64;
                if max_radius <= CELL_MIN_RADIUS {
                    return CELL_MIN_RADIUS + UNIT;
                }
                max_radius
            },
        }
    }

    /// The largest radius that the control point allows in
    /// [`MaxRadiusMode::Loose`], whatever the segment's own mode.
    pub fn get_looser_max_radius(&self) -> (max_radius: i64)
        requires
            self.ctrl.x <= COORD_MAX,
            self.ctrl.y <= COORD_MAX,
        ensures
            max_radius == max_radius_of(self.ctrl, MaxRadiusMode::Loose),
            max_radius > CELL_MIN_RADIUS,
    {
        let sum: i128 = self.ctrl.x as i128 + self.ctrl.y as i128;
        if sum <= 0 {
            return CELL_MIN_RADIUS + UNIT;
        }
        let max_radius: i64 = (sum as u128 * 2 / 3) as i64;
        if max_radius <= CELL_MIN_RADIUS {
            return CELL_MIN_RADIUS + UNIT;
        }
        max_radius
    }

    /// Moves the control point and the radius one step toward their targets.
    pub fn step(&mut self)
        requires
            old(self).ctrl_speed >= 0,
            old(self).radius_speed >= 0,
        ensures
            *final(self) == old(self).stepped(),
            old(self).well_formed() ==> final(self).well_formed(),
            old(self).in_band() ==> final(self).in_band(),
            old(self).at_target() ==> *final(self) == *old(self),
    {
        self.ctrl.x = get_next_location(self.ctrl.x, self.ctrl_target.x, self.ctrl_speed);
        self.ctrl.y = get_next_location(self.ctrl.y, self.ctrl_target.y, self.ctrl_speed);
        self.radius = get_next_location(self.radius, self.radius_target, self.radius_speed);
    }

    /// Draws new speeds and targets: the speed of the radius, the speed of
    /// the control point, the two coordinates of the control point's target,
    /// and a radius target under the largest radius that the control point
    /// allows at this moment.
    pub fn retarget(&mut self, rng: &mut RandomSource)
        requires
            old(self).ctrl.x <= COORD_MAX,
            old(self).ctrl.y <= COORD_MAX,
        ensures
            retargeted(*old(self), *final(self)),
            old(self).well_formed() ==> final(self).well_formed(),
            old(self).in_band() ==> final(self).in_band(),
            final(rng).drawn() == old(rng).drawn() + segment_record(*old(self), *final(self)),
    {
        self.radius_speed = rng.uniform(CELL_MIN_SPEED, CELL_MAX_SPEED);
        self.ctrl_speed = rng.uniform(CELL_MIN_SPEED, CELL_MAX_CTRL_SPEED);
        self.ctrl_target.x = rng.uniform(CELL_CTRL_MIN, CELL_CTRL_MAX);
        self.ctrl_target.y = rng.uniform(CELL_CTRL_MIN, CELL_CTRL_MAX);
        let max_radius = self.get_max_radius();
        self.radius_target = rng.uniform(CELL_MIN_RADIUS, max_radius);
        assert(rng.drawn() =~= old(rng).drawn() + segment_record(*old(self), *self));
    }
}

impl Default for CellSegment {
    /// A new segment in [`MaxRadiusMode::Loose`].
    fn default() -> (seg: CellSegment)
        ensures
            seg == initial_segment(MaxRadiusMode::Loose),
    {
        CellSegment::new(MaxRadiusMode::Loose)
    }
}

impl Cell {
    /// The invariant of a cell: each of its four segments is well formed.
    pub open spec fn well_formed(&self) -> bool {
        forall|i: int| 0 <= i < 4 ==> (#[trigger] self.segments[i]).well_formed()
    }

    /// Whether every segment has reached its targets.
    pub open spec fn at_target(&self) -> bool {
        forall|i: int| 0 <= i < 4 ==> (#[trigger] self.segments[i]).at_target()
    }

    /// Whether the outline of the cell can be drawn: every segment can be
    /// mirrored. Every well-formed cell can.
    pub open spec fn mirrorable(&self) -> bool {
        forall|i: int| 0 <= i < 4 ==> (#[trigger] self.segments[i]).mirrorable()
    }

    /// Whether every segment has its control point and its target in the
    /// band that targets are drawn from.
    pub open spec fn in_band(&self) -> bool {
        forall|i: int| 0 <= i < 4 ==> (#[trigger] self.segments[i]).in_band()
    }

    /// A new cell in [`MaxRadiusMode::Tight`].
    pub fn tight() -> (cell: Cell)
        ensures
            forall|i: int|
                0 <= i < 4 ==> #[trigger] cell.segments[i] == initial_segment(MaxRadiusMode::Tight),
            cell.well_formed(),
            cell.in_band(),
    {
        new_cell(MaxRadiusMode::Tight)
    }

    /// Tests whether the outline of the cell can be drawn.
    pub fn is_mirrorable(&self) -> (b: bool)
        ensures
            b == self.mirrorable(),
    {
        let mut i: usize = 0;
        while i < 4
            invariant
                0 <= i <= 4,
                forall|j: int| 0 <= j < i ==> (#[trigger] self.segments[j]).mirrorable(),
            decreases 4 - i,
        {
            let seg = self.segments[i];
            if seg.ctrl.x == i64::MIN || seg.ctrl.y == i64::MIN || seg.radius == i64::MIN {
                return false;
            }
            i += 1;
        }
        true
    }

    /// Tests the invariant of the cell.
    pub fn is_well_formed(&self) -> (b: bool)
        ensures
            b == self.well_formed(),
    {
        let mut i: usize = 0;
        while i < 4
            invariant
                0 <= i <= 4,
                forall|j: int| 0 <= j < i ==> (#[trigger] self.segments[j]).well_formed(),
            decreases 4 - i,
        {
            if !self.segments[i].is_well_formed() {
                return false;
            }
            i += 1;
        }
        true
    }
}

impl Default for Cell {
    /// A new cell in [`MaxRadiusMode::Loose`].
    fn default() -> (cell: Cell)
        ensures
            forall|i: int|
                0 <= i < 4 ==> #[trigger] cell.segments[i] == initial_segment(MaxRadiusMode::Loose),
            cell.well_formed(),
            cell.in_band(),
    {
        new_cell(MaxRadiusMode::Loose)
    }
}

/// A cell of four equal segments, each at rest at the least control point
/// and radius.
pub fn new_cell(mode: MaxRadiusMode) -> (cell: Cell)
    ensures
        forall|i: int| 0 <= i < 4 ==> #[trigger] cell.segments[i] == initial_segment(mode),
        cell.well_formed(),
        cell.in_band(),
        cell.at_target(),
{
    Cell {
        segments: [
            CellSegment::new(mode),
            CellSegment::new(mode),
            CellSegment::new(mode),
            CellSegment::new(mode),
        ],
    }
}

/// Moves the control point and the radius of every segment one step toward
/// their targets. Each value changes by at most its speed and never passes
/// its target; a cell that has reached all its targets is left as it is.
pub fn tick(cell: &mut Cell)
    requires
        old(cell).well_formed(),
    ensures
        forall|i: int|
            0 <= i < 4 ==> #[trigger] final(cell).segments[i] == old(cell).segments[i].stepped(),
        final(cell).well_formed(),
        old(cell).in_band() ==> final(cell).in_band(),
        old(cell).at_target() ==> *final(cell) == *old(cell),
        forall|i: int|
            #![trigger final(cell).segments[i]]
            0 <= i < 4 ==> {
                let before = old(cell).segments[i];
                let after = final(cell).segments[i];
                &&& rate_limited(
                    before.ctrl.x as int,
                    before.ctrl_target.x as int,
                    before.ctrl_speed as int,
                    after.ctrl.x as int,
                )
                &&& rate_limited(
                    before.ctrl.y as int,
                    before.ctrl_target.y as int,
                    before.ctrl_speed as int,
                    after.ctrl.y as int,
                )
                &&& rate_limited(
                    before.radius as int,
                    before.radius_target as int,
                    before.radius_speed as int,
                    after.radius as int,
                )
                &&& after.radius >= CELL_MIN_RADIUS
            },
{
    let mut i: usize = 0;
    while i < 4
        invariant
            0 <= i <= 4,
            old(cell).well_formed(),
            forall|j: int|
                0 <= j < i ==> #[trigger] cell.segments[j] == old(cell).segments[j].stepped(),
            forall|j: int| i <= j < 4 ==> #[trigger] cell.segments[j] == old(cell).segments[j],
        decreases 4 - i,
    {
        let mut seg = cell.segments[i];
        seg.step();
        cell.segments[i] = seg;
        i += 1;
    }
    proof {
        assert forall|j: int| 0 <= j < 4 implies (#[trigger] cell.segments[j]).well_formed() by {
            assert(old(cell).segments[j].well_formed());
        }
        if old(cell).in_band() {
            assert forall|j: int| 0 <= j < 4 implies (#[trigger] cell.segments[j]).in_band() by {
                assert(old(cell).segments[j].in_band());
            }
        }
        if old(cell).at_target() {
            assert forall|j: int| 0 <= j < 4 implies cell.segments[j] == old(cell).segments[j] by {
                assert(old(cell).segments[j].at_target());
            }
            assert(cell.segments =~= old(cell).segments);
        }
        assert forall|j: int| 0 <= j < 4 implies {
            let before = old(cell).segments[j];
            let after = #[trigger] cell.segments[j];
            &&& rate_limited(
                before.ctrl.x as int,
                before.ctrl_target.x as int,
                before.ctrl_speed as int,
                after.ctrl.x as int,
            )
            &&& rate_limited(
                before.ctrl.y as int,
                before.ctrl_target.y as int,
                before.ctrl_speed as int,
                after.ctrl.y as int,
            )
            &&& rate_limited(
                before.radius as int,
                before.radius_target as int,
                before.radius_speed as int,
                after.radius as int,
            )
            &&& after.radius >= CELL_MIN_RADIUS
        } by {
            assert(old(cell).segments[j].well_formed());
        }
    }
}

/// Draws new speeds and targets for every segment, five draws each, in the
/// order of the segments. Control points and radii stay as they are.
pub fn retarget(cell: &mut Cell, rng: &mut RandomSource)
    requires
        old(cell).well_formed(),
    ensures
        forall|i: int|
            0 <= i < 4 ==> retargeted(old(cell).segments[i], #[trigger] final(cell).segments[i]),
        final(cell).well_formed(),
        old(cell).in_band() ==> final(cell).in_band(),
        final(rng).drawn() == old(rng).drawn() + retarget_record(*old(cell), *final(cell), 4),
        final(rng).draws() == old(rng).draws() + 20,
{
    let mut i: usize = 0;
    while i < 4
        invariant
            0 <= i <= 4,
            old(cell).well_formed(),
            forall|j: int|
                0 <= j < i ==> retargeted(old(cell).segments[j], #[trigger] cell.segments[j]),
            forall|j: int| i <= j < 4 ==> #[trigger] cell.segments[j] == old(cell).segments[j],
            rng.drawn() == old(rng).drawn() + retarget_record(*old(cell), *cell, i as int),
        decreases 4 - i,
    {
        let ghost earlier = *cell;
        let mut seg = cell.segments[i];
        assert(old(cell).segments[i as int].well_formed());
        seg.retarget(rng);
        cell.segments[i] = seg;
        proof {
            lemma_retarget_record_prefix(*old(cell), earlier, *cell, i as int);
            assert(rng.drawn() =~= old(rng).drawn() + retarget_record(
                *old(cell),
                *cell,
                i as int + 1,
            ));
        }
        i += 1;
    }
    proof {
        lemma_retarget_record_prefix(*old(cell), *cell, *cell, 4);
        assert forall|j: int| 0 <= j < 4 implies (#[trigger] cell.segments[j]).well_formed() by {
            assert(old(cell).segments[j].well_formed());
            assert(retargeted(old(cell).segments[j], cell.segments[j]));
        }
        if old(cell).in_band() {
            assert forall|j: int| 0 <= j < 4 implies (#[trigger] cell.segments[j]).in_band() by {
                assert(old(cell).segments[j].in_band());
                assert(retargeted(old(cell).segments[j], cell.segments[j]));
            }
        }
    }
}

/// The outline of the cell: four arcs from the top of the cell clockwise
/// back to the top, then `Close`.
pub fn to_path(cell: &Cell) -> (path: PathSpec)
    requires
        cell.mirrorable(),
    ensures
        path@ == cell_outline(*cell),
        path.well_formed(),
{
    let rt = cell.segments[CELL_SEG_RT];
    let rb = cell.segments[CELL_SEG_RB];
    let lb = cell.segments[CELL_SEG_LB];
    let lt = cell.segments[CELL_SEG_LT];
    assert(rt.mirrorable() && rb.mirrorable() && lb.mirrorable() && lt.mirrorable());
    let mut commands: Vec<PathCommand> = Vec::new();
    commands.push(PathCommand::MoveTo(Point2D { x: 0, y: lt.radius }));
    commands.push(
        PathCommand::QuadraticBezierTo {
            control: Point2D { x: rt.ctrl.x, y: rt.ctrl.y },
            end: Point2D { x: rt.radius, y: 0 },
        },
    );
    commands.push(
        PathCommand::QuadraticBezierTo {
            control: Point2D { x: rb.ctrl.x, y: -rb.ctrl.y },
            end: Point2D { x: 0, y: -rb.radius },
        },
    );
    commands.push(
        PathCommand::QuadraticBezierTo {
            control: Point2D { x: -lb.ctrl.x, y: -lb.ctrl.y },
            end: Point2D { x: -lb.radius, y: 0 },
        },
    );
    commands.push(
        PathCommand::QuadraticBezierTo {
            control: Point2D { x: -lt.ctrl.x, y: lt.ctrl.y },
            end: Point2D { x: 0, y: lt.radius },
        },
    );
    commands.push(PathCommand::Close);
    let path = PathSpec { commands };
    proof {
        assert(path@ =~= cell_outline(*cell));
        assert forall|i: int| 0 < i < path@.len() - 1 implies crate::path::is_draw(
            #[trigger] path@[i],
        ) by {
            assert(i == 1 || i == 2 || i == 3 || i == 4);
        }
        assert(closed_outline(path@));
    }
    path
}

/// Advances the cell by one tick and returns its new outline.
pub fn redraw_cell(cell: &mut Cell) -> (path: PathSpec)
    requires
        old(cell).well_formed(),
    ensures
        forall|i: int|
            0 <= i < 4 ==> #[trigger] final(cell).segments[i] == old(cell).segments[i].stepped(),
        final(cell).well_formed(),
        old(cell).in_band() ==> final(cell).in_band(),
        path@ == cell_outline(*final(cell)),
        path.well_formed(),
{
    tick(cell);
    assert forall|i: int| 0 <= i < 4 implies (#[trigger] cell.segments[i]).mirrorable() by {
        assert(cell.segments[i].well_formed());
    }
    to_path(cell)
}

} // verus!
