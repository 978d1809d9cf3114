//! Points, path commands and closed paths.

use vstd::prelude::*;

verus! {

/// A coordinate on a canvas whose origin is its centre.
#[derive(Clone, Copy, Debug, PartialEq, Eq, Structural)]
pub struct Point2D {
    pub x: i64,
    pub y: i64,
}

/// One drawing command of a path.
#[derive(Clone, Copy, Debug, PartialEq, Eq, Structural)]
pub enum PathCommand {
    /// Start the outline at a point.
    MoveTo(Point2D),
    /// Draw a straight edge to a point.
    LineTo(Point2D),
    /// Draw a quadratic Bezier arc that bulges toward `control` and stops at `end`.
    QuadraticBezierTo { control: Point2D, end: Point2D },
    /// Join the current point to the start of the outline.
    Close,
}

/// An ordered list of drawing commands that describes one closed outline.
#[derive(Clone, Debug, PartialEq, Eq)]
pub struct PathSpec {
    pub commands: Vec<PathCommand>,
}

/// Whether `p` lies in the rectangle `[-max_x, max_x] x [-max_y, max_y]`.
pub open spec fn point_within(p: Point2D, max_x: int, max_y: int) -> bool {
    &&& -max_x <= p.x <= max_x
    &&& -max_y <= p.y <= max_y
}

/// Whether every point that `c` names lies in the rectangle
/// `[-max_x, max_x] x [-max_y, max_y]`.
pub open spec fn command_within(c: PathCommand, max_x: int, max_y: int) -> bool {
    match c {
        PathCommand::MoveTo(p) => point_within(p, max_x, max_y),
        PathCommand::LineTo(p) => point_within(p, max_x, max_y),
        PathCommand::QuadraticBezierTo { control, end } => {
            point_within(control, max_x, max_y) && point_within(end, max_x, max_y)
        },
        PathCommand::Close => true,
    }
}

/// Whether `c` draws something: a line or an arc.
pub open spec fn is_draw(c: PathCommand) -> bool {
    c is LineTo || c is QuadraticBezierTo
}

/// A closed outline: one `MoveTo` at the front, one `Close` at the back, and
/// at least one drawing command, and nothing else, in between.
pub open spec fn closed_outline(cmds: Seq<PathCommand>) -> bool {
    &&& cmds.len() >= 3
    &&& cmds[0] is MoveTo
    &&& cmds[cmds.len() - 1] is Close
    &&& forall|i: int| 0 < i < cmds.len() - 1 ==> is_draw(#[trigger] cmds[i])
}

/// Whether every point of every command lies in the rectangle
/// `[-max_x, max_x] x [-max_y, max_y]`.
pub open spec fn outline_within(cmds: Seq<PathCommand>, max_x: int, max_y: int) -> bool {
    forall|i: int| 0 <= i < cmds.len() ==> command_within(#[trigger] cmds[i], max_x, max_y)
}

impl View for PathSpec {
    type V = Seq<PathCommand>;

    open spec fn view(&self) -> Seq<PathCommand> {
        self.commands@
    }
}

impl Point2D {
    /// Whether the point lies in `[-max_x, max_x] x [-max_y, max_y]`.
    pub fn is_within(&self, max_x: i64, max_y: i64) -> (b: bool)
        requires
            0 <= max_x,
            0 <= max_y,
        ensures
            b == point_within(*self, max_x as int, max_y as int),
    {
        -max_x <= self.x && self.x <= max_x && -max_y <= self.y && self.y <= max_y
    }
}

impl PathCommand {
    /// Whether the command draws a line or an arc.
    pub fn is_draw(&self) -> (b: bool)
        ensures
            b == is_draw(*self),
    {
        match self {
            PathCommand::LineTo(_) => true,
            PathCommand::QuadraticBezierTo { .. } => true,
            _ => false,
        }
    }

    /// Whether every point of the command lies in
    /// `[-max_x, max_x] x [-max_y, max_y]`.
    pub fn is_within(&self, max_x: i64, max_y: i64) -> (b: bool)
        requires
            0 <= max_x,
            0 <= max_y,
        ensures
            b == command_within(*self, max_x as int, max_y as int),
    {
        match self {
            PathCommand::MoveTo(p) => p.is_within(max_x, max_y),
            PathCommand::LineTo(p) => p.is_within(max_x, max_y),
            PathCommand::QuadraticBezierTo { control, end } => {
                control.is_within(max_x, max_y) && end.is_within(max_x, max_y)
            },
            PathCommand::Close => true,
        }
    }
}

impl PathSpec {
    /// The path is a closed outline.
    pub open spec fn well_formed(&self) -> bool {
        closed_outline(self@)
    }

    /// The number of commands between the leading `MoveTo` and the trailing
    /// `Close` of a closed outline.
    pub open spec fn draw_count(&self) -> int {
        self@.len() - 2
    }

    /// Tests whether the path is a closed outline.
    pub fn is_well_formed(&self) -> (b: bool)
        ensures
            b == self.well_formed(),
    {
        let n = self.commands.len();
        if n < 3 {
            return false;
        }
        match self.commands[0] {
            PathCommand::MoveTo(_) => {},
            _ => {
                return false;
            },
        }
        match self.commands[n - 1] {
            PathCommand::Close => {},
            _ => {
                return false;
            },
        }
        let mut i: usize = 1;
        while i < n - 1
            invariant
                n == self.commands.len(),
                n >= 3,
                1 <= i <= n - 1,
                forall|j: int| 0 < j < i ==> is_draw(#[trigger] self@[j]),
            decreases n - i,
        {
            if !self.commands[i].is_draw() {
                return false;
            }
            i += 1;
        }
        true
    }

    /// Tests whether every point of the path lies in
    /// `[-max_x, max_x] x [-max_y, max_y]`.
    pub fn is_within(&self, max_x: i64, max_y: i64) -> (b: bool)
        requires
            0 <= max_x,
            0 <= max_y,
        ensures
            b == outline_within(self@, max_x as int, max_y as int),
    {
        let n = self.commands.len();
        let mut i: usize = 0;
        while i < n
            invariant
                n == self.commands.len(),
                0 <= i <= n,
                0 <= max_x,
                0 <= max_y,
                forall|j: int|
                    0 <= j < i ==> command_within(#[trigger] self@[j], max_x as int, max_y as int),
            decreases n - i,
        {
            if !self.commands[i].is_within(max_x, max_y) {
                return false;
            }
            i += 1;
        }
        true
    }
}

} // verus!
