//! Value types of the editor: grid points, closed paths, and the conversion
//! of a path into curve commands.

use vstd::prelude::*;

verus! {

/// Mathematical grid coordinate: the model of a [`Point`].
pub ghost struct GridPoint {
    pub x: int,
    pub y: int,
}

/// A logical grid-space coordinate.
#[derive(Clone, Copy, Debug, PartialEq, Eq, Structural, Hash, Default)]
pub struct Point {
    pub x: i32,
    pub y: i32,
}

impl View for Point {
    type V = GridPoint;

    open spec fn view(&self) -> GridPoint {
        GridPoint { x: self.x as int, y: self.y as int }
    }
}

impl Point {
    /// The point with the given coordinates.
    pub fn new(x: i32, y: i32) -> (p: Point)
        ensures
            p.x == x,
            p.y == y,
    {
        Point { x, y }
    }
}

/// The grid points that a vector of points stands for, in order.
pub open spec fn points_view(points: Seq<Point>) -> Seq<GridPoint> {
    Seq::new(points.len(), |i: int| points[i]@)
}

/// An ordered vertex list, read as a polygon whose last vertex connects back
/// to the first. It may be empty.
#[derive(Clone, Debug, Default, PartialEq, Eq, Hash)]
pub struct ClosedPath {
    pub points: Vec<Point>,
}

impl View for ClosedPath {
    type V = Seq<GridPoint>;

    open spec fn view(&self) -> Seq<GridPoint> {
        points_view(self.points@)
    }
}

/// The vertex lists that a sequence of paths stands for, in order.
pub open spec fn paths_view(paths: Seq<ClosedPath>) -> Seq<Seq<GridPoint>> {
    Seq::new(paths.len(), |i: int| paths[i]@)
}

impl ClosedPath {
    /// A path without vertices.
    pub fn new() -> (path: ClosedPath)
        ensures
            path@ == Seq::<GridPoint>::empty(),
    {
        let path = ClosedPath { points: Vec::new() };
        assert(path@ =~= Seq::<GridPoint>::empty());
        path
    }

    /// The path through the given vertices, in order.
    pub fn from_points(points: Vec<Point>) -> (path: ClosedPath)
        ensures
            path.points == points,
            path@ == points_view(points@),
    {
        ClosedPath { points }
    }

    /// The number of vertices.
    pub fn len(&self) -> (n: usize)
        ensures
            n == self@.len(),
    {
        self.points.len()
    }

    /// Whether the path has no vertex.
    pub fn is_empty(&self) -> (empty: bool)
        ensures
            empty == (self@.len() == 0),
    {
        self.points.len() == 0
    }
}

/// One step of a path outline.
#[derive(Clone, Copy, Debug, PartialEq, Eq, Structural)]
pub enum CurveCommand {
    /// Start a figure at the point.
    MoveTo(Point),
    /// Draw a straight line from the current position to the point.
    LineTo(Point),
}

impl CurveCommand {
    /// The point the command leads to.
    pub open spec fn spec_target(self) -> Point {
        match self {
            CurveCommand::MoveTo(p) => p,
            CurveCommand::LineTo(p) => p,
        }
    }

    /// The point the command leads to.
    #[verifier::when_used_as_spec(spec_target)]
    pub fn target(self) -> (p: Point)
        ensures
            p == self.spec_target(),
    {
        match self {
            CurveCommand::MoveTo(p) => p,
            CurveCommand::LineTo(p) => p,
        }
    }

    /// Whether the command starts a figure.
    pub fn is_move(self) -> (m: bool)
        ensures
            m == (self is MoveTo),
    {
        match self {
            CurveCommand::MoveTo(_) => true,
            CurveCommand::LineTo(_) => false,
        }
    }
}

/// The curve commands of a vertex list: a move to the first vertex, then a
/// line to each further vertex, in order. An empty list has no commands, and
/// no closing command is part of the sequence.
pub open spec fn curve_commands(points: Seq<Point>) -> Seq<CurveCommand> {
    Seq::new(
        points.len(),
        |i: int|
            if i == 0 {
                CurveCommand::MoveTo(points[i])
            } else {
                CurveCommand::LineTo(points[i])
            },
    )
}

/// Converts a path into its curve commands.
pub fn to_curve_commands(path: &ClosedPath) -> (commands: Vec<CurveCommand>)
    ensures
        commands@ == curve_commands(path.points@),
{
    let mut commands: Vec<CurveCommand> = Vec::new();
    let mut i: usize = 0;
    while i < path.points.len()
        invariant
            i <= path.points.len(),
            commands@ == curve_commands(path.points@.take(i as int)),
        decreases path.points.len() - i,
    {
        let p = path.points[i];
        if i == 0 {
            commands.push(CurveCommand::MoveTo(p));
        } else {
            commands.push(CurveCommand::LineTo(p));
        }
        i += 1;
        assert(commands@ =~= curve_commands(path.points@.take(i as int)));
    }
    assert(path.points@.take(i as int) =~= path.points@);
    commands
}

} // verus!
