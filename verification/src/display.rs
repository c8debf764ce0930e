//! What the display shows of a session, in display coordinates: the grid, the
//! filled outlines of the paths with the preview of the open one, and the
//! cursor's crosshair.

use vstd::prelude::*;
use crate::editor::{EditorModel, EditorState};
use crate::geometry::{paths_view, points_view, ClosedPath, GridPoint, Point};
use crate::transform::{
    display_of,
    scale,
    scale_sum,
    scale_wide,
    scaled,
    to_display,
    HORIZONTAL_FACTOR,
    LEFT_OFFSET,
    TOP_OFFSET,
    VERTICAL_FACTOR,
};

verus! {

/// Length of each of the crosshair's two lines, in grid units.
pub const CROSSHAIR_LENGTH: i32 = 20;

/// Width of the crosshair's pen.
pub const CROSSHAIR_THICKNESS: u32 = 4;

/// Mathematical line segment: the model of a [`Segment`].
pub ghost struct GridSegment {
    pub from: GridPoint,
    pub to: GridPoint,
}

/// A straight line between two points of the display.
#[derive(Clone, Copy, Debug, PartialEq, Eq, Structural)]
pub struct Segment {
    pub from: Point,
    pub to: Point,
}

impl View for Segment {
    type V = GridSegment;

    open spec fn view(&self) -> GridSegment {
        GridSegment { from: self.from@, to: self.to@ }
    }
}

/// The segments that a vector of segments stands for, in order.
pub open spec fn segments_view(segments: Seq<Segment>) -> Seq<GridSegment> {
    Seq::new(segments.len(), |i: int| segments[i]@)
}

/// A color as the display takes it: red in the lowest byte, then green, then
/// blue.
pub open spec fn rgb_value(r: u8, g: u8, b: u8) -> int {
    r + 0x100 * g + 0x1_0000 * b
}

/// Packs three color channels into one color value.
pub fn rgb(r: u8, g: u8, b: u8) -> (color: u32)
    ensures
        color == rgb_value(r, g, b),
{
    let color: u32 = (r as u32) | (g as u32) << 8 | (b as u32) << 16;
    assert(color == r as u32 + 0x100 * (g as u32) + 0x1_0000 * (b as u32)) by (bit_vector)
        requires
            color == (r as u32) | (g as u32) << 8 | (b as u32) << 16,
    ;
    color
}

/// The color of the crosshair: red while a path is open, blue otherwise.
pub fn crosshair_color(is_drawing: bool) -> (color: u32)
    ensures
        color == if is_drawing {
            rgb_value(0xFF, 0x00, 0x00)
        } else {
            rgb_value(0x00, 0x00, 0xFF)
        },
{
    if is_drawing {
        rgb(0xFF, 0x00, 0x00)
    } else {
        rgb(0x00, 0x00, 0xFF)
    }
}

/// The horizontal grid line number `k`, counted from the top.
pub open spec fn horizontal_line(grid: GridPoint, k: int) -> GridSegment {
    GridSegment {
        from: GridPoint { x: scaled(LEFT_OFFSET as int), y: scaled(TOP_OFFSET + k * VERTICAL_FACTOR) },
        to: GridPoint {
            x: scaled(LEFT_OFFSET + grid.x * HORIZONTAL_FACTOR),
            y: scaled(TOP_OFFSET + k * VERTICAL_FACTOR),
        },
    }
}

/// The vertical grid line number `k`, counted from the left.
pub open spec fn vertical_line(grid: GridPoint, k: int) -> GridSegment {
    GridSegment {
        from: GridPoint { x: scaled(LEFT_OFFSET + k * HORIZONTAL_FACTOR), y: scaled(TOP_OFFSET as int) },
        to: GridPoint {
            x: scaled(LEFT_OFFSET + k * HORIZONTAL_FACTOR),
            y: scaled(TOP_OFFSET + grid.y * VERTICAL_FACTOR),
        },
    }
}

/// The lines of the grid: none unless both cell counts are positive; else one
/// horizontal line per row boundary, top to bottom, then one vertical line
/// per column boundary, left to right.
pub open spec fn grid_lines_of(grid: GridPoint) -> Seq<GridSegment> {
    if grid.x > 0 && grid.y > 0 {
        Seq::new((grid.y + 1) as nat, |k: int| horizontal_line(grid, k)) + Seq::new(
            (grid.x + 1) as nat,
            |k: int| vertical_line(grid, k),
        )
    } else {
        Seq::empty()
    }
}

/// Whether the far edges of the grid still have display coordinates.
pub open spec fn grid_fits_display(grid: GridPoint) -> bool {
    &&& scaled(LEFT_OFFSET + grid.x * HORIZONTAL_FACTOR) <= i32::MAX
    &&& scaled(TOP_OFFSET + grid.y * VERTICAL_FACTOR) <= i32::MAX
}

/// Display coordinate of the grid boundary number `k` along one axis.
fn boundary(offset: i32, k: i32, factor: i32) -> (r: i32)
    requires
        offset == 100,
        factor == 100,
        0 <= k,
        scaled(offset + k * factor) <= i32::MAX,
    ensures
        r == scaled(offset + k * factor),
{
    scale_wide((offset as i64) + (k as i64) * (factor as i64)) as i32
}

/// Computes whether the grid can be drawn, that is whether its far edges
/// still have display coordinates.
pub fn fits_display(grid: Point) -> (fits: bool)
    ensures
        fits == grid_fits_display(grid@),
{
    let limit: i64 = 2 * (i32::MAX as i64) + 1;
    (LEFT_OFFSET as i64) + (grid.x as i64) * (HORIZONTAL_FACTOR as i64) <= limit && (TOP_OFFSET as i64)
        + (grid.y as i64) * (VERTICAL_FACTOR as i64) <= limit
}

/// The lines of the grid, in display coordinates. Where there are lines to
/// draw, the grid's far edges must have display coordinates.
pub fn grid_lines(grid: Point) -> (lines: Vec<Segment>)
    requires
        grid.x > 0 && grid.y > 0 ==> grid_fits_display(grid@),
    ensures
        segments_view(lines@) == grid_lines_of(grid@),
{
    let mut lines: Vec<Segment> = Vec::new();
    if grid.x > 0 && grid.y > 0 {
        let left = scale(LEFT_OFFSET);
        let top = scale(TOP_OFFSET);
        let right = boundary(LEFT_OFFSET, grid.x, HORIZONTAL_FACTOR);
        let bottom = boundary(TOP_OFFSET, grid.y, VERTICAL_FACTOR);
        let ghost rows = Seq::new((grid.y + 1) as nat, |k: int| horizontal_line(grid@, k));
        let mut k: i32 = 0;
        while k <= grid.y
            invariant
                0 <= k <= grid.y + 1,
                grid.x > 0 && grid.y > 0,
                grid_fits_display(grid@),
                left == scaled(LEFT_OFFSET as int),
                right == scaled(LEFT_OFFSET + grid.x * HORIZONTAL_FACTOR),
                rows == Seq::new((grid.y + 1) as nat, |k: int| horizontal_line(grid@, k)),
                segments_view(lines@) == rows.take(k as int),
            decreases grid.y + 1 - k,
        {
            let y = boundary(TOP_OFFSET, k, VERTICAL_FACTOR);
            lines.push(Segment { from: Point { x: left, y }, to: Point { x: right, y } });
            k += 1;
            proof {
                let ghost drawn = segments_view(lines@);
                assert(drawn.last() == horizontal_line(grid@, k - 1));
                assert(rows[k - 1] == horizontal_line(grid@, k - 1));
                assert(drawn.drop_last() =~= rows.take(k - 1));
                assert(drawn =~= rows.take(k as int));
            }
        }
        assert(rows.take(k as int) =~= rows);
        let ghost columns = Seq::new((grid.x + 1) as nat, |k: int| vertical_line(grid@, k));
        let mut k: i32 = 0;
        while k <= grid.x
            invariant
                0 <= k <= grid.x + 1,
                grid.x > 0 && grid.y > 0,
                grid_fits_display(grid@),
                top == scaled(TOP_OFFSET as int),
                bottom == scaled(TOP_OFFSET + grid.y * VERTICAL_FACTOR),
                columns == Seq::new((grid.x + 1) as nat, |k: int| vertical_line(grid@, k)),
                segments_view(lines@) == rows + columns.take(k as int),
            decreases grid.x + 1 - k,
        {
            let x = boundary(LEFT_OFFSET, k, HORIZONTAL_FACTOR);
            lines.push(Segment { from: Point { x, y: top }, to: Point { x, y: bottom } });
            k += 1;
            proof {
                let ghost drawn = segments_view(lines@);
                assert(drawn.last() == vertical_line(grid@, k - 1));
                assert(columns[k - 1] == vertical_line(grid@, k - 1));
                assert(drawn.drop_last() =~= rows + columns.take(k - 1));
                assert(columns.take(k as int) =~= columns.take(k - 1).push(columns[k - 1]));
                assert(rows + columns.take(k as int) =~= (rows + columns.take(k - 1)).push(
                    columns[k - 1],
                ));
                assert(drawn =~= drawn.drop_last().push(drawn.last()));
            }
        }
        assert(columns.take(k as int) =~= columns);
    } else {
        assert(segments_view(lines@) =~= Seq::<GridSegment>::empty());
    }
    lines
}

/// The display coordinates of a vertex list, vertex by vertex.
pub open spec fn displayed(points: Seq<GridPoint>) -> Seq<GridPoint> {
    Seq::new(points.len(), |j: int| display_of(points[j]))
}

/// The outline that the display fills for a vertex list: its vertices in
/// display coordinates, followed by the preview vertex where there is one.
pub open spec fn outline_of(points: Seq<GridPoint>, preview: Option<GridPoint>) -> Seq<GridPoint> {
    match preview {
        Some(p) => displayed(points).push(display_of(p)),
        None => displayed(points),
    }
}

/// The preview vertex of path number `i`: the cursor, for the last path while
/// it is open, and none for any other.
pub open spec fn preview_of(m: EditorModel, i: int) -> Option<GridPoint> {
    if m.is_drawing && i == m.paths.len() - 1 {
        Some(m.cursor)
    } else {
        None
    }
}

/// The outlines of the first `n` paths: one for each path that has vertices,
/// in order. A path without vertices has no outline, open or not.
pub open spec fn outlines_upto(m: EditorModel, n: int) -> Seq<Seq<GridPoint>>
    decreases n,
{
    if n <= 0 {
        Seq::empty()
    } else {
        let before = outlines_upto(m, n - 1);
        if m.paths[n - 1].len() == 0 {
            before
        } else {
            before.push(outline_of(m.paths[n - 1], preview_of(m, n - 1)))
        }
    }
}

/// The outlines that the display fills for a session.
pub open spec fn outlines_of(m: EditorModel) -> Seq<Seq<GridPoint>> {
    outlines_upto(m, m.paths.len() as int)
}

/// The outline of one path in display coordinates, closed through the
/// preview vertex where one is given.
pub fn display_outline(path: &ClosedPath, preview: Option<Point>) -> (outline: ClosedPath)
    ensures
        outline@ == outline_of(
            path@,
            match preview {
                Some(p) => Some(p@),
                None => None,
            },
        ),
{
    let mut points: Vec<Point> = Vec::new();
    let mut j: usize = 0;
    while j < path.points.len()
        invariant
            j <= path.points.len(),
            points_view(points@) == displayed(path@).take(j as int),
        decreases path.points.len() - j,
    {
        let shown = to_display(path.points[j]);
        points.push(shown);
        j += 1;
        proof {
            let ghost done = points_view(points@);
            assert(path@[j - 1] == path.points@[j - 1]@);
            assert(done.last() == displayed(path@)[j - 1]);
            assert(done.drop_last() =~= displayed(path@).take(j - 1));
            assert(done =~= done.drop_last().push(done.last()));
            assert(done =~= displayed(path@).take(j as int));
        }
    }
    assert(displayed(path@).take(j as int) =~= displayed(path@));
    match preview {
        Some(p) => {
            points.push(to_display(p));
            assert(points_view(points@) =~= displayed(path@).push(display_of(p@)));
        },
        None => {},
    }
    ClosedPath::from_points(points)
}

/// The outlines that the display fills for the session, oldest path first.
pub fn outlines(state: &EditorState) -> (shapes: Vec<ClosedPath>)
    ensures
        paths_view(shapes@) == outlines_of(state@),
{
    let paths = state.paths();
    let drawing = state.is_drawing();
    let cursor = state.cursor();
    let mut shapes: Vec<ClosedPath> = Vec::new();
    let mut i: usize = 0;
    while i < paths.len()
        invariant
            i <= paths.len(),
            paths_view(paths@) == state@.paths,
            drawing == state@.is_drawing,
            cursor@ == state@.cursor,
            paths_view(shapes@) == outlines_upto(state@, i as int),
        decreases paths.len() - i,
    {
        let path = &paths[i];
        assert(path@ == state@.paths[i as int]);
        if !path.is_empty() {
            let preview = if drawing && i == paths.len() - 1 {
                Some(cursor)
            } else {
                None
            };
            shapes.push(display_outline(path, preview));
        }
        i += 1;
        assert(paths_view(shapes@) =~= outlines_upto(state@, i as int));
    }
    shapes
}

/// The crosshair at the cursor: a vertical and a horizontal line of the
/// crosshair's length, each centred on the cursor before scaling.
pub open spec fn crosshair_of(cursor: GridPoint) -> (GridSegment, GridSegment) {
    (
        GridSegment {
            from: GridPoint {
                x: scaled(LEFT_OFFSET + cursor.x),
                y: scaled(TOP_OFFSET + cursor.y - CROSSHAIR_LENGTH / 2),
            },
            to: GridPoint {
                x: scaled(LEFT_OFFSET + cursor.x),
                y: scaled(TOP_OFFSET + cursor.y - CROSSHAIR_LENGTH / 2 + CROSSHAIR_LENGTH),
            },
        },
        GridSegment {
            from: GridPoint {
                x: scaled(LEFT_OFFSET + cursor.x - CROSSHAIR_LENGTH / 2),
                y: scaled(TOP_OFFSET + cursor.y),
            },
            to: GridPoint {
                x: scaled(LEFT_OFFSET + cursor.x - CROSSHAIR_LENGTH / 2 + CROSSHAIR_LENGTH),
                y: scaled(TOP_OFFSET + cursor.y),
            },
        },
    )
}

/// The two lines of the crosshair at the cursor, the vertical one first.
pub fn crosshair(cursor: Point) -> (lines: (Segment, Segment))
    ensures
        (lines.0@, lines.1@) == crosshair_of(cursor@),
{
    let half: i32 = CROSSHAIR_LENGTH / 2;
    let x = scale_sum(LEFT_OFFSET, cursor.x);
    let y = scale_sum(TOP_OFFSET, cursor.y);
    let vertical = Segment {
        from: Point { x, y: scale_sum(TOP_OFFSET - half, cursor.y) },
        to: Point { x, y: scale_sum(TOP_OFFSET - half + CROSSHAIR_LENGTH, cursor.y) },
    };
    let horizontal = Segment {
        from: Point { x: scale_sum(LEFT_OFFSET - half, cursor.x), y },
        to: Point { x: scale_sum(LEFT_OFFSET - half + CROSSHAIR_LENGTH, cursor.x), y },
    };
    (vertical, horizontal)
}

} // verus!
