//! The editor state machine: one session state, changed by one discrete
//! command at a time.

use vstd::prelude::*;
use crate::geometry::{paths_view, ClosedPath, GridPoint, Point};
use crate::transform::{HORIZONTAL_FACTOR, VERTICAL_FACTOR};

verus! {

/// Where an exported document goes.
#[derive(Clone, Copy, Debug, PartialEq, Eq, Structural)]
pub enum ExportSink {
    /// The process's standard output.
    Print,
    /// A file that the user chooses.
    Save,
}

/// A discrete command to the editor.
#[derive(Clone, Copy, Debug, PartialEq, Eq, Structural)]
pub enum Command {
    MoveLeft,
    MoveRight,
    MoveUp,
    MoveDown,
    AddPoint,
    RemoveLastPoint,
    CommitPath,
    CancelPath,
    IncreaseGridX,
    DecreaseGridX,
    IncreaseGridY,
    DecreaseGridY,
    ExportRequest(ExportSink),
    Unrecognized,
}

/// A key of the keyboard, as far as the editor tells keys apart.
#[derive(Clone, Copy, Debug, PartialEq, Eq, Structural)]
pub enum Key {
    Left,
    Right,
    Up,
    Down,
    Space,
    Backspace,
    Return,
    Escape,
    P,
    S,
    H,
    V,
    Other,
}

/// The command that a key stands for. The shift modifier turns the two grid
/// keys from increasing to decreasing and changes no other key.
pub open spec fn key_command(key: Key, shift: bool) -> Command {
    match key {
        Key::Left => Command::MoveLeft,
        Key::Right => Command::MoveRight,
        Key::Up => Command::MoveUp,
        Key::Down => Command::MoveDown,
        Key::Space => Command::AddPoint,
        Key::Backspace => Command::RemoveLastPoint,
        Key::Return => Command::CommitPath,
        Key::Escape => Command::CancelPath,
        Key::P => Command::ExportRequest(ExportSink::Print),
        Key::S => Command::ExportRequest(ExportSink::Save),
        Key::H => if shift {
            Command::DecreaseGridX
        } else {
            Command::IncreaseGridX
        },
        Key::V => if shift {
            Command::DecreaseGridY
        } else {
            Command::IncreaseGridY
        },
        Key::Other => Command::Unrecognized,
    }
}

/// The command for a key press.
pub fn command_for_key(key: Key, shift: bool) -> (command: Command)
    ensures
        command == key_command(key, shift),
{
    match key {
        Key::Left => Command::MoveLeft,
        Key::Right => Command::MoveRight,
        Key::Up => Command::MoveUp,
        Key::Down => Command::MoveDown,
        Key::Space => Command::AddPoint,
        Key::Backspace => Command::RemoveLastPoint,
        Key::Return => Command::CommitPath,
        Key::Escape => Command::CancelPath,
        Key::P => Command::ExportRequest(ExportSink::Print),
        Key::S => Command::ExportRequest(ExportSink::Save),
        Key::H => if shift {
            Command::DecreaseGridX
        } else {
            Command::IncreaseGridX
        },
        Key::V => if shift {
            Command::DecreaseGridY
        } else {
            Command::IncreaseGridY
        },
        Key::Other => Command::Unrecognized,
    }
}

/// What the surroundings owe after a command.
#[derive(Clone, Copy, Debug, PartialEq, Eq, Structural)]
pub struct Outcome {
    /// Whether the display has to be drawn anew.
    pub refresh: bool,
    /// Where to send an export of the current state, if the command asked
    /// for one.
    pub export: Option<ExportSink>,
}

/// The outcome that a command has, which does not depend on the state.
pub open spec fn outcome_of(command: Command) -> Outcome {
    match command {
        Command::ExportRequest(sink) => (Outcome { refresh: false, export: Some(sink) }),
        Command::Unrecognized => (Outcome { refresh: false, export: None }),
        _ => (Outcome { refresh: true, export: None }),
    }
}

/// The mathematical session state.
pub ghost struct EditorModel {
    /// Where the cursor stands.
    pub cursor: GridPoint,
    /// Whether the last path is still open.
    pub is_drawing: bool,
    /// The paths, oldest first.
    pub paths: Seq<Seq<GridPoint>>,
    /// The cell counts of the visible grid.
    pub grid_count: GridPoint,
}

/// The larger of a number and zero.
pub open spec fn clamp_at_zero(v: int) -> int {
    if v < 0 {
        0
    } else {
        v
    }
}

/// The paths after a vertex was added: a path of its own is opened first
/// unless one is open already, and the vertex goes to the end of the last
/// path.
pub open spec fn with_point(paths: Seq<Seq<GridPoint>>, open: bool, vertex: GridPoint) -> Seq<
    Seq<GridPoint>,
> {
    let base = if open {
        paths
    } else {
        paths.push(Seq::empty())
    };
    base.drop_last().push(base.last().push(vertex))
}

/// The paths after the last vertex of the last path was removed, if there is
/// one.
pub open spec fn without_last_point(paths: Seq<Seq<GridPoint>>) -> Seq<Seq<GridPoint>> {
    if paths.len() > 0 && paths.last().len() > 0 {
        paths.drop_last().push(paths.last().drop_last())
    } else {
        paths
    }
}

/// The paths after the last path was removed, if there is one.
pub open spec fn without_last_path(paths: Seq<Seq<GridPoint>>) -> Seq<Seq<GridPoint>> {
    if paths.len() > 0 {
        paths.drop_last()
    } else {
        paths
    }
}

impl EditorModel {
    /// The state of a fresh session: cursor at the origin, nothing drawn,
    /// empty grid.
    pub open spec fn initial() -> EditorModel {
        EditorModel {
            cursor: GridPoint { x: 0, y: 0 },
            is_drawing: false,
            paths: Seq::empty(),
            grid_count: GridPoint { x: 0, y: 0 },
        }
    }

    /// The invariant of a session: cursor, grid counts and every vertex are
    /// nonnegative, and while drawing there is a last path to draw on.
    pub open spec fn wf(self) -> bool {
        &&& self.cursor.x >= 0
        &&& self.cursor.y >= 0
        &&& self.grid_count.x >= 0
        &&& self.grid_count.y >= 0
        &&& self.is_drawing ==> self.paths.len() > 0
        &&& forall|i: int, j: int|
            0 <= i < self.paths.len() && 0 <= j < self.paths[i].len() ==> (#[trigger] self.paths[i][j]).x
                >= 0 && self.paths[i][j].y >= 0
    }

    /// The state after one command.
    pub open spec fn step(self, command: Command) -> EditorModel {
        match command {
            Command::MoveLeft => EditorModel {
                cursor: GridPoint { x: clamp_at_zero(self.cursor.x - HORIZONTAL_FACTOR), y: self.cursor.y },
                ..self
            },
            Command::MoveRight => EditorModel {
                cursor: GridPoint { x: self.cursor.x + HORIZONTAL_FACTOR, y: self.cursor.y },
                ..self
            },
            Command::MoveUp => EditorModel {
                cursor: GridPoint { x: self.cursor.x, y: clamp_at_zero(self.cursor.y - VERTICAL_FACTOR) },
                ..self
            },
            Command::MoveDown => EditorModel {
                cursor: GridPoint { x: self.cursor.x, y: self.cursor.y + VERTICAL_FACTOR },
                ..self
            },
            Command::AddPoint => EditorModel {
                is_drawing: true,
                paths: with_point(self.paths, self.is_drawing, self.cursor),
                ..self
            },
            Command::RemoveLastPoint => EditorModel {
                paths: without_last_point(self.paths),
                ..self
            },
            Command::CommitPath => EditorModel { is_drawing: false, ..self },
            Command::CancelPath => EditorModel {
                is_drawing: false,
                paths: without_last_path(self.paths),
                ..self
            },
            Command::IncreaseGridX => EditorModel {
                grid_count: GridPoint { x: self.grid_count.x + 1, y: self.grid_count.y },
                ..self
            },
            Command::DecreaseGridX => EditorModel {
                grid_count: GridPoint { x: clamp_at_zero(self.grid_count.x - 1), y: self.grid_count.y },
                ..self
            },
            Command::IncreaseGridY => EditorModel {
                grid_count: GridPoint { x: self.grid_count.x, y: self.grid_count.y + 1 },
                ..self
            },
            Command::DecreaseGridY => EditorModel {
                grid_count: GridPoint { x: self.grid_count.x, y: clamp_at_zero(self.grid_count.y - 1) },
                ..self
            },
            Command::ExportRequest(_) => self,
            Command::Unrecognized => self,
        }
    }

    /// Whether the state after the command still fits the machine's
    /// coordinates. Only a move right or down and an increase of a grid count
    /// can leave their range.
    pub open spec fn accepts(self, command: Command) -> bool {
        match command {
            Command::MoveRight => self.cursor.x + HORIZONTAL_FACTOR <= i32::MAX,
            Command::MoveDown => self.cursor.y + VERTICAL_FACTOR <= i32::MAX,
            Command::IncreaseGridX => self.grid_count.x + 1 <= i32::MAX,
            Command::IncreaseGridY => self.grid_count.y + 1 <= i32::MAX,
            _ => true,
        }
    }

    /// The state after a sequence of commands, applied in order.
    pub open spec fn run(self, commands: Seq<Command>) -> EditorModel
        decreases commands.len(),
    {
        if commands.len() == 0 {
            self
        } else {
            self.run(commands.drop_last()).step(commands.last())
        }
    }
}

/// The session state of the editor.
#[derive(Debug)]
pub struct EditorState {
    cursor: Point,
    is_drawing: bool,
    paths: Vec<ClosedPath>,
    grid_count: Point,
}

impl View for EditorState {
    type V = EditorModel;

    closed spec fn view(&self) -> EditorModel {
        EditorModel {
            cursor: self.cursor@,
            is_drawing: self.is_drawing,
            paths: paths_view(self.paths@),
            grid_count: self.grid_count@,
        }
    }
}

impl EditorState {
    /// Every session state is well formed.
    #[verifier::type_invariant]
    spec fn well_formed(self) -> bool {
        self@.wf()
    }

    /// The state of a fresh session.
    pub fn new() -> (state: EditorState)
        ensures
            state@ == EditorModel::initial(),
            state@.wf(),
    {
        let state = EditorState {
            cursor: Point { x: 0, y: 0 },
            is_drawing: false,
            paths: Vec::new(),
            grid_count: Point { x: 0, y: 0 },
        };
        assert(state@.paths =~= Seq::<Seq<GridPoint>>::empty());
        state
    }

    /// Where the cursor stands. Its coordinates are never negative.
    pub fn cursor(&self) -> (p: Point)
        ensures
            p@ == self@.cursor,
            p.x >= 0,
            p.y >= 0,
            self@.wf(),
    {
        proof {
            use_type_invariant(self);
        }
        self.cursor
    }

    /// Whether the last path is still open.
    pub fn is_drawing(&self) -> (drawing: bool)
        ensures
            drawing == self@.is_drawing,
            self@.wf(),
    {
        proof {
            use_type_invariant(self);
        }
        self.is_drawing
    }

    /// The paths, oldest first.
    pub fn paths(&self) -> (paths: &Vec<ClosedPath>)
        ensures
            paths_view(paths@) == self@.paths,
            self@.wf(),
    {
        proof {
            use_type_invariant(self);
        }
        &self.paths
    }

    /// The cell counts of the visible grid. They are never negative.
    pub fn grid_count(&self) -> (count: Point)
        ensures
            count@ == self@.grid_count,
            count.x >= 0,
            count.y >= 0,
            self@.wf(),
    {
        proof {
            use_type_invariant(self);
        }
        self.grid_count
    }

    /// Whether `command` can be applied without a coordinate leaving its
    /// range.
    pub fn accepts(&self, command: Command) -> (ok: bool)
        ensures
            ok == self@.accepts(command),
    {
        match command {
            Command::MoveRight => self.cursor.x <= i32::MAX - HORIZONTAL_FACTOR,
            Command::MoveDown => self.cursor.y <= i32::MAX - VERTICAL_FACTOR,
            Command::IncreaseGridX => self.grid_count.x < i32::MAX,
            Command::IncreaseGridY => self.grid_count.y < i32::MAX,
            _ => true,
        }
    }

    /// Moves the paths out of the state, which is left without paths and not
    /// drawing.
    fn take_paths(&mut self) -> (paths: Vec<ClosedPath>)
        ensures
            paths_view(paths@) == old(self)@.paths,
            final(self)@ == (EditorModel {
                is_drawing: false,
                paths: Seq::empty(),
                ..old(self)@
            }),
    {
        proof {
            use_type_invariant(&*self);
        }
        let mut paths: Vec<ClosedPath> = Vec::new();
        self.is_drawing = false;
        core::mem::swap(&mut self.paths, &mut paths);
        assert(paths_view(self.paths@) =~= Seq::<Seq<GridPoint>>::empty());
        paths
    }

    /// Applies one command and says what the surroundings owe: a refresh of
    /// the display after every command that the editor knows and that is no
    /// export, and the export itself after a request for one.
    pub fn apply(&mut self, command: Command) -> (outcome: Outcome)
        requires
            old(self)@.accepts(command),
        ensures
            final(self)@ == old(self)@.step(command),
            final(self)@.wf(),
            outcome == outcome_of(command),
    {
        proof {
            use_type_invariant(&*self);
            lemma_step_preserves_wf(self@, command);
        }
        match command {
            Command::MoveLeft => {
                self.cursor.x = if self.cursor.x < HORIZONTAL_FACTOR {
                    0
                } else {
                    self.cursor.x - HORIZONTAL_FACTOR
                };
            },
            Command::MoveRight => {
                self.cursor.x = self.cursor.x + HORIZONTAL_FACTOR;
            },
            Command::MoveUp => {
                self.cursor.y = if self.cursor.y < VERTICAL_FACTOR {
                    0
                } else {
                    self.cursor.y - VERTICAL_FACTOR
                };
            },
            Command::MoveDown => {
                self.cursor.y = self.cursor.y + VERTICAL_FACTOR;
            },
            Command::AddPoint => {
                let open = self.is_drawing;
                let mut paths = self.take_paths();
                add_point(&mut paths, open, self.cursor);
                self.paths = paths;
                self.is_drawing = true;
            },
            Command::RemoveLastPoint => {
                let open = self.is_drawing;
                let mut paths = self.take_paths();
                remove_last_point(&mut paths);
                self.paths = paths;
                self.is_drawing = open;
            },
            Command::CommitPath => {
                self.is_drawing = false;
            },
            Command::CancelPath => {
                let mut paths = self.take_paths();
                remove_last_path(&mut paths);
                self.paths = paths;
            },
            Command::IncreaseGridX => {
                self.grid_count.x = self.grid_count.x + 1;
            },
            Command::DecreaseGridX => {
                self.grid_count.x = if self.grid_count.x < 1 {
                    0
                } else {
                    self.grid_count.x - 1
                };
            },
            Command::IncreaseGridY => {
                self.grid_count.y = self.grid_count.y + 1;
            },
            Command::DecreaseGridY => {
                self.grid_count.y = if self.grid_count.y < 1 {
                    0
                } else {
                    self.grid_count.y - 1
                };
            },
            Command::ExportRequest(sink) => {
                return Outcome { refresh: false, export: Some(sink) };
            },
            Command::Unrecognized => {
                return Outcome { refresh: false, export: None };
            },
        }
        Outcome { refresh: true, export: None }
    }

    /// Applies `command` if no coordinate would leave its range, and
    /// otherwise leaves the state as it is and returns nothing.
    pub fn try_apply(&mut self, command: Command) -> (outcome: Option<Outcome>)
        ensures
            final(self)@.wf(),
            old(self)@.accepts(command) ==> final(self)@ == old(self)@.step(command) && outcome
                == Some(outcome_of(command)),
            !old(self)@.accepts(command) ==> final(self)@ == old(self)@ && outcome.is_none(),
    {
        if self.accepts(command) {
            Some(self.apply(command))
        } else {
            proof {
                use_type_invariant(&*self);
            }
            None
        }
    }
}

impl Default for EditorState {
    /// The state of a fresh session.
    fn default() -> (state: EditorState)
        ensures
            state@ == EditorModel::initial(),
    {
        EditorState::new()
    }
}

/// Adds a vertex to the last path, after opening a path where none is open.
fn add_point(paths: &mut Vec<ClosedPath>, open: bool, vertex: Point)
    requires
        open ==> old(paths)@.len() > 0,
    ensures
        paths_view(final(paths)@) == with_point(paths_view(old(paths)@), open, vertex@),
{
    if !open {
        paths.push(ClosedPath::new());
    }
    let ghost base = paths_view(paths@);
    assert(base =~= if open {
        paths_view(old(paths)@)
    } else {
        paths_view(old(paths)@).push(Seq::empty())
    });
    let mut last = paths.pop().unwrap();
    last.points.push(vertex);
    assert(last@ =~= base.last().push(vertex@));
    paths.push(last);
    assert(paths_view(paths@) =~= base.drop_last().push(base.last().push(vertex@)));
}

/// Removes the last vertex of the last path, if there is one.
fn remove_last_point(paths: &mut Vec<ClosedPath>)
    ensures
        paths_view(final(paths)@) == without_last_point(paths_view(old(paths)@)),
{
    let ghost before = paths_view(paths@);
    match paths.pop() {
        Some(mut last) => {
            let ghost vertices = last@;
            let removed = last.points.pop();
            assert(last@ =~= if vertices.len() > 0 {
                vertices.drop_last()
            } else {
                vertices
            });
            paths.push(last);
            assert(paths_view(paths@) =~= if before.last().len() > 0 {
                before.drop_last().push(before.last().drop_last())
            } else {
                before
            });
        },
        None => {},
    }
}

/// Removes the last path, if there is one.
fn remove_last_path(paths: &mut Vec<ClosedPath>)
    ensures
        paths_view(final(paths)@) == without_last_path(paths_view(old(paths)@)),
{
    let removed = paths.pop();
    assert(paths_view(paths@) =~= if old(paths)@.len() > 0 {
        paths_view(old(paths)@).drop_last()
    } else {
        paths_view(old(paths)@)
    });
}

/// One command keeps a session well formed: cursor and grid counts stay
/// nonnegative, every vertex stays nonnegative, and an open path still exists
/// while drawing.
pub proof fn lemma_step_preserves_wf(m: EditorModel, command: Command)
    requires
        m.wf(),
    ensures
        m.step(command).wf(),
{
    let next = m.step(command);
    match command {
        Command::AddPoint => {
            let base = if m.is_drawing {
                m.paths
            } else {
                m.paths.push(Seq::empty())
            };
            assert forall|i: int, j: int|
                0 <= i < next.paths.len() && 0 <= j < next.paths[i].len() implies (
            #[trigger] next.paths[i][j]).x >= 0 && next.paths[i][j].y >= 0 by {
                if i < base.len() - 1 {
                    assert(next.paths[i] == base[i]);
                    assert(base[i] == m.paths[i]);
                } else if j < base.last().len() {
                    assert(next.paths[i][j] == base.last()[j]);
                    if m.is_drawing {
                        assert(base.last() == m.paths[m.paths.len() - 1]);
                    }
                }
            }
        },
        Command::RemoveLastPoint => {
            assert forall|i: int, j: int|
                0 <= i < next.paths.len() && 0 <= j < next.paths[i].len() implies (
            #[trigger] next.paths[i][j]).x >= 0 && next.paths[i][j].y >= 0 by {
                assert(next.paths[i][j] == m.paths[i][j]);
            }
        },
        Command::CancelPath => {
            assert forall|i: int, j: int|
                0 <= i < next.paths.len() && 0 <= j < next.paths[i].len() implies (
            #[trigger] next.paths[i][j]).x >= 0 && next.paths[i][j].y >= 0 by {
                assert(next.paths[i][j] == m.paths[i][j]);
            }
        },
        _ => {},
    }
}

/// Any sequence of commands keeps a well-formed session well formed.
pub proof fn lemma_run_preserves_wf(m: EditorModel, commands: Seq<Command>)
    requires
        m.wf(),
    ensures
        m.run(commands).wf(),
    decreases commands.len(),
{
    if commands.len() > 0 {
        lemma_run_preserves_wf(m, commands.drop_last());
        lemma_step_preserves_wf(m.run(commands.drop_last()), commands.last());
    }
}

/// The cursor never becomes negative: from a state whose cursor is
/// nonnegative, no sequence of commands, moves in any direction included,
/// leads to a negative cursor coordinate.
pub proof fn lemma_cursor_never_negative(m: EditorModel, commands: Seq<Command>)
    requires
        m.cursor.x >= 0,
        m.cursor.y >= 0,
    ensures
        m.run(commands).cursor.x >= 0,
        m.run(commands).cursor.y >= 0,
    decreases commands.len(),
{
    if commands.len() > 0 {
        lemma_cursor_never_negative(m, commands.drop_last());
    }
}

/// The grid counts never become negative: from a state whose counts are
/// nonnegative, no sequence of commands, however many decreases it holds,
/// leads to a negative count.
pub proof fn lemma_grid_count_never_negative(m: EditorModel, commands: Seq<Command>)
    requires
        m.grid_count.x >= 0,
        m.grid_count.y >= 0,
    ensures
        m.run(commands).grid_count.x >= 0,
        m.run(commands).grid_count.y >= 0,
    decreases commands.len(),
{
    if commands.len() > 0 {
        lemma_grid_count_never_negative(m, commands.drop_last());
    }
}

/// Adding a point always leaves the editor drawing. While not drawing it
/// adds exactly one path; while drawing it keeps the number of paths. Either
/// way the last path then ends with the cursor.
pub proof fn lemma_add_point_path_count(m: EditorModel)
    requires
        m.wf(),
    ensures
        m.step(Command::AddPoint).is_drawing,
        !m.is_drawing ==> m.step(Command::AddPoint).paths.len() == m.paths.len() + 1,
        m.is_drawing ==> m.step(Command::AddPoint).paths.len() == m.paths.len(),
        m.step(Command::AddPoint).paths.last().last() == m.cursor,
{
}

/// A point added right after a commit starts a path of its own: every path
/// that was there, the committed one included, stays as it was, and the new
/// last path holds the cursor alone.
pub proof fn lemma_add_point_after_commit(m: EditorModel)
    ensures
        m.step(Command::CommitPath).step(Command::AddPoint).paths == m.paths.push(seq![m.cursor]),
        m.step(Command::CommitPath).step(Command::AddPoint).is_drawing,
{
    let committed = m.step(Command::CommitPath);
    let base = committed.paths.push(Seq::<GridPoint>::empty());
    assert(base.drop_last() =~= m.paths);
    assert(base.last().push(m.cursor) =~= seq![m.cursor]);
}

/// Cancelling while there is no path changes no path and leaves the editor
/// not drawing.
pub proof fn lemma_cancel_without_paths(m: EditorModel)
    requires
        m.paths.len() == 0,
    ensures
        m.step(Command::CancelPath).paths == m.paths,
        !m.step(Command::CancelPath).is_drawing,
{
}

/// The grid keys change one cell count and nothing else. With shift held the
/// key lowers its count by one but not below zero, without shift it raises
/// the count by one; the other count, the cursor, the paths and the drawing
/// flag stay, and a refresh is asked for. A decrease is always accepted.
pub proof fn lemma_grid_keys(m: EditorModel, shift: bool)
    ensures
        m.step(key_command(Key::H, shift)) == (EditorModel {
            grid_count: GridPoint {
                x: if shift {
                    clamp_at_zero(m.grid_count.x - 1)
                } else {
                    m.grid_count.x + 1
                },
                y: m.grid_count.y,
            },
            ..m
        }),
        m.step(key_command(Key::V, shift)) == (EditorModel {
            grid_count: GridPoint {
                x: m.grid_count.x,
                y: if shift {
                    clamp_at_zero(m.grid_count.y - 1)
                } else {
                    m.grid_count.y + 1
                },
            },
            ..m
        }),
        m.step(key_command(Key::H, true)).grid_count.x >= 0,
        m.step(key_command(Key::V, true)).grid_count.y >= 0,
        outcome_of(key_command(Key::H, shift)) == (Outcome { refresh: true, export: None }),
        outcome_of(key_command(Key::V, shift)) == (Outcome { refresh: true, export: None }),
        m.accepts(key_command(Key::H, true)),
        m.accepts(key_command(Key::V, true)),
{
}

} // verus!
