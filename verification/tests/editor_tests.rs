use pixelpath::editor::{command_for_key, Command, EditorState, ExportSink, Key, Outcome};
use pixelpath::geometry::{ClosedPath, Point};

fn run(state: &mut EditorState, commands: &[Command]) {
    for command in commands {
        assert!(state.accepts(*command));
        state.apply(*command);
    }
}

fn path(points: &[(i32, i32)]) -> ClosedPath {
    ClosedPath::from_points(points.iter().map(|&(x, y)| Point::new(x, y)).collect())
}

const REFRESH: Outcome = Outcome { refresh: true, export: None };

#[test]
fn fresh_state_is_all_zero() {
    let state = EditorState::new();
    assert_eq!(state.cursor(), Point::new(0, 0));
    assert!(!state.is_drawing());
    assert!(state.paths().is_empty());
    assert_eq!(state.grid_count(), Point::new(0, 0));
}

#[test]
fn moves_step_by_one_hundred() {
    let mut state = EditorState::new();
    assert_eq!(state.apply(Command::MoveRight), REFRESH);
    assert_eq!(state.cursor(), Point::new(100, 0));
    assert_eq!(state.apply(Command::MoveDown), REFRESH);
    assert_eq!(state.apply(Command::MoveDown), REFRESH);
    assert_eq!(state.cursor(), Point::new(100, 200));
    assert_eq!(state.apply(Command::MoveLeft), REFRESH);
    assert_eq!(state.cursor(), Point::new(0, 200));
    assert_eq!(state.apply(Command::MoveUp), REFRESH);
    assert_eq!(state.cursor(), Point::new(0, 100));
}

#[test]
fn moves_left_and_up_clamp_at_zero() {
    let mut state = EditorState::new();
    run(&mut state, &[Command::MoveLeft, Command::MoveUp, Command::MoveLeft]);
    assert_eq!(state.cursor(), Point::new(0, 0));
    run(&mut state, &[Command::MoveRight, Command::MoveLeft, Command::MoveLeft, Command::MoveUp]);
    assert_eq!(state.cursor(), Point::new(0, 0));
}

#[test]
fn cursor_is_never_negative_along_a_walk() {
    let walk = [
        Command::MoveLeft,
        Command::MoveRight,
        Command::MoveUp,
        Command::MoveUp,
        Command::MoveDown,
        Command::MoveLeft,
        Command::MoveLeft,
        Command::MoveRight,
        Command::MoveRight,
        Command::MoveUp,
        Command::MoveDown,
        Command::MoveDown,
        Command::MoveUp,
        Command::MoveUp,
        Command::MoveUp,
    ];
    let mut state = EditorState::new();
    for command in walk {
        state.apply(command);
        assert!(state.cursor().x >= 0);
        assert!(state.cursor().y >= 0);
    }
    assert_eq!(state.cursor(), Point::new(200, 0));
}

#[test]
fn add_point_opens_a_path_when_not_drawing() {
    let mut state = EditorState::new();
    run(&mut state, &[Command::MoveRight]);
    assert_eq!(state.apply(Command::AddPoint), REFRESH);
    assert!(state.is_drawing());
    assert_eq!(state.paths().len(), 1);
    assert_eq!(state.paths()[0], path(&[(100, 0)]));
}

#[test]
fn add_point_extends_the_open_path_when_drawing() {
    let mut state = EditorState::new();
    run(&mut state, &[Command::AddPoint, Command::MoveRight]);
    let before = state.paths().len();
    state.apply(Command::AddPoint);
    assert!(state.is_drawing());
    assert_eq!(state.paths().len(), before);
    assert_eq!(state.paths()[0], path(&[(0, 0), (100, 0)]));
}

#[test]
fn add_point_after_commit_starts_a_new_path() {
    let mut state = EditorState::new();
    run(
        &mut state,
        &[Command::AddPoint, Command::MoveRight, Command::AddPoint, Command::CommitPath],
    );
    assert!(!state.is_drawing());
    run(&mut state, &[Command::MoveDown, Command::AddPoint]);
    assert!(state.is_drawing());
    assert_eq!(state.paths().len(), 2);
    assert_eq!(state.paths()[0], path(&[(0, 0), (100, 0)]));
    assert_eq!(state.paths()[1], path(&[(100, 100)]));
}

#[test]
fn remove_last_point_pops_one_vertex_and_keeps_drawing() {
    let mut state = EditorState::new();
    run(&mut state, &[Command::AddPoint, Command::MoveRight, Command::AddPoint]);
    assert_eq!(state.apply(Command::RemoveLastPoint), REFRESH);
    assert!(state.is_drawing());
    assert_eq!(state.paths().len(), 1);
    assert_eq!(state.paths()[0], path(&[(0, 0)]));
}

#[test]
fn remove_last_point_can_empty_the_open_path() {
    let mut state = EditorState::new();
    run(
        &mut state,
        &[
            Command::AddPoint,
            Command::RemoveLastPoint,
            Command::RemoveLastPoint,
            Command::RemoveLastPoint,
        ],
    );
    assert!(state.is_drawing());
    assert_eq!(state.paths().len(), 1);
    assert!(state.paths()[0].is_empty());
    run(&mut state, &[Command::CommitPath]);
    assert!(!state.is_drawing());
    assert_eq!(state.paths().len(), 1);
    assert!(state.paths()[0].is_empty());
}

#[test]
fn remove_last_point_without_paths_is_a_no_op() {
    let mut state = EditorState::new();
    assert_eq!(state.apply(Command::RemoveLastPoint), REFRESH);
    assert!(state.paths().is_empty());
    assert!(!state.is_drawing());
}

#[test]
fn remove_last_point_does_not_start_drawing() {
    let mut state = EditorState::new();
    run(
        &mut state,
        &[Command::AddPoint, Command::MoveDown, Command::AddPoint, Command::CommitPath],
    );
    run(&mut state, &[Command::RemoveLastPoint]);
    assert!(!state.is_drawing());
    assert_eq!(state.paths()[0], path(&[(0, 0)]));
}

#[test]
fn commit_keeps_the_path() {
    let mut state = EditorState::new();
    run(&mut state, &[Command::AddPoint]);
    assert_eq!(state.apply(Command::CommitPath), REFRESH);
    assert!(!state.is_drawing());
    assert_eq!(state.paths().len(), 1);
    assert_eq!(state.paths()[0], path(&[(0, 0)]));
}

#[test]
fn cancel_removes_the_last_path() {
    let mut state = EditorState::new();
    run(
        &mut state,
        &[Command::AddPoint, Command::CommitPath, Command::MoveRight, Command::AddPoint],
    );
    assert_eq!(state.paths().len(), 2);
    assert_eq!(state.apply(Command::CancelPath), REFRESH);
    assert!(!state.is_drawing());
    assert_eq!(state.paths().len(), 1);
    assert_eq!(state.paths()[0], path(&[(0, 0)]));
}

#[test]
fn cancel_removes_a_committed_path_too() {
    let mut state = EditorState::new();
    run(&mut state, &[Command::AddPoint, Command::CommitPath, Command::CancelPath]);
    assert!(state.paths().is_empty());
    assert!(!state.is_drawing());
}

#[test]
fn cancel_without_paths_is_a_no_op() {
    let mut state = EditorState::new();
    assert_eq!(state.apply(Command::CancelPath), REFRESH);
    assert!(state.paths().is_empty());
    assert!(!state.is_drawing());
}

#[test]
fn grid_counts_increase_and_decrease_independently() {
    let mut state = EditorState::new();
    run(
        &mut state,
        &[Command::IncreaseGridX, Command::IncreaseGridX, Command::IncreaseGridX, Command::IncreaseGridY],
    );
    assert_eq!(state.grid_count(), Point::new(3, 1));
    assert_eq!(state.apply(Command::DecreaseGridX), REFRESH);
    assert_eq!(state.grid_count(), Point::new(2, 1));
    assert_eq!(state.apply(Command::DecreaseGridY), REFRESH);
    assert_eq!(state.grid_count(), Point::new(2, 0));
    assert!(state.paths().is_empty());
    assert_eq!(state.cursor(), Point::new(0, 0));
}

#[test]
fn grid_counts_never_drop_below_zero() {
    let mut state = EditorState::new();
    for _ in 0..5 {
        state.apply(Command::DecreaseGridX);
        state.apply(Command::DecreaseGridY);
        assert_eq!(state.grid_count(), Point::new(0, 0));
    }
    run(&mut state, &[Command::IncreaseGridX, Command::IncreaseGridY]);
    for _ in 0..3 {
        state.apply(Command::DecreaseGridX);
        state.apply(Command::DecreaseGridY);
        assert!(state.grid_count().x >= 0);
        assert!(state.grid_count().y >= 0);
    }
    assert_eq!(state.grid_count(), Point::new(0, 0));
}

#[test]
fn export_request_changes_nothing_and_asks_for_no_refresh() {
    let mut state = EditorState::new();
    run(&mut state, &[Command::MoveRight, Command::AddPoint, Command::IncreaseGridX]);
    let outcome = state.apply(Command::ExportRequest(ExportSink::Print));
    assert_eq!(outcome, Outcome { refresh: false, export: Some(ExportSink::Print) });
    let outcome = state.apply(Command::ExportRequest(ExportSink::Save));
    assert_eq!(outcome, Outcome { refresh: false, export: Some(ExportSink::Save) });
    assert_eq!(state.cursor(), Point::new(100, 0));
    assert!(state.is_drawing());
    assert_eq!(state.paths().len(), 1);
    assert_eq!(state.paths()[0], path(&[(100, 0)]));
    assert_eq!(state.grid_count(), Point::new(1, 0));
}

#[test]
fn unrecognized_command_changes_nothing_and_asks_for_no_refresh() {
    let mut state = EditorState::new();
    run(&mut state, &[Command::MoveDown, Command::AddPoint]);
    let outcome = state.apply(Command::Unrecognized);
    assert_eq!(outcome, Outcome { refresh: false, export: None });
    assert_eq!(state.cursor(), Point::new(0, 100));
    assert!(state.is_drawing());
    assert_eq!(state.paths().len(), 1);
    assert_eq!(state.paths()[0], path(&[(0, 100)]));
}

#[test]
fn move_right_is_refused_where_the_cursor_would_leave_its_range() {
    let mut state = EditorState::new();
    let mut steps = 0;
    while state.accepts(Command::MoveRight) {
        state.apply(Command::MoveRight);
        steps += 1;
    }
    assert_eq!(steps, 21_474_836);
    assert_eq!(state.cursor(), Point::new(2_147_483_600, 0));
    assert_eq!(state.try_apply(Command::MoveRight), None);
    assert_eq!(state.cursor(), Point::new(2_147_483_600, 0));
    assert_eq!(state.try_apply(Command::MoveLeft), Some(REFRESH));
    assert_eq!(state.cursor(), Point::new(2_147_483_500, 0));
}

#[test]
fn try_apply_applies_what_is_accepted() {
    let mut state = EditorState::new();
    assert_eq!(state.try_apply(Command::MoveDown), Some(REFRESH));
    assert_eq!(state.try_apply(Command::AddPoint), Some(REFRESH));
    assert_eq!(
        state.try_apply(Command::ExportRequest(ExportSink::Save)),
        Some(Outcome { refresh: false, export: Some(ExportSink::Save) })
    );
    assert_eq!(state.try_apply(Command::Unrecognized), Some(Outcome { refresh: false, export: None }));
    assert_eq!(state.cursor(), Point::new(0, 100));
    assert_eq!(state.paths()[0], path(&[(0, 100)]));
}

#[test]
fn keys_map_to_commands() {
    for shift in [false, true] {
        assert_eq!(command_for_key(Key::Left, shift), Command::MoveLeft);
        assert_eq!(command_for_key(Key::Right, shift), Command::MoveRight);
        assert_eq!(command_for_key(Key::Up, shift), Command::MoveUp);
        assert_eq!(command_for_key(Key::Down, shift), Command::MoveDown);
        assert_eq!(command_for_key(Key::Space, shift), Command::AddPoint);
        assert_eq!(command_for_key(Key::Backspace, shift), Command::RemoveLastPoint);
        assert_eq!(command_for_key(Key::Return, shift), Command::CommitPath);
        assert_eq!(command_for_key(Key::Escape, shift), Command::CancelPath);
        assert_eq!(command_for_key(Key::P, shift), Command::ExportRequest(ExportSink::Print));
        assert_eq!(command_for_key(Key::S, shift), Command::ExportRequest(ExportSink::Save));
        assert_eq!(command_for_key(Key::Other, shift), Command::Unrecognized);
    }
}

#[test]
fn shift_turns_grid_keys_to_decrease() {
    assert_eq!(command_for_key(Key::H, false), Command::IncreaseGridX);
    assert_eq!(command_for_key(Key::H, true), Command::DecreaseGridX);
    assert_eq!(command_for_key(Key::V, false), Command::IncreaseGridY);
    assert_eq!(command_for_key(Key::V, true), Command::DecreaseGridY);
}
