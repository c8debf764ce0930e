use pixelpath::decimal::decimal_string;
use pixelpath::editor::{Command, EditorState};
use pixelpath::export::{
    assemble_svg, finish_export, path_data, plan_export, write_export, ExportError, SvgExport,
    SVG_NS_URI,
};
use pixelpath::geometry::{ClosedPath, Point};

fn path(points: &[(i32, i32)]) -> ClosedPath {
    ClosedPath::from_points(points.iter().map(|&(x, y)| Point::new(x, y)).collect())
}

fn document(width: &str, height: &str, d: &str) -> String {
    format!(
        "<?xml version='1.0'?><svg xmlns='http://www.w3.org/2000/svg' width='{}' height='{}'><path d='{}'/></svg>",
        width, height, d
    )
}

#[test]
fn decimal_text_of_integers() {
    assert_eq!(decimal_string(0), "0");
    assert_eq!(decimal_string(7), "7");
    assert_eq!(decimal_string(10), "10");
    assert_eq!(decimal_string(1234567890), "1234567890");
    assert_eq!(decimal_string(-1), "-1");
    assert_eq!(decimal_string(-405), "-405");
    assert_eq!(decimal_string(i64::MAX), "9223372036854775807");
    assert_eq!(decimal_string(i64::MIN), "-9223372036854775808");
}

#[test]
fn triangle_serializes_to_one_subpath() {
    let paths = vec![path(&[(0, 0), (100, 0), (100, 100)])];
    let plan = plan_export(Point::new(2, 2), &paths);
    assert_eq!(plan.path_data, "M 0 0 L 100 0 L 100 100 z");
    assert_eq!(plan.width, 200);
    assert_eq!(plan.height, 200);
    assert_eq!(
        assemble_svg(Point::new(2, 2), &paths),
        Ok(document("200", "200", "M 0 0 L 100 0 L 100 100 z"))
    );
}

#[test]
fn two_paths_are_separated_by_one_space() {
    let paths = vec![path(&[(0, 0), (10, 0)]), path(&[(5, 5), (5, 15)])];
    assert_eq!(path_data(&paths), "M 0 0 L 10 0 z M 5 5 L 5 15 z");
}

#[test]
fn empty_path_between_two_paths_is_skipped() {
    let with_gap = vec![path(&[(0, 0), (10, 0)]), path(&[]), path(&[(5, 5), (5, 15)])];
    let without = vec![path(&[(0, 0), (10, 0)]), path(&[(5, 5), (5, 15)])];
    assert_eq!(path_data(&with_gap), "M 0 0 L 10 0 z M 5 5 L 5 15 z");
    assert_eq!(path_data(&with_gap), path_data(&without));
}

#[test]
fn empty_paths_at_the_ends_are_skipped() {
    let paths = vec![path(&[]), path(&[(1, 2)]), path(&[]), path(&[])];
    assert_eq!(path_data(&paths), "M 1 2 z");
}

#[test]
fn single_vertex_path_has_a_move_and_a_close() {
    assert_eq!(path_data(&[path(&[(300, 400)])]), "M 300 400 z");
}

#[test]
fn no_paths_give_an_empty_attribute() {
    assert_eq!(path_data(&[]), "");
    assert_eq!(path_data(&[path(&[]), path(&[])]), "");
    assert_eq!(assemble_svg(Point::new(0, 0), &[]), Ok(document("0", "0", "")));
}

#[test]
fn negative_coordinates_are_written_with_a_sign() {
    assert_eq!(path_data(&[path(&[(-5, 3), (7, -12)])]), "M -5 3 L 7 -12 z");
}

#[test]
fn canvas_size_is_the_grid_count_times_one_hundred() {
    let paths = vec![path(&[(5000, 7000), (0, 0)])];
    let plan = plan_export(Point::new(3, 7), &paths);
    assert_eq!((plan.width, plan.height), (300, 700));
    let plan = plan_export(Point::new(3, 7), &[]);
    assert_eq!((plan.width, plan.height), (300, 700));
    let plan = plan_export(Point::new(0, 1), &paths);
    assert_eq!((plan.width, plan.height), (0, 100));
    let plan = plan_export(Point::new(i32::MAX, i32::MAX), &[]);
    assert_eq!((plan.width, plan.height), (214_748_364_700, 214_748_364_700));
}

#[test]
fn paths_outside_the_canvas_are_not_clipped() {
    let paths = vec![path(&[(0, 0), (900, 0), (900, 900)])];
    assert_eq!(
        assemble_svg(Point::new(1, 1), &paths),
        Ok(document("100", "100", "M 0 0 L 900 0 L 900 900 z"))
    );
}

#[test]
fn document_declares_the_svg_namespace_on_its_root() {
    assert_eq!(SVG_NS_URI, "http://www.w3.org/2000/svg");
    let text = assemble_svg(Point::new(1, 2), &[path(&[(1, 1)])]).unwrap();
    assert!(text.starts_with("<?xml version='1.0'?><svg xmlns='http://www.w3.org/2000/svg' "));
    assert!(text.ends_with("</svg>"));
    assert_eq!(text, document("100", "200", "M 1 1 z"));
}

#[test]
fn write_export_formats_what_the_plan_holds() {
    let plan = SvgExport { width: 12, height: 345, path_data: String::from("M 9 8 z") };
    assert_eq!(write_export(&plan), Ok(document("12", "345", "M 9 8 z")));
}

#[test]
fn finish_export_passes_text_on_and_reports_a_missing_one() {
    assert_eq!(finish_export(Some(String::from("<svg/>"))), Ok(String::from("<svg/>")));
    assert_eq!(finish_export(None), Err(ExportError::SerializationFault));
}

#[test]
fn session_exports_what_was_drawn() {
    let mut state = EditorState::new();
    for command in [
        Command::IncreaseGridX,
        Command::IncreaseGridX,
        Command::IncreaseGridY,
        Command::IncreaseGridY,
        Command::AddPoint,
        Command::MoveRight,
        Command::AddPoint,
        Command::MoveDown,
        Command::AddPoint,
        Command::CommitPath,
        Command::AddPoint,
        Command::RemoveLastPoint,
        Command::CommitPath,
    ] {
        state.apply(command);
    }
    assert_eq!(state.paths().len(), 2);
    assert_eq!(
        assemble_svg(state.grid_count(), state.paths()),
        Ok(document("200", "200", "M 0 0 L 100 0 L 100 100 z"))
    );
}

#[test]
fn write_export_escapes_the_geometry_it_is_given() {
    let plan = SvgExport { width: 1, height: 2, path_data: String::from("a<b>c&d'e\"f") };
    assert_eq!(
        write_export(&plan),
        Ok(document("1", "2", "a&lt;b&gt;c&amp;d&apos;e&quot;f"))
    );
}

#[test]
fn write_export_keeps_text_beyond_ascii() {
    let plan = SvgExport { width: 0, height: 0, path_data: String::from("\u{e9}<\u{4e16}") };
    assert_eq!(write_export(&plan), Ok(document("0", "0", "\u{e9}&lt;\u{4e16}")));
}

#[test]
fn export_always_gives_a_document() {
    assert!(assemble_svg(Point::new(0, 0), &[]).is_ok());
    assert!(assemble_svg(Point::new(i32::MAX, i32::MAX), &[path(&[(i32::MIN, i32::MAX)])]).is_ok());
    assert_eq!(
        assemble_svg(Point::new(i32::MAX, 0), &[path(&[(i32::MIN, i32::MAX)])]),
        Ok(document("214748364700", "0", "M -2147483648 2147483647 z"))
    );
}
