//! Vector export: turns the closed paths and the grid dimensions into the
//! text of an SVG document.

use vstd::prelude::*;
use vstd::string::StringExecFns;
use crate::decimal::{append_decimal, decimal_string, decimal_text, digit_char, digits_text};
use crate::geometry::{curve_commands, paths_view, to_curve_commands, ClosedPath, GridPoint, Point};
use crate::transform::{HORIZONTAL_FACTOR, VERTICAL_FACTOR};

verus! {

/// Namespace that the root element of an exported document declares.
pub const SVG_NS_URI: &'static str = "http://www.w3.org/2000/svg";

/// The token of one vertex: `M` for the first vertex of a path and `L` for
/// every other, then the two coordinates in decimal, separated by spaces.
pub open spec fn vertex_token(first: bool, p: GridPoint) -> Seq<char> {
    seq![if first { 'M' } else { 'L' }, ' '] + decimal_text(p.x) + seq![' '] + decimal_text(p.y)
}

/// The vertex tokens of a path, separated by single spaces.
pub open spec fn vertices_text(points: Seq<GridPoint>) -> Seq<char>
    decreases points.len(),
{
    if points.len() == 0 {
        Seq::<char>::empty()
    } else if points.len() == 1 {
        vertex_token(true, points[0])
    } else {
        vertices_text(points.drop_last()) + seq![' '] + vertex_token(false, points.last())
    }
}

/// The token run of a path with at least one vertex: its vertex tokens, then
/// the closing token `z`.
pub open spec fn subpath_text(points: Seq<GridPoint>) -> Seq<char>
    recommends
        points.len() > 0,
{
    vertices_text(points) + seq![' ', 'z']
}

/// The combined geometry attribute of a sequence of paths: the token runs of
/// the paths that have vertices, in order, separated by single spaces. Paths
/// without vertices contribute nothing.
pub open spec fn path_data_text(paths: Seq<Seq<GridPoint>>) -> Seq<char>
    decreases paths.len(),
{
    if paths.len() == 0 {
        Seq::<char>::empty()
    } else {
        let before = path_data_text(paths.drop_last());
        let last = paths.last();
        if last.len() == 0 {
            before
        } else if before.len() == 0 {
            subpath_text(last)
        } else {
            before + seq![' '] + subpath_text(last)
        }
    }
}

/// Appends the token run of a path that has at least one vertex.
fn append_subpath(out: &mut String, path: &ClosedPath)
    requires
        path@.len() > 0,
    ensures
        final(out)@ == old(out)@ + subpath_text(path@),
{
    let ghost start = out@;
    let commands = to_curve_commands(path);
    let mut i: usize = 0;
    while i < commands.len()
        invariant
            i <= commands.len(),
            commands@ == curve_commands(path.points@),
            out@ == start + vertices_text(path@.take(i as int)),
        decreases commands.len() - i,
    {
        let ghost before = out@;
        let command = commands[i];
        let p = command.target();
        proof {
            reveal_strlit(" ");
            reveal_strlit("M ");
            reveal_strlit("L ");
        }
        if i > 0 {
            out.append(" ");
        }
        if command.is_move() {
            out.append("M ");
        } else {
            out.append("L ");
        }
        append_decimal(out, p.x as i64);
        out.append(" ");
        append_decimal(out, p.y as i64);
        i += 1;
        proof {
            let taken = path@.take(i as int);
            assert(taken.drop_last() =~= path@.take(i - 1));
            assert(taken.last() == p@);
            assert(" "@ =~= seq![' ']);
            assert("M "@ =~= seq!['M', ' ']);
            assert("L "@ =~= seq!['L', ' ']);
            if i == 1 {
                assert(vertices_text(path@.take(0)) =~= Seq::<char>::empty());
                assert(out@ =~= start + vertex_token(true, p@));
            } else {
                assert(out@ =~= before + seq![' '] + vertex_token(false, p@));
            }
            assert(out@ =~= start + vertices_text(taken));
        }
    }
    out.append(" z");
    proof {
        reveal_strlit(" z");
        assert(" z"@ =~= seq![' ', 'z']);
        assert(path@.take(i as int) =~= path@);
        assert(out@ =~= start + subpath_text(path@));
    }
}

/// Builds the combined geometry attribute of `paths`.
pub fn path_data(paths: &[ClosedPath]) -> (text: String)
    ensures
        text@ == path_data_text(paths_view(paths@)),
{
    let ghost all = paths_view(paths@);
    let mut text = String::new();
    let mut any: bool = false;
    let mut i: usize = 0;
    while i < paths.len()
        invariant
            i <= paths.len(),
            all == paths_view(paths@),
            text@ == path_data_text(all.take(i as int)),
            any == (text@.len() > 0),
        decreases paths.len() - i,
    {
        let path = &paths[i];
        proof {
            let taken = all.take(i + 1);
            assert(taken.drop_last() =~= all.take(i as int));
            assert(taken.last() == path@);
        }
        if !path.is_empty() {
            if any {
                out_space(&mut text);
            }
            append_subpath(&mut text, path);
            any = true;
        }
        i += 1;
        assert(text@ =~= path_data_text(all.take(i as int)));
    }
    assert(all.take(i as int) =~= all);
    text
}

/// Appends a single space.
fn out_space(out: &mut String)
    ensures
        final(out)@ == old(out)@ + seq![' '],
{
    out.append(" ");
    proof {
        reveal_strlit(" ");
        assert(" "@ =~= seq![' ']);
    }
}

/// What an export writes down: the size of the canvas and the combined
/// geometry attribute.
#[derive(Debug)]
pub struct SvgExport {
    /// Width of the canvas in grid units.
    pub width: i64,
    /// Height of the canvas in grid units.
    pub height: i64,
    /// The combined geometry attribute.
    pub path_data: String,
}

/// Why an export produced no document.
#[derive(Clone, Copy, Debug, PartialEq, Eq, Structural)]
pub enum ExportError {
    /// The document could not be written out as UTF-8 text.
    SerializationFault,
}

/// Lays out an export: the canvas is as wide as the horizontal cell count
/// times the horizontal step and as high as the vertical cell count times the
/// vertical step, whatever the paths hold; the geometry is the combined
/// attribute of the paths, unscaled and without offset.
pub fn plan_export(grid: Point, paths: &[ClosedPath]) -> (plan: SvgExport)
    ensures
        plan.width == grid.x * HORIZONTAL_FACTOR,
        plan.height == grid.y * VERTICAL_FACTOR,
        plan.path_data@ == path_data_text(paths_view(paths@)),
{
    let width: i64 = (grid.x as i64) * (HORIZONTAL_FACTOR as i64);
    let height: i64 = (grid.y as i64) * (VERTICAL_FACTOR as i64);
    SvgExport { width, height, path_data: path_data(paths) }
}

/// Whether the writer replaces the character by an entity inside an
/// attribute value.
pub open spec fn needs_entity(c: char) -> bool {
    c == '<' || c == '>' || c == '&' || c == '\'' || c == '"'
}

/// What stands for a character inside an attribute value: its entity for
/// each of the five characters with a meaning in markup, else the character
/// itself.
pub open spec fn entity_of(c: char) -> Seq<char> {
    if c == '<' {
        seq!['&', 'l', 't', ';']
    } else if c == '>' {
        seq!['&', 'g', 't', ';']
    } else if c == '&' {
        seq!['&', 'a', 'm', 'p', ';']
    } else if c == '\'' {
        seq!['&', 'a', 'p', 'o', 's', ';']
    } else if c == '"' {
        seq!['&', 'q', 'u', 'o', 't', ';']
    } else {
        seq![c]
    }
}

/// An attribute value as it stands between its quotes: every character
/// replaced by what stands for it.
pub open spec fn escaped(value: Seq<char>) -> Seq<char>
    decreases value.len(),
{
    if value.len() == 0 {
        Seq::<char>::empty()
    } else {
        escaped(value.drop_last()) + entity_of(value.last())
    }
}

/// Whether a text holds no character that the writer replaces.
pub open spec fn is_plain(value: Seq<char>) -> bool {
    forall|i: int| 0 <= i < value.len() ==> !needs_entity(#[trigger] value[i])
}

/// One attribute inside a tag: a space, the name, and the quoted value.
pub open spec fn attribute_text(name: Seq<char>, quoted: Seq<char>) -> Seq<char> {
    seq![' '] + name + seq!['=', '\''] + quoted + seq!['\'']
}

/// The markup of an export: the XML declaration; the root element `svg` with
/// the attributes `xmlns`, `width` and `height`, in this order; inside it the
/// one element `path` with the attribute `d`, closed in its own tag; and the
/// root's closing tag. The four arguments are what stands between the quotes.
pub open spec fn document_markup(
    namespace: Seq<char>,
    width: Seq<char>,
    height: Seq<char>,
    path_data: Seq<char>,
) -> Seq<char> {
    "<?xml version='1.0'?>"@ + "<svg"@ + attribute_text("xmlns"@, namespace) + attribute_text(
        "width"@,
        width,
    ) + attribute_text("height"@, height) + ">"@ + "<path"@ + attribute_text("d"@, path_data)
        + "/>"@ + "</svg>"@
}

/// The text of the document with the four attribute values given: its
/// markup, with each value escaped between its quotes.
pub open spec fn svg_document_text(
    namespace: Seq<char>,
    width: Seq<char>,
    height: Seq<char>,
    path_data: Seq<char>,
) -> Seq<char> {
    document_markup(escaped(namespace), escaped(width), escaped(height), escaped(path_data))
}

/// Escaping keeps a text that holds none of the five replaced characters.
pub proof fn lemma_plain_text_is_kept(value: Seq<char>)
    requires
        is_plain(value),
    ensures
        escaped(value) == value,
    decreases value.len(),
{
    if value.len() > 0 {
        let front = value.drop_last();
        assert forall|i: int| 0 <= i < front.len() implies !needs_entity(#[trigger] front[i]) by {
            assert(front[i] == value[i]);
        }
        lemma_plain_text_is_kept(front);
        assert(!needs_entity(value[value.len() - 1]));
        assert(escaped(value) =~= value);
    }
}

/// Two plain texts in a row are plain.
proof fn lemma_plain_concat(a: Seq<char>, b: Seq<char>)
    requires
        is_plain(a),
        is_plain(b),
    ensures
        is_plain(a + b),
{
    assert forall|i: int| 0 <= i < (a + b).len() implies !needs_entity(#[trigger] (a + b)[i]) by {
        if i < a.len() {
            assert((a + b)[i] == a[i]);
        } else {
            assert((a + b)[i] == b[i - a.len()]);
        }
    }
}

/// The digits of a number are plain.
proof fn lemma_digits_plain(n: nat)
    ensures
        is_plain(digits_text(n)),
    decreases n,
{
    if n >= 10 {
        lemma_digits_plain(n / 10);
        lemma_plain_concat(digits_text(n / 10), seq![digit_char((n % 10) as int)]);
        assert(digits_text(n) =~= digits_text(n / 10) + seq![digit_char((n % 10) as int)]);
    }
}

/// The decimal text of an integer is plain.
proof fn lemma_decimal_plain(v: int)
    ensures
        is_plain(decimal_text(v)),
{
    if v < 0 {
        lemma_digits_plain((-v) as nat);
        lemma_plain_concat(seq!['-'], digits_text((-v) as nat));
    } else {
        lemma_digits_plain(v as nat);
    }
}

/// The token of a vertex is plain.
proof fn lemma_vertex_token_plain(first: bool, p: GridPoint)
    ensures
        is_plain(vertex_token(first, p)),
{
    let letter = seq![if first { 'M' } else { 'L' }, ' '];
    lemma_decimal_plain(p.x);
    lemma_decimal_plain(p.y);
    lemma_plain_concat(letter, decimal_text(p.x));
    lemma_plain_concat(letter + decimal_text(p.x), seq![' ']);
    lemma_plain_concat(letter + decimal_text(p.x) + seq![' '], decimal_text(p.y));
}

/// The vertex tokens of a path are plain.
proof fn lemma_vertices_plain(points: Seq<GridPoint>)
    ensures
        is_plain(vertices_text(points)),
    decreases points.len(),
{
    if points.len() == 1 {
        lemma_vertex_token_plain(true, points[0]);
    } else if points.len() > 1 {
        lemma_vertices_plain(points.drop_last());
        lemma_vertex_token_plain(false, points.last());
        lemma_plain_concat(vertices_text(points.drop_last()), seq![' ']);
        lemma_plain_concat(
            vertices_text(points.drop_last()) + seq![' '],
            vertex_token(false, points.last()),
        );
    }
}

/// The geometry attribute of any paths is plain: it holds only the letters
/// `M`, `L` and `z`, spaces, digits and minus signs.
pub proof fn lemma_path_data_plain(paths: Seq<Seq<GridPoint>>)
    ensures
        is_plain(path_data_text(paths)),
    decreases paths.len(),
{
    if paths.len() > 0 {
        let before = path_data_text(paths.drop_last());
        let last = paths.last();
        lemma_path_data_plain(paths.drop_last());
        if last.len() > 0 {
            lemma_vertices_plain(last);
            lemma_plain_concat(vertices_text(last), seq![' ', 'z']);
            lemma_plain_concat(before, seq![' ']);
            lemma_plain_concat(before + seq![' '], subpath_text(last));
        }
    }
}

/// The namespace is plain.
proof fn lemma_namespace_plain()
    ensures
        is_plain(SVG_NS_URI@),
{
    reveal_strlit("http://www.w3.org/2000/svg");
}

/// Builds the document with `sxd_document` and formats it with
/// `sxd_document::writer::format_document` into a byte vector, which
/// `String::from_utf8` turns into text. Trusted: the call always returns a
/// text, since the writer fails only where its sink fails and a vector does
/// not, and every byte it writes comes from text; and the text is the
/// declaration, the root's tag with the three attributes in the order set,
/// the child's tag with its one attribute, and the closing tag, each value in
/// single quotes with the five replaced characters as entities.
#[verifier::external_body]
fn format_svg_document(namespace: &str, width: &str, height: &str, path_data: &str) -> (out: Option<String>)
    ensures
        out is Some,
        out matches Some(text) ==> text@ == svg_document_text(
            namespace@,
            width@,
            height@,
            path_data@,
        ),
{
    let package = sxd_document::Package::new();
    let doc = package.as_document();
    let svg = doc.create_element("svg");
    svg.set_attribute_value("xmlns", namespace);
    doc.root().append_child(svg);
    svg.set_attribute_value("width", width);
    svg.set_attribute_value("height", height);
    let path = doc.create_element("path");
    path.set_attribute_value("d", path_data);
    svg.append_child(path);
    let mut bytes = Vec::new();
    match sxd_document::writer::format_document(&doc, &mut bytes) {
        Ok(()) => String::from_utf8(bytes).ok(),
        Err(_) => None,
    }
}

/// The outcome of an export, given what the writer handed back: the text
/// itself, or a serialization fault where there is none.
pub fn finish_export(written: Option<String>) -> (out: Result<String, ExportError>)
    ensures
        match written {
            Some(text) => out == Ok::<String, ExportError>(text),
            None => out == Err::<String, ExportError>(ExportError::SerializationFault),
        },
{
    match written {
        Some(text) => Ok(text),
        None => Err(ExportError::SerializationFault),
    }
}

/// Writes a laid-out export as an SVG document. It always succeeds. The
/// canvas size stands in the root's `width` and `height` in decimal, and the
/// plan's geometry in the `d` attribute of the one `path` element, escaped.
pub fn write_export(plan: &SvgExport) -> (out: Result<String, ExportError>)
    ensures
        out is Ok,
        out matches Ok(text) ==> text@ == document_markup(
            SVG_NS_URI@,
            decimal_text(plan.width as int),
            decimal_text(plan.height as int),
            escaped(plan.path_data@),
        ),
{
    let width = decimal_string(plan.width);
    let height = decimal_string(plan.height);
    let written = format_svg_document(
        SVG_NS_URI,
        width.as_str(),
        height.as_str(),
        plan.path_data.as_str(),
    );
    proof {
        lemma_namespace_plain();
        lemma_plain_text_is_kept(SVG_NS_URI@);
        lemma_decimal_plain(plan.width as int);
        lemma_plain_text_is_kept(decimal_text(plan.width as int));
        lemma_decimal_plain(plan.height as int);
        lemma_plain_text_is_kept(decimal_text(plan.height as int));
    }
    finish_export(written)
}

/// Serializes the paths and the grid dimensions into an SVG document, and
/// always succeeds: one root element `svg` that declares the SVG namespace
/// and is sized by the grid, holding one `path` element whose attribute `d`
/// combines all paths that have vertices.
pub fn assemble_svg(grid: Point, paths: &[ClosedPath]) -> (out: Result<String, ExportError>)
    ensures
        out is Ok,
        out matches Ok(text) ==> text@ == document_markup(
            SVG_NS_URI@,
            decimal_text(grid.x * HORIZONTAL_FACTOR),
            decimal_text(grid.y * VERTICAL_FACTOR),
            path_data_text(paths_view(paths@)),
        ),
{
    let plan = plan_export(grid, paths);
    proof {
        lemma_path_data_plain(paths_view(paths@));
        lemma_plain_text_is_kept(path_data_text(paths_view(paths@)));
    }
    write_export(&plan)
}

/// A path without vertices leaves no trace in the geometry attribute:
/// wherever it is inserted among other paths, the attribute is the same as
/// without it.
pub proof fn lemma_empty_path_skipped(paths: Seq<Seq<GridPoint>>, at: int)
    requires
        0 <= at <= paths.len(),
    ensures
        path_data_text(paths.insert(at, Seq::empty())) == path_data_text(paths),
    decreases paths.len(),
{
    let grown = paths.insert(at, Seq::<GridPoint>::empty());
    if at == paths.len() {
        assert(grown.drop_last() =~= paths);
    } else {
        assert(grown.drop_last() =~= paths.drop_last().insert(at, Seq::<GridPoint>::empty()));
        assert(grown.last() == paths.last());
        lemma_empty_path_skipped(paths.drop_last(), at);
    }
}

} // verus!
