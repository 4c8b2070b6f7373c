//! The drawing vocabulary: path-construction commands, paint commands, and
//! the fixed command sequence that draws the triangle.

use vstd::prelude::*;

verus! {

/// X coordinate of the triangle's apex.
pub const APEX_X: i32 = 300;

/// Y coordinate of the triangle's apex.
pub const APEX_Y: i32 = 0;

/// X coordinate of the triangle's bottom-left corner.
pub const BOTTOM_LEFT_X: i32 = 0;

/// Y coordinate of the triangle's bottom-left corner.
pub const BOTTOM_LEFT_Y: i32 = 600;

/// X coordinate of the triangle's bottom-right corner.
pub const BOTTOM_RIGHT_X: i32 = 600;

/// Y coordinate of the triangle's bottom-right corner.
pub const BOTTOM_RIGHT_Y: i32 = 600;

/// One path-construction step, in device pixels (origin top-left, y down).
#[derive(Clone, Copy, Debug, PartialEq, Eq, Structural)]
pub enum PathCmd {
    /// Move the path cursor without drawing a segment.
    MoveTo(i32, i32),
    /// Append a straight segment from the cursor to the given point.
    LineTo(i32, i32),
    /// Close the current subpath back to its starting point.
    Close,
}

/// One command of the renderer, addressed to a 2D drawing context.
#[derive(Debug, PartialEq, Eq)]
pub enum Command {
    /// Set the paint used by subsequent fill operations to a CSS color string.
    SetFillStyle(String),
    /// Discard the accumulated path and start a new, empty one.
    BeginPath,
    /// Append one path-construction step to the current path.
    Path(PathCmd),
    /// Paint the outline of the current path.
    Stroke,
    /// Paint the interior of the current path with the current fill style.
    Fill,
}

/// Mathematical image of a [`Command`]: the color string becomes a character
/// sequence.
pub enum CommandView {
    SetFillStyle(Seq<char>),
    BeginPath,
    Path(PathCmd),
    Stroke,
    Fill,
}

impl View for Command {
    type V = CommandView;

    open spec fn view(&self) -> CommandView {
        match self {
            Command::SetFillStyle(s) => CommandView::SetFillStyle(s@),
            Command::BeginPath => CommandView::BeginPath,
            Command::Path(p) => CommandView::Path(*p),
            Command::Stroke => CommandView::Stroke,
            Command::Fill => CommandView::Fill,
        }
    }
}

/// The color every filled pixel is painted with.
pub open spec fn fill_color_spec() -> Seq<char> {
    "rgb(150,50,0)"@
}

/// The fill color, as a CSS color string.
pub fn fill_color() -> (r: &'static str)
    ensures
        r@ == fill_color_spec(),
{
    "rgb(150,50,0)"
}

/// The path that outlines the triangle. The final line segment returns to
/// the apex before the explicit close, so the close adds no visible edge.
pub open spec fn triangle_path() -> Seq<PathCmd> {
    seq![
        PathCmd::MoveTo(APEX_X, APEX_Y),
        PathCmd::LineTo(BOTTOM_LEFT_X, BOTTOM_LEFT_Y),
        PathCmd::LineTo(BOTTOM_RIGHT_X, BOTTOM_RIGHT_Y),
        PathCmd::LineTo(APEX_X, APEX_Y),
        PathCmd::Close,
    ]
}

/// The full command sequence of one rendering run: set the fill color,
/// construct the triangle path, stroke its outline, then fill its interior.
pub open spec fn draw_sequence() -> Seq<CommandView> {
    seq![
        CommandView::SetFillStyle(fill_color_spec()),
        CommandView::BeginPath,
        CommandView::Path(PathCmd::MoveTo(APEX_X, APEX_Y)),
        CommandView::Path(PathCmd::LineTo(BOTTOM_LEFT_X, BOTTOM_LEFT_Y)),
        CommandView::Path(PathCmd::LineTo(BOTTOM_RIGHT_X, BOTTOM_RIGHT_Y)),
        CommandView::Path(PathCmd::LineTo(APEX_X, APEX_Y)),
        CommandView::Path(PathCmd::Close),
        CommandView::Stroke,
        CommandView::Fill,
    ]
}

/// The point a path command names: the target of a move or a segment.
pub open spec fn point_of(c: PathCmd) -> Option<(i32, i32)> {
    match c {
        PathCmd::MoveTo(x, y) => Some((x, y)),
        PathCmd::LineTo(x, y) => Some((x, y)),
        PathCmd::Close => None,
    }
}

/// The set of distinct points a path's commands name.
pub open spec fn vertex_set(path: Seq<PathCmd>) -> Set<(i32, i32)> {
    Set::new(
        |p: (i32, i32)| exists|i: int| 0 <= i < path.len() && point_of(path[i]) == Some(p),
    )
}

/// The triangle path names exactly three distinct vertices: its final
/// segment returns to the very point the path started at, so the explicit
/// close that follows adds no further edge.
pub proof fn lemma_triangle_has_three_vertices()
    ensures
        vertex_set(triangle_path()) == set![
            (APEX_X, APEX_Y),
            (BOTTOM_LEFT_X, BOTTOM_LEFT_Y),
            (BOTTOM_RIGHT_X, BOTTOM_RIGHT_Y),
        ],
        vertex_set(triangle_path()).len() == 3,
        point_of(triangle_path()[3]) == point_of(triangle_path()[0]),
        triangle_path().last() == PathCmd::Close,
{
    broadcast use vstd::set::axiom_set_empty_len, vstd::set::axiom_set_insert_len;

    let path = triangle_path();
    let vs = vertex_set(path);
    let corners = set![
        (APEX_X, APEX_Y),
        (BOTTOM_LEFT_X, BOTTOM_LEFT_Y),
        (BOTTOM_RIGHT_X, BOTTOM_RIGHT_Y),
    ];
    assert forall|p: (i32, i32)| vs.contains(p) implies corners.contains(p) by {
        let i = choose|i: int| 0 <= i < path.len() && point_of(path[i]) == Some(p);
        assert(i == 0 || i == 1 || i == 2 || i == 3 || i == 4);
    }
    assert forall|p: (i32, i32)| corners.contains(p) implies vs.contains(p) by {
        if p == (APEX_X, APEX_Y) {
            assert(point_of(path[0]) == Some(p));
        } else if p == (BOTTOM_LEFT_X, BOTTOM_LEFT_Y) {
            assert(point_of(path[1]) == Some(p));
        } else {
            assert(point_of(path[2]) == Some(p));
        }
    }
    assert(vs =~= corners);
    assert(corners.len() == 3);
}

/// Builds the command sequence of one rendering run as plain values, ready
/// to be dispatched one by one to a drawing context.
pub fn draw_commands() -> (r: Vec<Command>)
    ensures
        r@.map_values(|c: Command| c@) == draw_sequence(),
{
    let mut v: Vec<Command> = Vec::new();
    v.push(Command::SetFillStyle(fill_color().to_owned()));
    v.push(Command::BeginPath);
    v.push(Command::Path(PathCmd::MoveTo(APEX_X, APEX_Y)));
    v.push(Command::Path(PathCmd::LineTo(BOTTOM_LEFT_X, BOTTOM_LEFT_Y)));
    v.push(Command::Path(PathCmd::LineTo(BOTTOM_RIGHT_X, BOTTOM_RIGHT_Y)));
    v.push(Command::Path(PathCmd::LineTo(APEX_X, APEX_Y)));
    v.push(Command::Path(PathCmd::Close));
    v.push(Command::Stroke);
    v.push(Command::Fill);
    proof {
        assert(v@.map_values(|c: Command| c@) =~= draw_sequence());
    }
    v
}

} // verus!
