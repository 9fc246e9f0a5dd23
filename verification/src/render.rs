use vstd::prelude::*;

use crate::color::Color;
use crate::scene::{Artist, Figure, LineArtist, PlotAxes, TextArtist, Vec2};

verus! {

/// The cap style of a pen.
#[derive(Clone, Copy, Debug, PartialEq, Eq, Structural)]
pub enum LineCap {
    Butt,
    Round,
    Square,
}

/// The join style of a pen.
#[derive(Clone, Copy, Debug, PartialEq, Eq, Structural)]
pub enum LineJoin {
    Miter,
    Round,
    Bevel,
}

/// The configuration a pen resource is created with.  `line_width` and
/// `miter_limit` are IEEE-754 single-precision bit patterns.
#[derive(Clone, Copy, Debug, PartialEq, Eq, Structural)]
pub struct PenConfig {
    pub line_width: u32,
    pub cap: LineCap,
    pub join: LineJoin,
    pub miter_limit: u32,
}

/// The configuration the surface is created with, derived from a figure's
/// pixel size.  The window title is a fixed cosmetic constant, see
/// [`window_title`].
#[derive(Clone, Copy, Debug, PartialEq, Eq, Structural)]
pub struct WindowConfig {
    pub width: u32,
    pub height: u32,
    pub resizable: bool,
    pub vsync: bool,
}

/// The fixed title of the surface window.
pub fn window_title() -> (t: &'static str)
    ensures
        t@ == "Spirographicals"@,
{
    "Spirographicals"
}

/// One immediate-mode command against the canvas.  Path and pen commands
/// refer to the handles of the artist currently being drawn: each artist
/// owns at most one path and one pen at a time, so the executor holds the
/// handle returned by the latest create and uses it for the following
/// commands up to the matching destroy.
#[derive(Clone, Debug, PartialEq)]
pub enum CanvasOp {
    /// Open the frame.
    BeginFrame,
    /// Fill the whole surface with a color.
    Clear(Color),
    /// Acquire a path resource.  Can fail; the outcome is reported back to
    /// the frame driver.
    CreatePath,
    /// Start the path's contour at a point.
    PathMoveTo(Vec2),
    /// Extend the path's contour with a straight segment to a point.
    PathLineTo(Vec2),
    /// Acquire a pen resource with the given configuration.  Can fail; the
    /// outcome is reported back to the frame driver.
    CreatePen(PenConfig),
    /// Make the pen the canvas's active pen.
    SetPen,
    /// Make a color the canvas's active draw color.
    SetColor(Color),
    /// Stroke the path with the active pen and color.
    StrokePath,
    /// Release the pen resource.
    DestroyPen,
    /// Release the path resource.
    DestroyPath,
    /// Draw a text string anchored at a position, in the active draw color
    /// and the canvas's current font state.
    DrawText(String, Vec2),
    /// Present the frame.
    EndFrame,
}

/// The pen a line artist strokes with: the artist's width, round caps,
/// round joins, and a miter limit fixed at 10.0 (0x4120_0000 is the
/// single-precision bit pattern of 10.0).  The declared line style is not
/// translated into a dash pattern.
pub open spec fn pen_for(line: LineArtist) -> PenConfig {
    PenConfig {
        line_width: line.linewidth,
        cap: LineCap::Round,
        join: LineJoin::Round,
        miter_limit: 0x4120_0000u32,
    }
}

/// The contour of a polyline: move to the first point, then one straight
/// segment to each following point.
pub open spec fn segment_ops(points: Seq<Vec2>) -> Seq<CanvasOp> {
    Seq::new(
        points.len(),
        |i: int|
            if i == 0 {
                CanvasOp::PathMoveTo(points[0])
            } else {
                CanvasOp::PathLineTo(points[i])
            },
    )
}

/// The commands that stroke a finished contour and release both resources:
/// set the pen, set the color, stroke, then destroy the pen and the path.
pub open spec fn stroke_ops(line: LineArtist) -> Seq<CanvasOp> {
    seq![
        CanvasOp::SetPen,
        CanvasOp::SetColor(line.color),
        CanvasOp::StrokePath,
        CanvasOp::DestroyPen,
        CanvasOp::DestroyPath,
    ]
}

/// The full command sequence that draws one line artist when every resource
/// acquisition succeeds.  A line with fewer than 2 points is a degenerate
/// no-op: no command at all.
pub open spec fn line_plan(line: LineArtist) -> Seq<CanvasOp> {
    if line.points@.len() < 2 {
        Seq::<CanvasOp>::empty()
    } else {
        seq![CanvasOp::CreatePath] + segment_ops(line.points@) + seq![
            CanvasOp::CreatePen(pen_for(line)),
        ] + stroke_ops(line)
    }
}

/// The command sequence that draws one line artist given the reported
/// outcome of each resource acquisition.  A failed acquisition aborts the
/// drawing, but whatever was acquired before it is still released: a path
/// acquired before a failing pen gets its destroy.
pub open spec fn line_trace(line: LineArtist, path_ok: bool, pen_ok: bool) -> Seq<CanvasOp> {
    if line.points@.len() < 2 {
        Seq::<CanvasOp>::empty()
    } else if !path_ok {
        seq![CanvasOp::CreatePath]
    } else if !pen_ok {
        seq![CanvasOp::CreatePath] + segment_ops(line.points@) + seq![
            CanvasOp::CreatePen(pen_for(line)),
            CanvasOp::DestroyPath,
        ]
    } else {
        line_plan(line)
    }
}

/// The command sequence that draws one text artist: set the artist's color,
/// then draw the string at its anchor.  Alignment is applied by the canvas,
/// not translated here.
pub open spec fn text_plan(t: TextArtist) -> Seq<CanvasOp> {
    seq![CanvasOp::SetColor(t.config.color), CanvasOp::DrawText(t.config.text, t.position)]
}

/// The success-path command sequence of one artist.  An unknown kind is
/// skipped silently: no command at all.
pub open spec fn artist_plan(a: Artist) -> Seq<CanvasOp> {
    match a {
        Artist::Line(l) => line_plan(l),
        Artist::Text(t) => text_plan(t),
        Artist::Unknown => Seq::<CanvasOp>::empty(),
    }
}

/// The success-path commands of the first `n` artists of a plot area, in
/// draw order.
pub open spec fn artists_plan_to(arts: Seq<Artist>, n: int) -> Seq<CanvasOp>
    decreases n,
{
    if n <= 0 {
        Seq::<CanvasOp>::empty()
    } else {
        artists_plan_to(arts, n - 1) + artist_plan(arts[n - 1])
    }
}

/// The success-path commands of one whole plot area.
pub open spec fn axes_plan(ax: PlotAxes) -> Seq<CanvasOp> {
    artists_plan_to(ax.artists@, ax.artists@.len() as int)
}

/// The success-path commands of the first `n` plot areas, each drawn fully
/// before the next begins.
pub open spec fn figure_axes_plan_to(axes: Seq<PlotAxes>, n: int) -> Seq<CanvasOp>
    decreases n,
{
    if n <= 0 {
        Seq::<CanvasOp>::empty()
    } else {
        figure_axes_plan_to(axes, n - 1) + axes_plan(axes[n - 1])
    }
}

/// The success-path commands of a figure's whole scene traversal.
pub open spec fn body_plan(fig: Figure) -> Seq<CanvasOp> {
    figure_axes_plan_to(fig.axes@, fig.axes@.len() as int)
}

/// The success-path commands of one whole frame: open the frame, clear to
/// the figure's face color, traverse the scene, present.
pub open spec fn frame_plan(fig: Figure) -> Seq<CanvasOp> {
    seq![CanvasOp::BeginFrame, CanvasOp::Clear(fig.face_color)] + body_plan(fig) + seq![
        CanvasOp::EndFrame,
    ]
}

/// The pen configuration for a line artist, as an executable value.
pub fn make_pen(line: &LineArtist) -> (p: PenConfig)
    ensures
        p == pen_for(*line),
{
    PenConfig {
        line_width: line.linewidth,
        cap: LineCap::Round,
        join: LineJoin::Round,
        miter_limit: 0x4120_0000,
    }
}

/// Append the contour commands of a polyline: one move-to, then a line-to
/// for each further point.
pub(crate) fn push_segment_ops(line: &LineArtist, ops: &mut Vec<CanvasOp>)
    requires
        line.points@.len() >= 2,
    ensures
        final(ops)@ == old(ops)@ + segment_ops(line.points@),
{
    let ghost base = ops@;
    let n = line.points.len();
    let mut i: usize = 0;
    while i < n
        invariant
            n == line.points@.len(),
            0 <= i <= n,
            ops@ =~= base + segment_ops(line.points@).subrange(0, i as int),
        decreases n - i,
    {
        let p = line.points[i];
        if i == 0 {
            ops.push(CanvasOp::PathMoveTo(p));
        } else {
            ops.push(CanvasOp::PathLineTo(p));
        }
        proof {
            assert(ops@ =~= base + segment_ops(line.points@).subrange(0, i as int + 1));
        }
        i = i + 1;
    }
    proof {
        assert(segment_ops(line.points@).subrange(0, n as int) =~= segment_ops(line.points@));
    }
}

/// Append the stroke-and-release commands of a line artist.
pub(crate) fn push_stroke_ops(line: &LineArtist, ops: &mut Vec<CanvasOp>)
    ensures
        final(ops)@ == old(ops)@ + stroke_ops(*line),
{
    ops.push(CanvasOp::SetPen);
    ops.push(CanvasOp::SetColor(line.color));
    ops.push(CanvasOp::StrokePath);
    ops.push(CanvasOp::DestroyPen);
    ops.push(CanvasOp::DestroyPath);
    proof {
        assert(ops@ =~= old(ops)@ + stroke_ops(*line));
    }
}

/// Append the commands of one text artist.
pub(crate) fn push_text_ops(t: &TextArtist, ops: &mut Vec<CanvasOp>)
    ensures
        final(ops)@ == old(ops)@ + text_plan(*t),
{
    ops.push(CanvasOp::SetColor(t.config.color));
    ops.push(CanvasOp::DrawText(t.config.text.clone(), t.position));
    proof {
        assert(ops@ =~= old(ops)@ + text_plan(*t));
    }
}

/// The full success-path command sequence that draws one line artist: the
/// executable form of [`line_plan`].  A line with fewer than 2 points
/// yields no command and acquires no resource.
pub fn line_ops(line: &LineArtist) -> (ops: Vec<CanvasOp>)
    ensures
        ops@ == line_plan(*line),
        line.points@.len() < 2 ==> ops@ == Seq::<CanvasOp>::empty(),
{
    let mut ops: Vec<CanvasOp> = Vec::new();
    if line.points.len() < 2 {
        return ops;
    }
    ops.push(CanvasOp::CreatePath);
    push_segment_ops(line, &mut ops);
    ops.push(CanvasOp::CreatePen(make_pen(line)));
    push_stroke_ops(line, &mut ops);
    proof {
        assert(ops@ =~= line_plan(*line));
    }
    ops
}

/// The full success-path command sequence of one artist: the executable
/// form of [`artist_plan`].
pub fn artist_ops(a: &Artist) -> (ops: Vec<CanvasOp>)
    ensures
        ops@ == artist_plan(*a),
{
    match a {
        Artist::Line(l) => line_ops(l),
        Artist::Text(t) => {
            let mut ops: Vec<CanvasOp> = Vec::new();
            push_text_ops(t, &mut ops);
            proof {
                assert(ops@ =~= text_plan(*t));
            }
            ops
        },
        Artist::Unknown => {
            let ops: Vec<CanvasOp> = Vec::new();
            proof {
                assert(ops@ =~= Seq::<CanvasOp>::empty());
            }
            ops
        },
    }
}

} // verus!
