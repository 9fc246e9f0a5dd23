use vstd::prelude::*;

use crate::render::{
    artist_plan, axes_plan, figure_axes_plan_to, artists_plan_to, frame_plan, line_plan,
    line_trace, pen_for, segment_ops, stroke_ops, CanvasOp,
};
use crate::scene::{Artist, Figure, LineArtist, PlotAxes};

verus! {

/// How many commands of `s` satisfy `f`.
pub open spec fn count_ops(s: Seq<CanvasOp>, f: spec_fn(CanvasOp) -> bool) -> int
    decreases s.len(),
{
    if s.len() == 0 {
        0
    } else {
        count_ops(s.drop_last(), f) + (if f(s.last()) {
            1int
        } else {
            0int
        })
    }
}

/// The predicate picking out path-create commands.
pub open spec fn is_create_path() -> spec_fn(CanvasOp) -> bool {
    |op: CanvasOp| op is CreatePath
}

/// The predicate picking out path-destroy commands.
pub open spec fn is_destroy_path() -> spec_fn(CanvasOp) -> bool {
    |op: CanvasOp| op is DestroyPath
}

/// The predicate picking out pen-create commands.
pub open spec fn is_create_pen() -> spec_fn(CanvasOp) -> bool {
    |op: CanvasOp| op is CreatePen
}

/// The predicate picking out pen-destroy commands.
pub open spec fn is_destroy_pen() -> spec_fn(CanvasOp) -> bool {
    |op: CanvasOp| op is DestroyPen
}

pub proof fn lemma_count_ops_push(s: Seq<CanvasOp>, x: CanvasOp, f: spec_fn(CanvasOp) -> bool)
    ensures
        count_ops(s.push(x), f) == count_ops(s, f) + (if f(x) {
            1int
        } else {
            0int
        }),
{
    assert(s.push(x).drop_last() =~= s);
    assert(s.push(x).last() == x);
}

pub proof fn lemma_count_ops_add(a: Seq<CanvasOp>, b: Seq<CanvasOp>, f: spec_fn(CanvasOp) -> bool)
    ensures
        count_ops(a + b, f) == count_ops(a, f) + count_ops(b, f),
    decreases b.len(),
{
    if b.len() == 0 {
        assert(a + b =~= a);
    } else {
        lemma_count_ops_add(a, b.drop_last(), f);
        assert((a + b).drop_last() =~= a + b.drop_last());
        assert((a + b).last() == b.last());
    }
}

pub proof fn lemma_count_ops_none(s: Seq<CanvasOp>, f: spec_fn(CanvasOp) -> bool)
    requires
        forall|i: int| 0 <= i < s.len() ==> !f(#[trigger] s[i]),
    ensures
        count_ops(s, f) == 0,
    decreases s.len(),
{
    if s.len() > 0 {
        assert(forall|i: int| 0 <= i < s.len() - 1 ==> s.drop_last()[i] == s[i]);
        lemma_count_ops_none(s.drop_last(), f);
    }
}

proof fn lemma_count_ops_seq1(a: CanvasOp, f: spec_fn(CanvasOp) -> bool)
    ensures
        count_ops(seq![a], f) == (if f(a) {
            1int
        } else {
            0int
        }),
{
    assert(seq![a] =~= Seq::<CanvasOp>::empty().push(a));
    lemma_count_ops_push(Seq::<CanvasOp>::empty(), a, f);
}

proof fn lemma_count_ops_seq2(a: CanvasOp, b: CanvasOp, f: spec_fn(CanvasOp) -> bool)
    ensures
        count_ops(seq![a, b], f) == (if f(a) {
            1int
        } else {
            0int
        }) + (if f(b) {
            1int
        } else {
            0int
        }),
{
    assert(seq![a, b] =~= Seq::<CanvasOp>::empty().push(a).push(b));
    lemma_count_ops_push(Seq::<CanvasOp>::empty(), a, f);
    lemma_count_ops_push(Seq::<CanvasOp>::empty().push(a), b, f);
}

proof fn lemma_count_ops_stroke(line: LineArtist, f: spec_fn(CanvasOp) -> bool)
    ensures
        count_ops(stroke_ops(line), f) == (if f(CanvasOp::SetPen) {
            1int
        } else {
            0int
        }) + (if f(CanvasOp::SetColor(line.color)) {
            1int
        } else {
            0int
        }) + (if f(CanvasOp::StrokePath) {
            1int
        } else {
            0int
        }) + (if f(CanvasOp::DestroyPen) {
            1int
        } else {
            0int
        }) + (if f(CanvasOp::DestroyPath) {
            1int
        } else {
            0int
        }),
{
    let s0 = Seq::<CanvasOp>::empty();
    let s1 = s0.push(CanvasOp::SetPen);
    let s2 = s1.push(CanvasOp::SetColor(line.color));
    let s3 = s2.push(CanvasOp::StrokePath);
    let s4 = s3.push(CanvasOp::DestroyPen);
    let s5 = s4.push(CanvasOp::DestroyPath);
    assert(stroke_ops(line) =~= s5);
    lemma_count_ops_push(s0, CanvasOp::SetPen, f);
    lemma_count_ops_push(s1, CanvasOp::SetColor(line.color), f);
    lemma_count_ops_push(s2, CanvasOp::StrokePath, f);
    lemma_count_ops_push(s3, CanvasOp::DestroyPen, f);
    lemma_count_ops_push(s4, CanvasOp::DestroyPath, f);
}

proof fn lemma_count_ops_segments(points: Seq<crate::scene::Vec2>, f: spec_fn(CanvasOp) -> bool)
    requires
        forall|p: crate::scene::Vec2| !f(CanvasOp::PathMoveTo(p)) && !f(CanvasOp::PathLineTo(p)),
    ensures
        count_ops(segment_ops(points), f) == 0,
{
    assert(forall|i: int| 0 <= i < segment_ops(points).len() ==> !f(#[trigger] segment_ops(
        points,
    )[i]));
    lemma_count_ops_none(segment_ops(points), f);
}

/// Drawing one line artist acquires and releases resources in pairs, under
/// every reported outcome: the path is destroyed exactly when its creation
/// succeeded (even when the pen creation then fails), the pen is created
/// only once the path exists, and the pen is destroyed exactly when its
/// creation succeeded.  A line with fewer than 2 points touches no resource
/// at all.
pub proof fn lemma_line_trace_resources(line: LineArtist, path_ok: bool, pen_ok: bool)
    ensures
        count_ops(line_trace(line, path_ok, pen_ok), is_create_path()) == (if line.points@.len()
            >= 2 {
            1int
        } else {
            0int
        }),
        count_ops(line_trace(line, path_ok, pen_ok), is_destroy_path()) == (if line.points@.len()
            >= 2 && path_ok {
            1int
        } else {
            0int
        }),
        count_ops(line_trace(line, path_ok, pen_ok), is_create_pen()) == (if line.points@.len() >= 2
            && path_ok {
            1int
        } else {
            0int
        }),
        count_ops(line_trace(line, path_ok, pen_ok), is_destroy_pen()) == (if line.points@.len()
            >= 2 && path_ok && pen_ok {
            1int
        } else {
            0int
        }),
{
    let pts = line.points@;
    if pts.len() < 2 {
    } else if !path_ok {
        lemma_count_ops_seq1(CanvasOp::CreatePath, is_create_path());
        lemma_count_ops_seq1(CanvasOp::CreatePath, is_destroy_path());
        lemma_count_ops_seq1(CanvasOp::CreatePath, is_create_pen());
        lemma_count_ops_seq1(CanvasOp::CreatePath, is_destroy_pen());
    } else if !pen_ok {
        let head = seq![CanvasOp::CreatePath];
        let tail = seq![CanvasOp::CreatePen(pen_for(line)), CanvasOp::DestroyPath];
        assert(line_trace(line, path_ok, pen_ok) == head + segment_ops(pts) + tail);
        lemma_count_ops_add3(head, segment_ops(pts), tail, is_create_path());
        lemma_count_ops_add3(head, segment_ops(pts), tail, is_destroy_path());
        lemma_count_ops_add3(head, segment_ops(pts), tail, is_create_pen());
        lemma_count_ops_add3(head, segment_ops(pts), tail, is_destroy_pen());
        lemma_count_ops_seq1(CanvasOp::CreatePath, is_create_path());
        lemma_count_ops_seq1(CanvasOp::CreatePath, is_destroy_path());
        lemma_count_ops_seq1(CanvasOp::CreatePath, is_create_pen());
        lemma_count_ops_seq1(CanvasOp::CreatePath, is_destroy_pen());
        lemma_count_ops_segments(pts, is_create_path());
        lemma_count_ops_segments(pts, is_destroy_path());
        lemma_count_ops_segments(pts, is_create_pen());
        lemma_count_ops_segments(pts, is_destroy_pen());
        lemma_count_ops_seq2(CanvasOp::CreatePen(pen_for(line)), CanvasOp::DestroyPath,
            is_create_path());
        lemma_count_ops_seq2(CanvasOp::CreatePen(pen_for(line)), CanvasOp::DestroyPath,
            is_destroy_path());
        lemma_count_ops_seq2(CanvasOp::CreatePen(pen_for(line)), CanvasOp::DestroyPath,
            is_create_pen());
        lemma_count_ops_seq2(CanvasOp::CreatePen(pen_for(line)), CanvasOp::DestroyPath,
            is_destroy_pen());
    } else {
        let head = seq![CanvasOp::CreatePath];
        let pen = seq![CanvasOp::CreatePen(pen_for(line))];
        assert(line_plan(line) == head + segment_ops(pts) + pen + stroke_ops(line));
        lemma_count_ops_add4(head, segment_ops(pts), pen, stroke_ops(line), is_create_path());
        lemma_count_ops_add4(head, segment_ops(pts), pen, stroke_ops(line), is_destroy_path());
        lemma_count_ops_add4(head, segment_ops(pts), pen, stroke_ops(line), is_create_pen());
        lemma_count_ops_add4(head, segment_ops(pts), pen, stroke_ops(line), is_destroy_pen());
        lemma_count_ops_seq1(CanvasOp::CreatePath, is_create_path());
        lemma_count_ops_seq1(CanvasOp::CreatePath, is_destroy_path());
        lemma_count_ops_seq1(CanvasOp::CreatePath, is_create_pen());
        lemma_count_ops_seq1(CanvasOp::CreatePath, is_destroy_pen());
        lemma_count_ops_segments(pts, is_create_path());
        lemma_count_ops_segments(pts, is_destroy_path());
        lemma_count_ops_segments(pts, is_create_pen());
        lemma_count_ops_segments(pts, is_destroy_pen());
        lemma_count_ops_seq1(CanvasOp::CreatePen(pen_for(line)), is_create_path());
        lemma_count_ops_seq1(CanvasOp::CreatePen(pen_for(line)), is_destroy_path());
        lemma_count_ops_seq1(CanvasOp::CreatePen(pen_for(line)), is_create_pen());
        lemma_count_ops_seq1(CanvasOp::CreatePen(pen_for(line)), is_destroy_pen());
        lemma_count_ops_stroke(line, is_create_path());
        lemma_count_ops_stroke(line, is_destroy_path());
        lemma_count_ops_stroke(line, is_create_pen());
        lemma_count_ops_stroke(line, is_destroy_pen());
    }
}

proof fn lemma_count_ops_add3(
    a: Seq<CanvasOp>,
    b: Seq<CanvasOp>,
    c: Seq<CanvasOp>,
    f: spec_fn(CanvasOp) -> bool,
)
    ensures
        count_ops(a + b + c, f) == count_ops(a, f) + count_ops(b, f) + count_ops(c, f),
{
    lemma_count_ops_add(a, b, f);
    lemma_count_ops_add(a + b, c, f);
}

proof fn lemma_count_ops_add4(
    a: Seq<CanvasOp>,
    b: Seq<CanvasOp>,
    c: Seq<CanvasOp>,
    d: Seq<CanvasOp>,
    f: spec_fn(CanvasOp) -> bool,
)
    ensures
        count_ops(a + b + c + d, f) == count_ops(a, f) + count_ops(b, f) + count_ops(c, f)
            + count_ops(d, f),
{
    lemma_count_ops_add(a, b, f);
    lemma_count_ops_add(a + b, c, f);
    lemma_count_ops_add(a + b + c, d, f);
}

/// The exact shape of a successful line draw with `n >= 2` points: one
/// path-create first, one move-to, `n - 1` line-tos in point order, one
/// pen-create, set-pen, set-color, one stroke, then the pen destroy and the
/// path destroy, in that order and nothing else.
pub proof fn lemma_line_plan_shape(line: LineArtist)
    requires
        line.points@.len() >= 2,
    ensures
        line_plan(line).len() == line.points@.len() + 7,
        line_plan(line)[0] == CanvasOp::CreatePath,
        line_plan(line)[1] == CanvasOp::PathMoveTo(line.points@[0]),
        forall|i: int|
            2 <= i <= line.points@.len() ==> #[trigger] line_plan(line)[i] == CanvasOp::PathLineTo(
                line.points@[i - 1],
            ),
        line_plan(line)[line.points@.len() as int + 1] == CanvasOp::CreatePen(pen_for(line)),
        line_plan(line)[line.points@.len() as int + 2] == CanvasOp::SetPen,
        line_plan(line)[line.points@.len() as int + 3] == CanvasOp::SetColor(line.color),
        line_plan(line)[line.points@.len() as int + 4] == CanvasOp::StrokePath,
        line_plan(line)[line.points@.len() as int + 5] == CanvasOp::DestroyPen,
        line_plan(line)[line.points@.len() as int + 6] == CanvasOp::DestroyPath,
{
}

/// A line with fewer than 2 points is a degenerate no-op: its plan holds no
/// command, so rendering it touches neither the canvas nor any resource.
pub proof fn lemma_degenerate_line_plan(line: LineArtist)
    requires
        line.points@.len() < 2,
    ensures
        line_plan(line) == Seq::<CanvasOp>::empty(),
{
}

/// Painter's order over plot areas: the commands of the first `n` areas are
/// the commands of the first `n - 1` followed by all commands of area
/// `n - 1`.  No interleaving across areas.
pub proof fn lemma_axes_painted_in_order(axes: Seq<PlotAxes>, n: int)
    requires
        0 < n <= axes.len(),
    ensures
        figure_axes_plan_to(axes, n) == figure_axes_plan_to(axes, n - 1) + axes_plan(
            axes[n - 1],
        ),
{
}

/// Painter's order over the artists of one plot area.
pub proof fn lemma_artists_painted_in_order(arts: Seq<Artist>, n: int)
    requires
        0 < n <= arts.len(),
    ensures
        artists_plan_to(arts, n) == artists_plan_to(arts, n - 1) + artist_plan(arts[n - 1]),
{
}

/// A plot area holding exactly one line artist paints exactly that line's
/// commands.
pub proof fn lemma_single_line_axes_plan(ax: PlotAxes)
    requires
        ax.artists@.len() == 1,
        ax.artists@[0] is Line,
    ensures
        axes_plan(ax) == line_plan(ax.artists@[0]->Line_0),
{
    assert(artists_plan_to(ax.artists@, 1) == artists_plan_to(ax.artists@, 0) + artist_plan(
        ax.artists@[0],
    ));
    assert(artists_plan_to(ax.artists@, 0) == Seq::<CanvasOp>::empty());
    assert(axes_plan(ax) =~= line_plan(ax.artists@[0]->Line_0));
}

/// A figure with two plot areas draws everything of the first before
/// anything of the second, between the frame's clear and its present.
pub proof fn lemma_two_axes_order(fig: Figure)
    requires
        fig.axes@.len() == 2,
    ensures
        frame_plan(fig) == seq![CanvasOp::BeginFrame, CanvasOp::Clear(fig.face_color)] + axes_plan(
            fig.axes@[0],
        ) + axes_plan(fig.axes@[1]) + seq![CanvasOp::EndFrame],
{
    lemma_axes_painted_in_order(fig.axes@, 2);
    lemma_axes_painted_in_order(fig.axes@, 1);
    assert(figure_axes_plan_to(fig.axes@, 0) =~= Seq::<CanvasOp>::empty());
    assert(frame_plan(fig) =~= seq![CanvasOp::BeginFrame, CanvasOp::Clear(fig.face_color)]
        + axes_plan(fig.axes@[0]) + axes_plan(fig.axes@[1]) + seq![CanvasOp::EndFrame]);
}

} // verus!
