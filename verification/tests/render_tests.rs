use spirographicals::color::Color;
use spirographicals::render::{
    artist_ops, line_ops, make_pen, window_title, CanvasOp, LineCap, LineJoin, PenConfig,
};
use spirographicals::scene::{
    Artist, HorizontalAlign, LineArtist, LineStyle, TextArtist, TextConfig, Vec2, VerticalAlign,
};

fn line(points: Vec<Vec2>) -> LineArtist {
    LineArtist::new(points, Color::new(10, 20, 30, 255), 3.0f32.to_bits(), LineStyle::Solid)
}

#[test]
fn empty_line_draws_nothing() {
    assert!(line_ops(&line(vec![])).is_empty());
}

#[test]
fn single_point_line_draws_nothing() {
    assert!(line_ops(&line(vec![Vec2::new(1, 2)])).is_empty());
}

#[test]
fn line_ops_exact_sequence() {
    let p0 = Vec2::new(0.0f32.to_bits(), 0.0f32.to_bits());
    let p1 = Vec2::new(1.0f32.to_bits(), 2.0f32.to_bits());
    let p2 = Vec2::new(3.0f32.to_bits(), 4.0f32.to_bits());
    let p3 = Vec2::new(5.0f32.to_bits(), 6.0f32.to_bits());
    let l = line(vec![p0, p1, p2, p3]);
    let ops = line_ops(&l);
    let pen = PenConfig {
        line_width: 3.0f32.to_bits(),
        cap: LineCap::Round,
        join: LineJoin::Round,
        miter_limit: 10.0f32.to_bits(),
    };
    assert_eq!(
        ops,
        vec![
            CanvasOp::CreatePath,
            CanvasOp::PathMoveTo(p0),
            CanvasOp::PathLineTo(p1),
            CanvasOp::PathLineTo(p2),
            CanvasOp::PathLineTo(p3),
            CanvasOp::CreatePen(pen),
            CanvasOp::SetPen,
            CanvasOp::SetColor(Color::new(10, 20, 30, 255)),
            CanvasOp::StrokePath,
            CanvasOp::DestroyPen,
            CanvasOp::DestroyPath,
        ]
    );
}

#[test]
fn line_ops_counts_for_many_sizes() {
    for n in 2..10usize {
        let pts: Vec<Vec2> = (0..n).map(|i| Vec2::new(i as u32, 0)).collect();
        let ops = line_ops(&line(pts));
        assert_eq!(ops.len(), n + 7);
        let count = |f: fn(&CanvasOp) -> bool| ops.iter().filter(|o| f(o)).count();
        assert_eq!(count(|o| *o == CanvasOp::CreatePath), 1);
        assert_eq!(count(|o| *o == CanvasOp::DestroyPath), 1);
        assert_eq!(count(|o| matches!(o, CanvasOp::CreatePen(_))), 1);
        assert_eq!(count(|o| *o == CanvasOp::DestroyPen), 1);
        assert_eq!(count(|o| *o == CanvasOp::StrokePath), 1);
        assert_eq!(count(|o| matches!(o, CanvasOp::PathMoveTo(_))), 1);
        assert_eq!(count(|o| matches!(o, CanvasOp::PathLineTo(_))), n - 1);
        // destroys come last, pen before path
        assert_eq!(ops[ops.len() - 2], CanvasOp::DestroyPen);
        assert_eq!(ops[ops.len() - 1], CanvasOp::DestroyPath);
    }
}

#[test]
fn make_pen_uses_round_caps_and_fixed_miter() {
    let l = line(vec![]);
    let pen = make_pen(&l);
    assert_eq!(pen.line_width, 3.0f32.to_bits());
    assert_eq!(pen.cap, LineCap::Round);
    assert_eq!(pen.join, LineJoin::Round);
    assert_eq!(f32::from_bits(pen.miter_limit), 10.0);
}

#[test]
fn text_artist_ops() {
    let t = TextArtist::new(
        TextConfig::new("hi".to_string(), Color::new(7, 7, 7, 255), 12.0f32.to_bits()),
        Vec2::new(3, 4),
        HorizontalAlign::Left,
        VerticalAlign::Top,
    );
    let ops = artist_ops(&Artist::Text(t));
    assert_eq!(
        ops,
        vec![
            CanvasOp::SetColor(Color::new(7, 7, 7, 255)),
            CanvasOp::DrawText("hi".to_string(), Vec2::new(3, 4)),
        ]
    );
}

#[test]
fn fixed_window_title() {
    assert_eq!(window_title(), "Spirographicals");
}
