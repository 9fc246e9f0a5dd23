use spirographicals::color::Color;
use spirographicals::driver::{DriverState, FrameDriver, Step};
use spirographicals::render::{line_ops, CanvasOp, LineCap, LineJoin, PenConfig, WindowConfig};
use spirographicals::scene::{
    Artist, Figure, HorizontalAlign, LineArtist, LineStyle, PlotAxes, TextArtist, TextConfig,
    Vec2, VerticalAlign,
};

fn pt(x: f32, y: f32) -> Vec2 {
    Vec2::new(x.to_bits(), y.to_bits())
}

fn colored_line(points: Vec<Vec2>, color: Color, width: f32) -> LineArtist {
    LineArtist::new(points, color, width.to_bits(), LineStyle::Solid)
}

fn figure_of(areas: Vec<PlotAxes>, face: Color) -> Figure {
    Figure { axes: areas, face_color: face, size_pixels: (800, 800) }
}

/// Drive one frame, feeding `true` to every resource-creation outcome.
/// Returns all commands of the frame; panics if the frame does not finish.
fn run_clean_frame(d: &mut FrameDriver) -> Vec<CanvasOp> {
    let mut recorded: Vec<CanvasOp> = Vec::new();
    let mut step = d.begin_frame(false);
    loop {
        match step {
            Step::Ops(v) => {
                recorded.extend(v);
                step = d.resume(true);
            }
            Step::Finish(v) => {
                recorded.extend(v);
                return recorded;
            }
            other => panic!("frame did not finish: {other:?}"),
        }
    }
}

#[test]
fn end_to_end_single_frame_then_close() {
    let red = Color::new(255, 0, 0, 255);
    let black = Color::new(0, 0, 0, 255);
    let mut area = PlotAxes::new();
    area.add_line(colored_line(vec![pt(0.0, 0.0), pt(1.0, 1.0), pt(2.0, 0.0)], red, 2.0));
    let mut d = FrameDriver::new(figure_of(vec![area], black));

    assert_eq!(
        d.window_config(),
        WindowConfig { width: 800, height: 800, resizable: true, vsync: true }
    );
    d.canvas_created(true);

    let recorded = run_clean_frame(&mut d);
    let pen = PenConfig {
        line_width: 2.0f32.to_bits(),
        cap: LineCap::Round,
        join: LineJoin::Round,
        miter_limit: 10.0f32.to_bits(),
    };
    assert_eq!(
        recorded,
        vec![
            CanvasOp::BeginFrame,
            CanvasOp::Clear(black),
            CanvasOp::CreatePath,
            CanvasOp::PathMoveTo(pt(0.0, 0.0)),
            CanvasOp::PathLineTo(pt(1.0, 1.0)),
            CanvasOp::PathLineTo(pt(2.0, 0.0)),
            CanvasOp::CreatePen(pen),
            CanvasOp::SetPen,
            CanvasOp::SetColor(red),
            CanvasOp::StrokePath,
            CanvasOp::DestroyPen,
            CanvasOp::DestroyPath,
            CanvasOp::EndFrame,
        ]
    );

    // A close request at the next frame boundary ends the loop with no
    // further draw.
    assert!(matches!(d.begin_frame(true), Step::Closed));
    d.canvas_released();
    assert_eq!(d.current_state(), DriverState::Terminated);
}

#[test]
fn two_areas_paint_in_order() {
    let face = Color::new(26, 26, 26, 255);
    let la = colored_line(vec![pt(0.0, 0.0), pt(1.0, 0.0)], Color::new(255, 0, 0, 255), 1.0);
    let lb = colored_line(vec![pt(0.0, 1.0), pt(1.0, 1.0)], Color::new(0, 0, 255, 255), 1.0);
    let mut a = PlotAxes::new();
    a.add_line(la.clone());
    let mut b = PlotAxes::new();
    b.add_line(lb.clone());
    let mut d = FrameDriver::new(figure_of(vec![a, b], face));
    d.canvas_created(true);

    let recorded = run_clean_frame(&mut d);
    let mut expected = vec![CanvasOp::BeginFrame, CanvasOp::Clear(face)];
    expected.extend(line_ops(&la));
    expected.extend(line_ops(&lb));
    expected.push(CanvasOp::EndFrame);
    assert_eq!(recorded, expected);
}

#[test]
fn empty_scene_frame() {
    let face = Color::new(5, 6, 7, 255);
    let mut d = FrameDriver::new(figure_of(vec![PlotAxes::new()], face));
    d.canvas_created(true);
    let recorded = run_clean_frame(&mut d);
    assert_eq!(
        recorded,
        vec![CanvasOp::BeginFrame, CanvasOp::Clear(face), CanvasOp::EndFrame]
    );
}

#[test]
fn degenerate_lines_draw_nothing() {
    let face = Color::new(0, 0, 0, 255);
    let mut area = PlotAxes::new();
    area.add_line(colored_line(vec![], Color::new(1, 1, 1, 255), 1.0));
    area.add_line(colored_line(vec![pt(4.0, 4.0)], Color::new(2, 2, 2, 255), 1.0));
    let mut d = FrameDriver::new(figure_of(vec![area], face));
    d.canvas_created(true);
    let recorded = run_clean_frame(&mut d);
    assert_eq!(
        recorded,
        vec![CanvasOp::BeginFrame, CanvasOp::Clear(face), CanvasOp::EndFrame]
    );
}

#[test]
fn unknown_artists_are_skipped_silently() {
    let face = Color::new(0, 0, 0, 255);
    let line = colored_line(vec![pt(0.0, 0.0), pt(1.0, 1.0)], Color::new(9, 9, 9, 255), 1.0);
    let mut area = PlotAxes::new();
    area.artists.push(Artist::Unknown);
    area.add_line(line.clone());
    area.artists.push(Artist::Unknown);
    let mut d = FrameDriver::new(figure_of(vec![area], face));
    d.canvas_created(true);
    let recorded = run_clean_frame(&mut d);
    let mut expected = vec![CanvasOp::BeginFrame, CanvasOp::Clear(face)];
    expected.extend(line_ops(&line));
    expected.push(CanvasOp::EndFrame);
    assert_eq!(recorded, expected);
}

#[test]
fn text_draws_in_order_with_lines() {
    let face = Color::new(0, 0, 0, 255);
    let ink = Color::new(200, 200, 200, 255);
    let text = TextArtist::new(
        TextConfig::new("title".to_string(), ink, 12.0f32.to_bits()),
        pt(0.5, 0.9),
        HorizontalAlign::Center,
        VerticalAlign::Top,
    );
    let line = colored_line(vec![pt(0.0, 0.0), pt(1.0, 1.0)], Color::new(9, 9, 9, 255), 1.0);
    let mut area = PlotAxes::new();
    area.add_text(text);
    area.add_line(line.clone());
    let mut d = FrameDriver::new(figure_of(vec![area], face));
    d.canvas_created(true);
    let recorded = run_clean_frame(&mut d);
    let mut expected = vec![
        CanvasOp::BeginFrame,
        CanvasOp::Clear(face),
        CanvasOp::SetColor(ink),
        CanvasOp::DrawText("title".to_string(), pt(0.5, 0.9)),
    ];
    expected.extend(line_ops(&line));
    expected.push(CanvasOp::EndFrame);
    assert_eq!(recorded, expected);
}

#[test]
fn frames_repeat_until_close() {
    let face = Color::new(0, 0, 0, 255);
    let mut area = PlotAxes::new();
    area.add_line(colored_line(vec![pt(0.0, 0.0), pt(1.0, 1.0)], Color::new(9, 9, 9, 255), 1.0));
    let mut d = FrameDriver::new(figure_of(vec![area], face));
    d.canvas_created(true);
    let first = run_clean_frame(&mut d);
    let second = run_clean_frame(&mut d);
    assert_eq!(first, second);
    assert!(matches!(d.begin_frame(true), Step::Closed));
    d.canvas_released();
}

#[test]
fn path_creation_failure_aborts_with_nothing_to_release() {
    let face = Color::new(0, 0, 0, 255);
    let mut area = PlotAxes::new();
    area.add_line(colored_line(vec![pt(0.0, 0.0), pt(1.0, 1.0)], Color::new(9, 9, 9, 255), 1.0));
    let mut d = FrameDriver::new(figure_of(vec![area], face));
    d.canvas_created(true);

    let mut recorded: Vec<CanvasOp> = Vec::new();
    match d.begin_frame(false) {
        Step::Ops(v) => recorded.extend(v),
        other => panic!("expected a pending path-create: {other:?}"),
    }
    assert_eq!(recorded.last(), Some(&CanvasOp::CreatePath));
    match d.resume(false) {
        Step::Fault(v) => {
            // The path was never created, so nothing is released.
            assert!(v.is_empty());
        }
        other => panic!("expected a fault: {other:?}"),
    }
    d.canvas_released();
    assert_eq!(d.current_state(), DriverState::Terminated);
}

#[test]
fn pen_creation_failure_still_releases_the_path() {
    let face = Color::new(0, 0, 0, 255);
    let mut area = PlotAxes::new();
    area.add_line(colored_line(vec![pt(0.0, 0.0), pt(1.0, 1.0)], Color::new(9, 9, 9, 255), 1.0));
    let mut d = FrameDriver::new(figure_of(vec![area], face));
    d.canvas_created(true);

    let mut recorded: Vec<CanvasOp> = Vec::new();
    match d.begin_frame(false) {
        Step::Ops(v) => recorded.extend(v),
        other => panic!("expected a pending path-create: {other:?}"),
    }
    match d.resume(true) {
        Step::Ops(v) => recorded.extend(v),
        other => panic!("expected a pending pen-create: {other:?}"),
    }
    assert!(matches!(recorded.last(), Some(CanvasOp::CreatePen(_))));
    match d.resume(false) {
        Step::Fault(v) => {
            assert_eq!(v, vec![CanvasOp::DestroyPath]);
            recorded.extend(v);
        }
        other => panic!("expected a fault: {other:?}"),
    }
    // Every successful create got its destroy; the failed pen got none;
    // nothing was stroked.
    let count = |f: fn(&CanvasOp) -> bool| recorded.iter().filter(|o| f(o)).count();
    assert_eq!(count(|o| *o == CanvasOp::CreatePath), 1);
    assert_eq!(count(|o| *o == CanvasOp::DestroyPath), 1);
    assert_eq!(count(|o| matches!(o, CanvasOp::CreatePen(_))), 1);
    assert_eq!(count(|o| *o == CanvasOp::DestroyPen), 0);
    assert_eq!(count(|o| *o == CanvasOp::StrokePath), 0);
    d.canvas_released();
    assert_eq!(d.current_state(), DriverState::Terminated);
}

#[test]
fn canvas_creation_failure_terminates() {
    let mut d = FrameDriver::new(figure_of(vec![PlotAxes::new()], Color::new(0, 0, 0, 255)));
    d.canvas_created(false);
    assert_eq!(d.current_state(), DriverState::Terminated);
}
