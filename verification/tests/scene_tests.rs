use spirographicals::color::Color;
use spirographicals::scene::{
    Artist, AxisConfig, Figure, GridConfig, HorizontalAlign, LineArtist, LineStyle, MarkerStyle,
    PlotAxes, TextArtist, TextConfig, Vec2, VerticalAlign,
};

#[test]
fn vec2_new_keeps_bits() {
    let v = Vec2::new(1.5f32.to_bits(), (-2.0f32).to_bits());
    assert_eq!(f32::from_bits(v.x), 1.5);
    assert_eq!(f32::from_bits(v.y), -2.0);
}

#[test]
fn text_config_new_keeps_fields() {
    let c = TextConfig::new("hello".to_string(), Color::new(1, 2, 3, 4), 14.0f32.to_bits());
    assert_eq!(c.text, "hello");
    assert_eq!(c.color, Color::new(1, 2, 3, 4));
    assert_eq!(f32::from_bits(c.size), 14.0);
}

#[test]
fn grid_config_new_keeps_fields() {
    let g = GridConfig::new(true, Color::new(9, 9, 9, 9), LineStyle::Dotted);
    assert!(g.visible);
    assert_eq!(g.color, Color::new(9, 9, 9, 9));
    assert_eq!(g.style, LineStyle::Dotted);
}

#[test]
fn axis_config_new_keeps_fields() {
    let a = AxisConfig::new(None, Some((0.0f32.to_bits(), 10.0f32.to_bits())), false);
    assert!(a.label.is_none());
    assert_eq!(a.limits, Some((0.0f32.to_bits(), 10.0f32.to_bits())));
    assert!(!a.visible);
}

#[test]
fn line_artist_new_keeps_fields() {
    let pts = vec![Vec2::new(0, 0), Vec2::new(1, 1)];
    let l = LineArtist::new(pts.clone(), Color::new(1, 1, 1, 1), 2.0f32.to_bits(), LineStyle::DashDot);
    assert_eq!(l.points, pts);
    assert_eq!(l.linewidth, 2.0f32.to_bits());
    assert_eq!(l.style, LineStyle::DashDot);
}

#[test]
fn text_artist_new_keeps_fields() {
    let t = TextArtist::new(
        TextConfig::new("x".to_string(), Color::new(0, 0, 0, 255), 12.0f32.to_bits()),
        Vec2::new(5, 6),
        HorizontalAlign::Center,
        VerticalAlign::Bottom,
    );
    assert_eq!(t.position, Vec2::new(5, 6));
    assert_eq!(t.h_align, HorizontalAlign::Center);
    assert_eq!(t.v_align, VerticalAlign::Bottom);
}

#[test]
fn plot_axes_defaults() {
    let p = PlotAxes::new();
    assert!(p.artists.is_empty());
    let title = p.title.expect("default title present");
    assert_eq!(title.text, "");
    assert_eq!(title.color, Color::new(255, 255, 255, 255));
    assert_eq!(f32::from_bits(title.size), 12.0);
    assert!(p.x_axis.label.is_none() && p.x_axis.limits.is_none() && p.x_axis.visible);
    assert!(p.y_axis.label.is_none() && p.y_axis.limits.is_none() && p.y_axis.visible);
    assert!(!p.grid.visible);
    assert_eq!(p.grid.color, Color::new(128, 128, 128, 128));
    assert_eq!(p.grid.style, LineStyle::Dashed);
}

#[test]
fn figure_defaults() {
    let f = Figure::new();
    assert_eq!(f.axes.len(), 1);
    assert!(f.axes[0].artists.is_empty());
    assert_eq!(f.face_color, Color::new(26, 26, 26, 255));
    assert_eq!(f.size_pixels, (800, 800));
}

#[test]
fn add_line_and_text_keep_draw_order() {
    let mut p = PlotAxes::new();
    let line = LineArtist::new(
        vec![Vec2::new(0, 0), Vec2::new(1, 1)],
        Color::new(255, 0, 0, 255),
        1.0f32.to_bits(),
        LineStyle::Solid,
    );
    let text = TextArtist::new(
        TextConfig::new("label".to_string(), Color::new(0, 255, 0, 255), 12.0f32.to_bits()),
        Vec2::new(2, 2),
        HorizontalAlign::Left,
        VerticalAlign::Top,
    );
    p.add_line(line.clone());
    p.add_text(text.clone());
    assert_eq!(p.artists.len(), 2);
    assert!(matches!(&p.artists[0], Artist::Line(l) if *l == line));
    assert!(matches!(&p.artists[1], Artist::Text(t) if *t == text));
}

#[test]
fn marker_styles_are_distinct() {
    let all = [
        MarkerStyle::Circle,
        MarkerStyle::Square,
        MarkerStyle::Triangle,
        MarkerStyle::Cross,
        MarkerStyle::Plus,
    ];
    for (i, a) in all.iter().enumerate() {
        for (j, b) in all.iter().enumerate() {
            assert_eq!(i == j, a == b);
        }
    }
}
