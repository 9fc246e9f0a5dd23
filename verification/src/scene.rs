use vstd::prelude::*;

use crate::color::Color;

verus! {

/// Horizontal anchoring of a text artist.
#[derive(Clone, Copy, Debug, PartialEq, Eq, Structural)]
pub enum HorizontalAlign {
    Left,
    Center,
    Right,
}

/// Vertical anchoring of a text artist.
#[derive(Clone, Copy, Debug, PartialEq, Eq, Structural)]
pub enum VerticalAlign {
    Top,
    Middle,
    Bottom,
}

/// The declared stroke pattern of a line.  The pattern is carried as data;
/// the renderer does not yet translate it into a dash pattern on the pen (a
/// known gap kept as-is, not guessed at).
#[derive(Clone, Copy, Debug, PartialEq, Eq, Structural)]
pub enum LineStyle {
    Solid,
    Dashed,
    Dotted,
    DashDot,
}

/// The declared marker shape for data points.  Carried as data only.
#[derive(Clone, Copy, Debug, PartialEq, Eq, Structural)]
pub enum MarkerStyle {
    Circle,
    Square,
    Triangle,
    Cross,
    Plus,
}

/// A 2D point.  The coordinates are IEEE-754 single-precision bit patterns:
/// the pipeline never computes on them, it only hands them to the canvas.
#[derive(Clone, Copy, Debug, PartialEq, Eq, Structural)]
pub struct Vec2 {
    pub x: u32,
    pub y: u32,
}

impl Vec2 {
    pub fn new(x: u32, y: u32) -> (v: Vec2)
        ensures
            v == (Vec2 { x, y }),
    {
        Vec2 { x, y }
    }
}

/// A piece of text with its color and size (the size an IEEE-754
/// single-precision bit pattern).
#[derive(Clone, Debug, PartialEq)]
pub struct TextConfig {
    pub text: String,
    pub color: Color,
    pub size: u32,
}

impl TextConfig {
    pub fn new(text: String, color: Color, size: u32) -> (c: TextConfig)
        ensures
            c.text == text,
            c.color == color,
            c.size == size,
    {
        TextConfig { text, color, size }
    }
}

/// Whether and how a grid is drawn over a plot area.
#[derive(Clone, Copy, Debug, PartialEq, Eq, Structural)]
pub struct GridConfig {
    pub visible: bool,
    pub color: Color,
    pub style: LineStyle,
}

impl GridConfig {
    pub fn new(visible: bool, color: Color, style: LineStyle) -> (c: GridConfig)
        ensures
            c == (GridConfig { visible, color, style }),
    {
        GridConfig { visible, color, style }
    }
}

/// One axis of a plot area: an optional label, optional fixed limits (a pair
/// of IEEE-754 single-precision bit patterns; `None` means automatic), and a
/// visibility flag.
#[derive(Clone, Debug, PartialEq)]
pub struct AxisConfig {
    pub label: Option<TextConfig>,
    pub limits: Option<(u32, u32)>,
    pub visible: bool,
}

impl AxisConfig {
    pub fn new(label: Option<TextConfig>, limits: Option<(u32, u32)>, visible: bool) -> (c:
        AxisConfig)
        ensures
            c.label == label,
            c.limits == limits,
            c.visible == visible,
    {
        AxisConfig { label, limits, visible }
    }
}

/// A polyline: an ordered sequence of points drawn as straight segments with
/// one color, one width (an IEEE-754 single-precision bit pattern) and one
/// declared style.  Fewer than 2 points is a degenerate no-op at render time,
/// not a construction error.
#[derive(Clone, Debug, PartialEq)]
pub struct LineArtist {
    pub points: Vec<Vec2>,
    pub color: Color,
    pub linewidth: u32,
    pub style: LineStyle,
}

impl LineArtist {
    pub fn new(points: Vec<Vec2>, color: Color, linewidth: u32, style: LineStyle) -> (l:
        LineArtist)
        ensures
            l.points == points,
            l.color == color,
            l.linewidth == linewidth,
            l.style == style,
    {
        LineArtist { points, color, linewidth, style }
    }
}

/// A piece of text anchored at a position.
#[derive(Clone, Debug, PartialEq)]
pub struct TextArtist {
    pub config: TextConfig,
    pub position: Vec2,
    pub h_align: HorizontalAlign,
    pub v_align: VerticalAlign,
}

impl TextArtist {
    pub fn new(
        config: TextConfig,
        position: Vec2,
        h_align: HorizontalAlign,
        v_align: VerticalAlign,
    ) -> (t: TextArtist)
        ensures
            t.config == config,
            t.position == position,
            t.h_align == h_align,
            t.v_align == v_align,
    {
        TextArtist { config, position, h_align, v_align }
    }
}

/// One drawable scene element.  A closed sum; the renderer dispatches on the
/// variant, with a default arm for `Unknown`.
#[derive(Clone, Debug, PartialEq)]
pub enum Artist {
    Line(LineArtist),
    Text(TextArtist),
    /// A scene element of a kind this renderer does not recognize, kept so
    /// the sum can grow without breaking older renderers.  Rendering skips
    /// it silently — an extension point, not a fault.
    Unknown,
}

/// One plot area: its artists in draw order (later artists paint over
/// earlier ones), an optional title, two axis configurations and a grid
/// configuration.
#[derive(Clone, Debug)]
pub struct PlotAxes {
    pub artists: Vec<Artist>,
    pub title: Option<TextConfig>,
    pub x_axis: AxisConfig,
    pub y_axis: AxisConfig,
    pub grid: GridConfig,
}

impl PlotAxes {
    /// An empty plot area with the default styling: an empty white 12pt
    /// title, both axes visible with no label and no limits, and an
    /// invisible dashed mid-gray translucent grid.
    pub fn new() -> (p: PlotAxes)
        ensures
            p.artists@ == Seq::<Artist>::empty(),
            p.title matches Some(t) && t.text@ == Seq::<char>::empty() && t.color == (Color {
                r: 255,
                g: 255,
                b: 255,
                a: 255,
            }) && t.size == 0x4140_0000u32,
            p.x_axis.label is None && p.x_axis.limits is None && p.x_axis.visible,
            p.y_axis.label is None && p.y_axis.limits is None && p.y_axis.visible,
            p.grid == (GridConfig {
                visible: false,
                color: Color { r: 128, g: 128, b: 128, a: 128 },
                style: LineStyle::Dashed,
            }),
    {
        // 0x4140_0000 is the single-precision bit pattern of 12.0.
        let default_title = TextConfig {
            text: String::new(),
            color: Color { r: 255, g: 255, b: 255, a: 255 },
            size: 0x4140_0000,
        };
        let default_grid = GridConfig {
            visible: false,
            color: Color { r: 128, g: 128, b: 128, a: 128 },
            style: LineStyle::Dashed,
        };
        PlotAxes {
            artists: Vec::new(),
            title: Some(default_title),
            x_axis: AxisConfig { label: None, limits: None, visible: true },
            y_axis: AxisConfig { label: None, limits: None, visible: true },
            grid: default_grid,
        }
    }

    /// Append a line artist; it will draw after (over) everything already in
    /// the area.
    pub fn add_line(&mut self, line: LineArtist)
        ensures
            final(self).artists@ == old(self).artists@.push(Artist::Line(line)),
            final(self).title == old(self).title,
            final(self).x_axis == old(self).x_axis,
            final(self).y_axis == old(self).y_axis,
            final(self).grid == old(self).grid,
    {
        self.artists.push(Artist::Line(line));
    }

    /// Append a text artist; it will draw after (over) everything already in
    /// the area.
    pub fn add_text(&mut self, text: TextArtist)
        ensures
            final(self).artists@ == old(self).artists@.push(Artist::Text(text)),
            final(self).title == old(self).title,
            final(self).x_axis == old(self).x_axis,
            final(self).y_axis == old(self).y_axis,
            final(self).grid == old(self).grid,
    {
        self.artists.push(Artist::Text(text));
    }
}

/// The root scene object: plot areas in draw order, a background color, and
/// the pixel size of the surface.
#[derive(Debug)]
pub struct Figure {
    pub axes: Vec<PlotAxes>,
    pub face_color: Color,
    pub size_pixels: (u32, u32),
}

impl Figure {
    /// Both pixel dimensions are positive.
    pub open spec fn wf(&self) -> bool {
        self.size_pixels.0 > 0 && self.size_pixels.1 > 0
    }

    /// A figure with one default plot area, a dark background and an 800x800
    /// pixel surface.
    pub fn new() -> (f: Figure)
        ensures
            f.axes@.len() == 1,
            f.axes@[0].artists@.len() == 0,
            f.face_color == (Color { r: 26, g: 26, b: 26, a: 255 }),
            f.size_pixels == (800u32, 800u32),
            f.wf(),
    {
        let mut axes = Vec::new();
        axes.push(PlotAxes::new());
        Figure { axes, face_color: Color { r: 26, g: 26, b: 26, a: 255 }, size_pixels: (800, 800) }
    }
}

} // verus!
