//! Brushes, and their resolution into paints that a rasterizer can draw with.
use vstd::prelude::*;
use crate::color::{backend_channels, to_backend, Color};
use crate::geometry::{Point, Position, Rectangle};

verus! {

/// A named direction of a linear gradient.
#[derive(Clone, Copy, Debug, PartialEq, Eq, Structural)]
pub enum Direction {
    ToTop,
    ToTopRight,
    ToRight,
    ToBottomRight,
    ToBottom,
    ToBottomLeft,
    ToLeft,
    ToTopLeft,
}

/// A coordinate on one axis of a frame: in pixels, or in percent of the
/// frame's extent along that axis.
#[derive(Clone, Copy, Debug, PartialEq, Eq, Structural)]
pub enum OnLinearBrushCoord {
    Pixels(i32),
    Percent(i16),
}

/// How far a gradient is shifted from its place in the frame.
#[derive(Clone, Copy, Debug, PartialEq, Eq, Structural)]
pub struct Displacement {
    pub x: OnLinearBrushCoord,
    pub y: OnLinearBrushCoord,
}

/// Where a linear gradient runs, relative to the frame it paints.
#[derive(Clone, Copy, Debug, PartialEq, Eq, Structural)]
pub enum LinearGradientCoords {
    /// Explicit end points, relative to the frame's corner.
    Ends { start: Point, end: Point },
    /// An angle in millidegrees, the axis centered in the frame.
    Angle { angle: i32, displacement: Displacement },
    /// A named direction spanning the frame.
    Direction { direction: Direction, displacement: Displacement },
}

#[derive(Clone, Copy, Debug, PartialEq, Eq, Structural)]
pub enum GradientKind {
    Linear(LinearGradientCoords),
}

/// A color at a position along a gradient's axis, in thousandths of the axis.
#[derive(Clone, Copy, Debug, PartialEq, Eq, Structural)]
pub struct GradientStop {
    pub pos: u16,
    pub color: Color,
}

/// A gradient: its geometry, its stops in the order of interpolation, and
/// whether it repeats past its ends (otherwise the end colors extend).
#[derive(Debug, PartialEq, Eq)]
pub struct Gradient {
    pub kind: GradientKind,
    pub stops: Vec<GradientStop>,
    pub repeat: bool,
}

/// What a shape is filled or stroked with.
#[derive(Debug, PartialEq, Eq)]
pub enum Brush {
    SolidColor(Color),
    Gradient(Gradient),
}

/// The mathematical value of a brush.
pub enum BrushView {
    SolidColor(Color),
    Gradient { kind: GradientKind, stops: Seq<GradientStop>, repeat: bool },
}

impl View for Brush {
    type V = BrushView;

    open spec fn view(&self) -> BrushView {
        match self {
            Brush::SolidColor(c) => BrushView::SolidColor(*c),
            Brush::Gradient(g) => BrushView::Gradient {
                kind: g.kind,
                stops: g.stops@,
                repeat: g.repeat,
            },
        }
    }
}

impl Brush {
    /// The default brush: transparent black.
    pub fn new() -> (b: Brush)
        ensures
            b@ == BrushView::SolidColor(Color { r: 0, g: 0, b: 0, a: 0 }),
    {
        Brush::SolidColor(Color::transparent())
    }

    /// A brush of one color.
    pub fn solid(c: Color) -> (b: Brush)
        ensures
            b@ == BrushView::SolidColor(c),
    {
        Brush::SolidColor(c)
    }

    /// A copy of this brush.
    pub fn duplicate(&self) -> (b: Brush)
        ensures
            b@ == self@,
    {
        match self {
            Brush::SolidColor(c) => Brush::SolidColor(*c),
            Brush::Gradient(g) => {
                let mut stops: Vec<GradientStop> = Vec::new();
                let mut i: usize = 0;
                while i < g.stops.len()
                    invariant
                        i <= g.stops@.len(),
                        stops@ =~= g.stops@.subrange(0, i as int),
                    decreases g.stops@.len() - i,
                {
                    stops.push(g.stops[i]);
                    i = i + 1;
                }
                assert(stops@ =~= g.stops@);
                Brush::Gradient(Gradient { kind: g.kind, stops, repeat: g.repeat })
            },
        }
    }
}

/// How a gradient continues past its ends.
#[derive(Clone, Copy, Debug, PartialEq, Eq, Structural)]
pub enum SpreadMode {
    Pad,
    Repeat,
}

/// The axis of a resolved linear gradient, in device pixels.
#[derive(Clone, Copy, Debug, PartialEq, Eq, Structural)]
pub enum GradientLine {
    /// The axis from `start` to `end`.
    Points { start: Position, end: Position },
    /// The axis at `angle` (millidegrees) through the center of the box of
    /// size `width` × `height` whose corner is at `origin`, reaching as far
    /// as that angle demands of the box.
    Rotated { origin: Position, width: i64, height: i64, angle: i32 },
}

/// A gradient stop ready for the rasterizer.
#[derive(Clone, Copy, Debug, PartialEq, Eq)]
pub struct ResolvedStop {
    pub pos: u16,
    pub color: [u8; 4],
}

/// A paint ready for the rasterizer; it is always drawn anti-aliased.
#[derive(Debug, PartialEq, Eq)]
pub enum ResolvedPaint {
    /// One color, in the pixel buffer's channel order.
    Solid([u8; 4]),
    /// A linear gradient along `line`.
    Linear { line: GradientLine, stops: Vec<ResolvedStop>, spread: SpreadMode },
}

/// `pixels` of a coordinate along an axis of extent `len`; percentages round
/// towards zero.
pub open spec fn axis_pixels(c: OnLinearBrushCoord, len: int) -> int {
    match c {
        OnLinearBrushCoord::Pixels(p) => p as int,
        OnLinearBrushCoord::Percent(p) => {
            let prod = len * p;
            if prod >= 0 {
                prod / 100
            } else {
                -((-prod) / 100)
            }
        },
    }
}

/// The start and end of a named direction across a frame of the given size,
/// relative to the frame's corner.
pub open spec fn direction_ends(d: Direction, w: int, h: int) -> (int, int, int, int) {
    match d {
        Direction::ToTop => (0, h, 0, 0),
        Direction::ToTopRight => (0, h, w, 0),
        Direction::ToRight => (0, 0, w, 0),
        Direction::ToBottomRight => (0, 0, w, h),
        Direction::ToBottom => (0, 0, 0, h),
        Direction::ToBottomLeft => (w, 0, 0, h),
        Direction::ToLeft => (w, 0, 0, 0),
        Direction::ToTopLeft => (w, h, 0, 0),
    }
}

pub open spec fn pos(x: int, y: int) -> Position {
    Position { x: x as i64, y: y as i64 }
}

/// The axis of a linear gradient placed in `frame`.
pub open spec fn gradient_line(coords: LinearGradientCoords, frame: Rectangle) -> GradientLine {
    match coords {
        LinearGradientCoords::Ends { start, end } => GradientLine::Points {
            start: pos(frame.x + start.x, frame.y + start.y),
            end: pos(frame.x + end.x, frame.y + end.y),
        },
        LinearGradientCoords::Angle { angle, displacement } => GradientLine::Rotated {
            origin: pos(
                frame.x + axis_pixels(displacement.x, frame.width as int),
                frame.y + axis_pixels(displacement.y, frame.height as int),
            ),
            width: frame.width,
            height: frame.height,
            angle,
        },
        LinearGradientCoords::Direction { direction, displacement } => {
            let (sx, sy, ex, ey) = direction_ends(direction, frame.width as int, frame.height as int);
            let dx = axis_pixels(displacement.x, frame.width as int);
            let dy = axis_pixels(displacement.y, frame.height as int);
            GradientLine::Points {
                start: pos(frame.x + sx + dx, frame.y + sy + dy),
                end: pos(frame.x + ex + dx, frame.y + ey + dy),
            }
        },
    }
}

/// `r` is the stop `s` resolved under `global_alpha`: same position, color in
/// the buffer's channel order with scaled alpha.
pub open spec fn resolves_stop(s: GradientStop, global_alpha: u8, r: ResolvedStop) -> bool {
    &&& r.pos == s.pos
    &&& r.color@ == backend_channels(s.color, global_alpha)
}

pub open spec fn spread_of(repeat: bool) -> SpreadMode {
    if repeat {
        SpreadMode::Repeat
    } else {
        SpreadMode::Pad
    }
}

/// `r` is the paint of brush `b` over `frame` under `global_alpha`.
pub open spec fn resolves_brush(b: BrushView, frame: Rectangle, global_alpha: u8, r: &ResolvedPaint) -> bool {
    match b {
        BrushView::SolidColor(c) => r matches ResolvedPaint::Solid(col) && col@ == backend_channels(
            c,
            global_alpha,
        ),
        BrushView::Gradient { kind: GradientKind::Linear(coords), stops, repeat } => {
            &&& r is Linear
            &&& r->line == gradient_line(coords, frame)
            &&& r->spread == spread_of(repeat)
            &&& r->stops@.len() == stops.len()
            &&& forall|i: int|
                0 <= i < stops.len() ==> #[trigger] resolves_stop(stops[i], global_alpha, r->stops@[i])
        },
    }
}

fn axis_offset(c: OnLinearBrushCoord, len: i64) -> (r: i64)
    requires
        0 <= len <= 0x4_0000_0000,
    ensures
        r == axis_pixels(c, len as int),
        -0x1_0000_0000_0000 <= r <= 0x1_0000_0000_0000,
{
    match c {
        OnLinearBrushCoord::Pixels(p) => p as i64,
        OnLinearBrushCoord::Percent(p) => {
            let neg = p < 0;
            let m: i64 = if neg { -(p as i64) } else { p as i64 };
            assert(0 <= len * m <= 0x4_0000_0000 * 0x8000) by (nonlinear_arith)
                requires
                    0 <= len <= 0x4_0000_0000,
                    0 <= m <= 0x8000,
            ;
            let q = (len * m) / 100;
            assert(len * p == if neg { -(len * m) } else { len * m }) by (nonlinear_arith)
                requires
                    m == if neg { -(p as int) } else { p as int },
                    neg == (p < 0),
            ;
            if neg {
                -q
            } else {
                q
            }
        },
    }
}

fn direction_cross(d: Direction, w: i64, h: i64) -> (r: (i64, i64, i64, i64))
    ensures
        (r.0 as int, r.1 as int, r.2 as int, r.3 as int) == direction_ends(d, w as int, h as int),
{
    match d {
        Direction::ToTop => (0, h, 0, 0),
        Direction::ToTopRight => (0, h, w, 0),
        Direction::ToRight => (0, 0, w, 0),
        Direction::ToBottomRight => (0, 0, w, h),
        Direction::ToBottom => (0, 0, 0, h),
        Direction::ToBottomLeft => (w, 0, 0, h),
        Direction::ToLeft => (w, 0, 0, 0),
        Direction::ToTopLeft => (w, h, 0, 0),
    }
}

/// Places the axis of a linear gradient in `frame`.
pub fn linear_gradient_line(coords: LinearGradientCoords, frame: Rectangle) -> (r: GradientLine)
    requires
        frame.wf(),
    ensures
        r == gradient_line(coords, frame),
{
    match coords {
        LinearGradientCoords::Ends { start, end } => GradientLine::Points {
            start: Position { x: frame.x + start.x as i64, y: frame.y + start.y as i64 },
            end: Position { x: frame.x + end.x as i64, y: frame.y + end.y as i64 },
        },
        LinearGradientCoords::Angle { angle, displacement } => {
            let dx = axis_offset(displacement.x, frame.width);
            let dy = axis_offset(displacement.y, frame.height);
            GradientLine::Rotated {
                origin: Position { x: frame.x + dx, y: frame.y + dy },
                width: frame.width,
                height: frame.height,
                angle,
            }
        },
        LinearGradientCoords::Direction { direction, displacement } => {
            let (sx, sy, ex, ey) = direction_cross(direction, frame.width, frame.height);
            let dx = axis_offset(displacement.x, frame.width);
            let dy = axis_offset(displacement.y, frame.height);
            GradientLine::Points {
                start: Position { x: frame.x + sx + dx, y: frame.y + sy + dy },
                end: Position { x: frame.x + ex + dx, y: frame.y + ey + dy },
            }
        },
    }
}

/// Resolves each stop in the order given: positions are kept, colors are
/// converted into the buffer's channel order with their alpha scaled.
pub fn build_unit_percent_gradient(stops: &Vec<GradientStop>, global_alpha: u8) -> (r: Vec<ResolvedStop>)
    ensures
        r@.len() == stops@.len(),
        forall|i: int|
            0 <= i < stops@.len() ==> #[trigger] resolves_stop(stops@[i], global_alpha, r@[i]),
{
    let mut r: Vec<ResolvedStop> = Vec::new();
    let mut i: usize = 0;
    while i < stops.len()
        invariant
            i <= stops@.len(),
            r@.len() == i,
            forall|j: int| 0 <= j < i ==> #[trigger] resolves_stop(stops@[j], global_alpha, r@[j]),
        decreases stops@.len() - i,
    {
        let s = stops[i];
        r.push(ResolvedStop { pos: s.pos, color: to_backend(s.color, global_alpha) });
        i = i + 1;
    }
    r
}

/// Resolves `brush` into a paint for a shape whose bounding box is `frame`,
/// with every alpha channel scaled by `global_alpha`.
pub fn paint_from_brush(brush: &Brush, frame: Rectangle, global_alpha: u8) -> (r: ResolvedPaint)
    requires
        frame.wf(),
    ensures
        resolves_brush(brush@, frame, global_alpha, &r),
{
    match brush {
        Brush::SolidColor(c) => ResolvedPaint::Solid(to_backend(*c, global_alpha)),
        Brush::Gradient(g) => {
            let spread = if g.repeat {
                SpreadMode::Repeat
            } else {
                SpreadMode::Pad
            };
            let GradientKind::Linear(coords) = g.kind;
            let line = linear_gradient_line(coords, frame);
            let stops = build_unit_percent_gradient(&g.stops, global_alpha);
            ResolvedPaint::Linear { line, stops, spread }
        },
    }
}

/// Stop positions survive resolution unchanged, whatever frame the gradient
/// is placed in: two resolutions of one stop over any two frames agree on it.
pub proof fn lemma_stop_position_independent_of_frame(
    s: GradientStop,
    global_alpha: u8,
    in_first_frame: ResolvedStop,
    in_second_frame: ResolvedStop,
)
    requires
        resolves_stop(s, global_alpha, in_first_frame),
        resolves_stop(s, global_alpha, in_second_frame),
    ensures
        in_first_frame.pos == s.pos,
        in_second_frame.pos == s.pos,
{
}

} // verus!
