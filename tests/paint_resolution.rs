use orbtk_tinyskia::color::{scaled_alpha, to_backend, Color};
use orbtk_tinyskia::geometry::{Point, Position, Rectangle};
use orbtk_tinyskia::paint::{
    build_unit_percent_gradient, linear_gradient_line, paint_from_brush, Brush, Direction,
    Displacement, Gradient, GradientKind, GradientLine, GradientStop, LinearGradientCoords,
    OnLinearBrushCoord, ResolvedPaint, ResolvedStop, SpreadMode,
};

fn frame(x: i64, y: i64, width: i64, height: i64) -> Rectangle {
    Rectangle { x, y, width, height }
}

fn three_stops() -> Vec<GradientStop> {
    vec![
        GradientStop { pos: 0, color: Color::rgb(255, 0, 0) },
        GradientStop { pos: 500, color: Color::rgb(0, 255, 0) },
        GradientStop { pos: 1000, color: Color::rgb(0, 0, 255) },
    ]
}

fn no_displacement() -> Displacement {
    Displacement { x: OnLinearBrushCoord::Pixels(0), y: OnLinearBrushCoord::Pixels(0) }
}

#[test]
fn channels_swap_red_and_blue() {
    assert_eq!(to_backend(Color::rgba(1, 2, 3, 4), 255), [3, 2, 1, 4]);
    assert_eq!(to_backend(Color::rgb(255, 0, 0), 255), [0, 0, 255, 255]);
}

#[test]
fn global_alpha_scales_alpha_channel() {
    assert_eq!(scaled_alpha(255, 255), 255);
    assert_eq!(scaled_alpha(255, 128), 128);
    assert_eq!(scaled_alpha(200, 100), 78);
    assert_eq!(scaled_alpha(200, 0), 0);
    assert_eq!(to_backend(Color::rgba(10, 20, 30, 255), 51), [30, 20, 10, 51]);
}

#[test]
fn solid_brush_resolves_to_backend_color() {
    let paint = paint_from_brush(&Brush::solid(Color::rgb(255, 0, 0)), frame(0, 0, 5, 5), 255);
    assert_eq!(paint, ResolvedPaint::Solid([0, 0, 255, 255]));
}

#[test]
fn stop_positions_survive_any_frame() {
    let brush = || {
        Brush::Gradient(Gradient {
            kind: GradientKind::Linear(LinearGradientCoords::Ends {
                start: Point::new(0, 0),
                end: Point::new(100, 0),
            }),
            stops: three_stops(),
            repeat: false,
        })
    };
    let small = paint_from_brush(&brush(), frame(0, 0, 10, 10), 255);
    let large = paint_from_brush(&brush(), frame(50, 20, 400, 300), 255);
    for paint in [small, large] {
        match paint {
            ResolvedPaint::Linear { stops, spread, .. } => {
                let positions: Vec<u16> = stops.iter().map(|s| s.pos).collect();
                assert_eq!(positions, vec![0, 500, 1000]);
                assert_eq!(spread, SpreadMode::Pad);
                assert_eq!(stops[0].color, [0, 0, 255, 255]);
            }
            other => panic!("expected a gradient, got {:?}", other),
        }
    }
}

#[test]
fn ends_are_relative_to_frame() {
    let line = linear_gradient_line(
        LinearGradientCoords::Ends { start: Point::new(0, 0), end: Point::new(100, 0) },
        frame(50, 20, 400, 300),
    );
    assert_eq!(
        line,
        GradientLine::Points { start: Position { x: 50, y: 20 }, end: Position { x: 150, y: 20 } }
    );
}

#[test]
fn direction_spans_frame_with_displacement() {
    let line = linear_gradient_line(
        LinearGradientCoords::Direction {
            direction: Direction::ToRight,
            displacement: Displacement {
                x: OnLinearBrushCoord::Percent(50),
                y: OnLinearBrushCoord::Pixels(-3),
            },
        },
        frame(5, 5, 20, 10),
    );
    assert_eq!(
        line,
        GradientLine::Points { start: Position { x: 15, y: 2 }, end: Position { x: 35, y: 2 } }
    );
    let up = linear_gradient_line(
        LinearGradientCoords::Direction { direction: Direction::ToTopLeft, displacement: no_displacement() },
        frame(0, 0, 8, 6),
    );
    assert_eq!(
        up,
        GradientLine::Points { start: Position { x: 8, y: 6 }, end: Position { x: 0, y: 0 } }
    );
}

#[test]
fn negative_percent_rounds_towards_zero() {
    let line = linear_gradient_line(
        LinearGradientCoords::Angle {
            angle: 45_000,
            displacement: Displacement {
                x: OnLinearBrushCoord::Percent(-10),
                y: OnLinearBrushCoord::Percent(10),
            },
        },
        frame(0, 0, 15, 15),
    );
    assert_eq!(
        line,
        GradientLine::Rotated { origin: Position { x: -1, y: 1 }, width: 15, height: 15, angle: 45_000 }
    );
}

#[test]
fn repeating_gradient_resolves_to_repeat_spread() {
    let brush = Brush::Gradient(Gradient {
        kind: GradientKind::Linear(LinearGradientCoords::Angle { angle: 90_000, displacement: no_displacement() }),
        stops: three_stops(),
        repeat: true,
    });
    match paint_from_brush(&brush, frame(0, 0, 10, 20), 128) {
        ResolvedPaint::Linear { line, stops, spread } => {
            assert_eq!(spread, SpreadMode::Repeat);
            assert_eq!(
                line,
                GradientLine::Rotated { origin: Position { x: 0, y: 0 }, width: 10, height: 20, angle: 90_000 }
            );
            assert_eq!(stops[2], ResolvedStop { pos: 1000, color: [255, 0, 0, 128] });
        }
        other => panic!("expected a gradient, got {:?}", other),
    }
}

#[test]
fn stops_keep_their_order() {
    let stops = vec![
        GradientStop { pos: 800, color: Color::rgb(1, 1, 1) },
        GradientStop { pos: 200, color: Color::rgb(2, 2, 2) },
    ];
    let resolved = build_unit_percent_gradient(&stops, 255);
    assert_eq!(resolved.iter().map(|s| s.pos).collect::<Vec<u16>>(), vec![800, 200]);
    assert!(build_unit_percent_gradient(&Vec::new(), 255).is_empty());
}

#[test]
fn duplicate_brush_is_equal() {
    let brush = Brush::Gradient(Gradient {
        kind: GradientKind::Linear(LinearGradientCoords::Ends { start: Point::new(1, 2), end: Point::new(3, 4) }),
        stops: three_stops(),
        repeat: false,
    });
    assert_eq!(brush.duplicate(), brush);
}
