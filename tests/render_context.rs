use orbtk_tinyskia::arc::ArcStep;
use orbtk_tinyskia::color::Color;
use orbtk_tinyskia::context::{FontChoice, RenderContext2D, TextMetrics};
use orbtk_tinyskia::geometry::{Point, Rectangle};
use orbtk_tinyskia::paint::{Brush, Gradient, GradientKind, GradientStop, LinearGradientCoords, ResolvedPaint};
use orbtk_tinyskia::path_rect::PathRect;
use orbtk_tinyskia::widget::CheckBox;

fn rect(x: i64, y: i64, width: i64, height: i64) -> Rectangle {
    Rectangle { x, y, width, height }
}

fn gradient() -> Brush {
    Brush::Gradient(Gradient {
        kind: GradientKind::Linear(LinearGradientCoords::Ends { start: Point::new(0, 0), end: Point::new(1, 1) }),
        stops: vec![
            GradientStop { pos: 0, color: Color::rgb(0, 0, 0) },
            GradientStop { pos: 1000, color: Color::rgb(255, 255, 255) },
        ],
        repeat: false,
    })
}

#[test]
fn red_fill_rect_resolves_red_over_rect() {
    let mut ctx = RenderContext2D::new(100, 100).unwrap();
    ctx.set_fill_style(Brush::solid(Color::rgb(255, 0, 0)));
    let op = ctx.fill_rect(10, 10, 20, 20).expect("a positive rectangle is drawn");
    assert_eq!(op.rect, rect(10, 10, 20, 20));
    assert_eq!(op.paint, ResolvedPaint::Solid([0, 0, 255, 255]));
    ctx.start();
    assert!(ctx.data().iter().all(|b| *b == 0));
    assert_eq!(ctx.get_rect(), None);
}

#[test]
fn empty_fill_rect_draws_nothing() {
    let ctx = RenderContext2D::new(100, 100).unwrap();
    assert!(ctx.fill_rect(10, 10, 0, 20).is_none());
    assert!(ctx.fill_rect(10, 10, 20, -1).is_none());
    assert!(ctx.fill_rect(10, 10, -5, -5).is_none());
}

#[test]
fn triangle_path_fills_over_its_bound() {
    let mut ctx = RenderContext2D::new(100, 100).unwrap();
    ctx.set_fill_style(Brush::solid(Color::rgb(0, 0, 255)));
    ctx.begin_path();
    ctx.move_to(0, 0);
    ctx.line_to(10, 0);
    ctx.line_to(10, 10);
    ctx.close_path();
    assert_eq!(ctx.get_rect(), Some(rect(0, 0, 10, 10)));
    assert_eq!(ctx.fill(), Some(ResolvedPaint::Solid([255, 0, 0, 255])));
}

#[test]
fn fill_and_stroke_of_empty_path_do_nothing() {
    let mut ctx = RenderContext2D::new(10, 10).unwrap();
    ctx.begin_path();
    assert_eq!(ctx.get_rect(), None);
    assert!(ctx.fill().is_none());
    assert!(ctx.stroke().is_none());
}

#[test]
fn single_operations_bound_their_extent() {
    let mut ctx = RenderContext2D::new(10, 10).unwrap();
    ctx.begin_path();
    ctx.line_to(7, -3);
    assert_eq!(ctx.get_rect(), Some(rect(7, -3, 0, 0)));
    ctx.begin_path();
    ctx.rect(5, 5, -4, 6);
    assert_eq!(ctx.get_rect(), Some(rect(1, 5, 4, 6)));
    ctx.begin_path();
    let steps = ctx.arc(20, 30, 5, 0, 45_000);
    assert_eq!(ctx.get_rect(), Some(rect(15, 25, 10, 10)));
    assert_eq!(steps.len(), 3);
    assert_eq!(steps[0], ArcStep::LineToAngle(0));
    assert_eq!(steps[1], ArcStep::Fragment { from: 0, to: 45_000 });
}

#[test]
fn curves_count_their_control_points() {
    let mut ctx = RenderContext2D::new(10, 10).unwrap();
    ctx.begin_path();
    ctx.move_to(0, 0);
    ctx.bezier_curve_to(-5, 2, 20, -8, 10, 10);
    assert_eq!(ctx.get_rect(), Some(rect(-5, -8, 25, 18)));
    ctx.begin_path();
    ctx.move_to(0, 0);
    ctx.quadratic_curve_to(4, 30, 8, 0);
    assert_eq!(ctx.get_rect(), Some(rect(0, 0, 8, 30)));
}

#[test]
fn tracker_starts_empty_and_rebirths() {
    let mut tracker = PathRect::new(None);
    assert_eq!(tracker.get_rect(), None);
    tracker.record_line_to(3, 4);
    tracker.record_arc(0, 0, 2);
    assert_eq!(tracker.get_rect(), Some(rect(-2, -2, 5, 6)));
    tracker.record_clip();
    tracker.record_path_close();
    assert_eq!(tracker.get_rect(), Some(rect(-2, -2, 5, 6)));
    tracker.rebirth();
    assert_eq!(tracker.get_rect(), None);
}

#[test]
fn nested_save_restore_returns_each_configuration() {
    let mut ctx = RenderContext2D::new(10, 10).unwrap();
    let mut seen = Vec::new();
    for i in 0..3u8 {
        ctx.set_alpha(100 + i);
        ctx.set_line_width(i as i32 + 1);
        ctx.set_fill_style(Brush::solid(Color::rgb(i, i, i)));
        seen.push((ctx.alpha(), ctx.line_width(), ctx.fill_style()));
        ctx.save();
    }
    ctx.set_alpha(7);
    ctx.set_line_width(9);
    ctx.set_fill_style(gradient());
    assert_eq!(ctx.saved_count(), 3);
    for i in (0..3).rev() {
        ctx.restore();
        assert_eq!((ctx.alpha(), ctx.line_width(), ctx.fill_style()), seen[i]);
    }
    assert_eq!(ctx.saved_count(), 0);
    ctx.restore();
    assert_eq!((ctx.alpha(), ctx.line_width(), ctx.fill_style()), seen[0]);
}

#[test]
fn restore_brings_back_bound_and_clips() {
    let mut ctx = RenderContext2D::new(10, 10).unwrap();
    ctx.rect(0, 0, 4, 4);
    ctx.save();
    ctx.line_to(9, 9);
    ctx.clip();
    ctx.clip();
    assert_eq!(ctx.clips_count(), 2);
    assert_eq!(ctx.get_rect(), Some(rect(0, 0, 9, 9)));
    ctx.restore();
    assert_eq!(ctx.clips_count(), 0);
    assert_eq!(ctx.get_rect(), Some(rect(0, 0, 4, 4)));
}

#[test]
fn restore_without_save_changes_nothing() {
    let mut ctx = RenderContext2D::new(10, 10).unwrap();
    ctx.set_alpha(42);
    ctx.restore();
    assert_eq!(ctx.alpha(), 42);
    assert_eq!(ctx.saved_count(), 0);
}

#[test]
fn second_registration_keeps_first_font() {
    let mut ctx = RenderContext2D::new(10, 10).unwrap();
    assert!(ctx.register_font("Roboto", &[1, 2, 3]));
    assert!(!ctx.register_font("Roboto", &[9, 9]));
    assert_eq!(ctx.font_file("Roboto"), Some(&vec![1, 2, 3]));
    assert!(ctx.register_font("Mono", &[4]));
    assert_eq!(ctx.font_file("Mono"), Some(&vec![4]));
    assert_eq!(ctx.font_file("Serif"), None);
}

#[test]
fn measure_sets_font_and_picks_registered_font() {
    let mut ctx = RenderContext2D::new(10, 10).unwrap();
    ctx.register_font("A", &[1]);
    ctx.register_font("B", &[2]);
    assert_eq!(ctx.measure("hello", 12, "B".to_string()), Some(FontChoice { index: 1, font_size: 16 }));
    assert_eq!(ctx.measure_text("hello"), Some(FontChoice { index: 1, font_size: 16 }));
    assert_eq!(ctx.measure_text(""), None);
    assert_eq!(ctx.measure("hello", 12, "C".to_string()), None);
}

#[test]
fn fill_text_resolves_over_text_box() {
    let mut ctx = RenderContext2D::new(10, 10).unwrap();
    let metrics = TextMetrics { width: 30, height: 12 };
    ctx.set_fill_style(Brush::solid(Color::rgba(1, 2, 3, 255)));
    assert!(ctx.fill_text("hi", 0, 0, metrics).is_none());
    ctx.register_font("A", &[1]);
    ctx.set_font_family("A".to_string());
    ctx.set_font_size(10);
    assert!(ctx.fill_text("", 0, 0, metrics).is_none());
    let op = ctx.fill_text("hi", 5, 6, metrics).expect("a registered font draws");
    assert_eq!(op.font, FontChoice { index: 0, font_size: 14 });
    assert_eq!(op.paint, ResolvedPaint::Solid([3, 2, 1, 255]));
}

#[test]
fn stroke_uses_line_width_and_stroke_style() {
    let mut ctx = RenderContext2D::new(10, 10).unwrap();
    ctx.set_line_width(3);
    ctx.set_stroke_style(Brush::solid(Color::rgb(0, 255, 0)));
    let op = ctx.stroke_rect(1, 1, 4, 4).expect("a rectangle was added");
    assert_eq!(op.line_width, 3);
    assert_eq!(op.paint, ResolvedPaint::Solid([0, 255, 0, 255]));
    assert_eq!(ctx.get_rect(), Some(rect(1, 1, 4, 4)));
}

fn pixel(ctx: &RenderContext2D, x: usize, y: usize) -> [u8; 4] {
    let i = (y * ctx.width() as usize + x) * 4;
    let d = ctx.data();
    [d[i], d[i + 1], d[i + 2], d[i + 3]]
}

#[test]
fn clear_with_solid_and_gradient() {
    let mut ctx = RenderContext2D::new(4, 3).unwrap();
    assert!(ctx.clear(&Brush::solid(Color::rgba(10, 20, 30, 255))).is_none());
    assert!(ctx.data().chunks(4).all(|p| p == [30, 20, 10, 255]));
    assert!(ctx.clear(&Brush::solid(Color::rgba(10, 20, 30, 0))).is_none());
    assert!(ctx.data().iter().all(|b| *b == 0));
    ctx.set_fill_style(Brush::solid(Color::rgb(9, 8, 7)));
    let op = ctx.clear(&gradient()).expect("the surface is to be filled");
    assert_eq!(op.rect, rect(0, 0, 4, 3));
    assert_eq!(op.paint, ResolvedPaint::Solid([7, 8, 9, 255]));
    assert!(ctx.data().iter().all(|b| *b == 0));
}

#[test]
fn translucent_clear_keeps_alpha_byte() {
    let mut ctx = RenderContext2D::new(2, 2).unwrap();
    ctx.clear(&Brush::solid(Color::rgba(200, 100, 50, 128)));
    assert!(ctx.data().chunks(4).all(|p| p[3] == 128));
}

#[test]
fn background_and_resize() {
    let mut ctx = RenderContext2D::new(4, 3).unwrap();
    assert_eq!(ctx.data().len(), 48);
    assert!(ctx.data().iter().all(|b| *b == 0));
    ctx.set_background(Color::rgba(1, 2, 3, 255));
    ctx.start();
    assert_eq!(pixel(&ctx, 3, 2), [3, 2, 1, 255]);
    assert!(ctx.resize(8, 9));
    assert_eq!((ctx.width(), ctx.height()), (8, 9));
    assert_eq!(ctx.data().len(), 8 * 9 * 4);
    assert!(ctx.data().iter().all(|b| *b == 0));
    assert!(!ctx.resize(0, 3));
    assert_eq!((ctx.width(), ctx.height()), (8, 9));
    ctx.finish();
    let _widget = CheckBox;
}

#[test]
fn surface_of_zero_size_cannot_exist() {
    assert!(RenderContext2D::new(0, 10).is_none());
    assert!(RenderContext2D::new(10, 0).is_none());
    assert!(RenderContext2D::new(0x2000_0000, 1).is_none());
}

#[test]
fn red_rect_scene_keeps_background_outside() {
    let mut ctx = RenderContext2D::new(100, 100).unwrap();
    ctx.set_background(Color::rgb(255, 255, 255));
    ctx.start();
    ctx.set_fill_style(Brush::solid(Color::rgb(255, 0, 0)));
    let op = ctx.fill_rect(10, 10, 20, 20).unwrap();
    assert_eq!(op.paint, ResolvedPaint::Solid([0, 0, 255, 255]));
    assert_eq!(pixel(&ctx, 5, 5), [255, 255, 255, 255]);
}

#[test]
fn draw_image_blits_opaque_pixels() {
    let mut ctx = RenderContext2D::new(4, 4).unwrap();
    let image: Vec<u8> = [[10, 20, 30, 255]; 4].concat();
    assert!(ctx.draw_image(2, 2, &image, 1, 2));
    assert_eq!(pixel(&ctx, 1, 2), [10, 20, 30, 255]);
    assert_eq!(pixel(&ctx, 2, 3), [10, 20, 30, 255]);
    assert_eq!(pixel(&ctx, 0, 0), [0, 0, 0, 0]);
    assert_eq!(pixel(&ctx, 3, 1), [0, 0, 0, 0]);
    assert!(ctx.draw_render_target(1, 1, &[1, 2, 3, 255], 0, 0));
    assert_eq!(pixel(&ctx, 0, 0), [1, 2, 3, 255]);
    assert!(!ctx.draw_image(2, 2, &[1, 2, 3], 0, 0));
    assert!(!ctx.draw_image(1, 1, &[0, 0, 0, 255], i32::MAX, 0));
    assert!(!ctx.draw_image(1, 1, &[0, 0, 0, 255], 0, i32::MAX));
    assert!(ctx.draw_image(1, 1, &[9, 9, 9, 255], i32::MAX - 1, -5));
    assert_eq!(pixel(&ctx, 0, 0), [1, 2, 3, 255]);
    assert!(!ctx.draw_image(0, 2, &[], 0, 0));
}

#[test]
fn global_alpha_applies_to_fills() {
    let mut ctx = RenderContext2D::new(10, 10).unwrap();
    ctx.set_alpha(128);
    ctx.set_fill_style(Brush::solid(Color::rgb(255, 255, 255)));
    let op = ctx.fill_rect(0, 0, 1, 1).unwrap();
    assert_eq!(op.paint, ResolvedPaint::Solid([255, 255, 255, 128]));
}

#[test]
fn extreme_coordinates_do_not_overflow() {
    let mut ctx = RenderContext2D::new(1, 1).unwrap();
    ctx.rect(i32::MAX, i32::MAX, i32::MAX, i32::MAX);
    let max = i32::MAX as i64;
    assert_eq!(ctx.get_rect(), Some(rect(max, max, max, max)));
    ctx.arc(i32::MIN, i32::MIN, i32::MAX, 0, 1);
    let min = i32::MIN as i64;
    assert_eq!(ctx.get_rect(), Some(rect(min - max, min - max, 3 * max - min, 3 * max - min)));
    ctx.begin_path();
    ctx.arc(0, 0, -3, 0, 1);
    assert_eq!(ctx.get_rect(), Some(rect(-3, -3, 6, 6)));
}

#[test]
fn stroke_rect_of_empty_rectangle_does_nothing() {
    let mut ctx = RenderContext2D::new(10, 10).unwrap();
    ctx.line_to(2, 2);
    assert!(ctx.stroke_rect(1, 1, 0, 4).is_none());
    assert!(ctx.stroke_rect(1, 1, 4, -4).is_none());
    assert_eq!(ctx.get_rect(), Some(rect(2, 2, 0, 0)));
}

#[test]
fn restore_after_setters_and_path_calls() {
    let mut ctx = RenderContext2D::new(10, 10).unwrap();
    ctx.set_alpha(200);
    ctx.save();
    ctx.set_alpha(10);
    ctx.set_line_width(7);
    ctx.set_stroke_style(gradient());
    ctx.set_font_family("Mono".to_string());
    ctx.move_to(3, 3);
    ctx.save();
    ctx.set_alpha(20);
    ctx.restore();
    assert_eq!(ctx.alpha(), 10);
    ctx.restore();
    assert_eq!(ctx.alpha(), 200);
    assert_eq!(ctx.line_width(), 1);
    assert_eq!(ctx.stroke_style(), Brush::new());
    assert_eq!(ctx.get_rect(), None);
    assert_eq!(ctx.saved_count(), 0);
}

#[test]
fn pixmap_drawing_shows_in_data() {
    let mut ctx = RenderContext2D::new(2, 2).unwrap();
    ctx.pixmap_mut().data_mut()[0] = 77;
    assert_eq!(ctx.data()[0], 77);
}
