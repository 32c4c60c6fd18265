//! The render context: the state that drawing operations read and change,
//! and the decisions they make before anything is rasterized.
use vstd::prelude::*;
use tiny_skia::Pixmap;
use crate::arc::{arc_plan, arc_steps, ArcStep};
use crate::color::{backend_channels, to_backend, Color};
use crate::geometry::Rectangle;
use crate::paint::{paint_from_brush, resolves_brush, Brush, BrushView, ResolvedPaint};
use crate::path_rect::{arc_extent, point_extent, span_extent, widen, PathRect};
use crate::surface::{
    all_pixels, blit_of, premultiplied_of, rect_exact_in_f32, byte_in_rect, copy_into_pixmap, draw_pixmap, fill_pixmap, has_size, new_pixmap, pixmap_bytes,
    pixmap_data, valid_size,
};
use crate::state::{
    default_config, stack_items, ConfigView, RenderConfig, SavedState, SnapshotView, StateStack,
    MAX_SAVED_STATES,
};

verus! {

/// The size of a measured text, in pixels.
#[derive(Clone, Copy, Debug, PartialEq, Eq, Structural)]
pub struct TextMetrics {
    pub width: i32,
    pub height: i32,
}

/// A registered font: its family name and the font file it was registered with.
#[derive(Debug)]
pub struct FontEntry {
    pub family: String,
    pub file: Vec<u8>,
}

/// The font to measure or draw a text with: an index into the registry, and
/// the size.
#[derive(Clone, Copy, Debug, PartialEq, Eq, Structural)]
pub struct FontChoice {
    pub index: usize,
    pub font_size: i64,
}

/// A rectangle to fill at once with a paint.
#[derive(Debug, PartialEq, Eq)]
pub struct FillRectOp {
    pub rect: Rectangle,
    pub paint: ResolvedPaint,
}

/// A path to stroke with a paint and a line width.
#[derive(Debug, PartialEq, Eq)]
pub struct StrokeOp {
    pub paint: ResolvedPaint,
    pub line_width: i32,
}

/// A text to draw with a paint and a font.
#[derive(Debug, PartialEq, Eq)]
pub struct TextOp {
    pub paint: ResolvedPaint,
    pub font: FontChoice,
}

/// The state of a render context.
pub struct RenderContext2D {
    background: Color,
    clips_count: usize,
    config: RenderConfig,
    fonts: Vec<FontEntry>,
    path_rect: PathRect,
    saved_states: StateStack,
    width: u32,
    height: u32,
    pixmap: Pixmap,
}

/// The mathematical value of a render context.
pub struct ContextView {
    pub background: Color,
    pub clips_count: usize,
    pub config: ConfigView,
    /// Registered fonts: family and file, in order of registration.
    pub fonts: Seq<(Seq<char>, Seq<u8>)>,
    /// Bounding box of the path under construction.
    pub bound: Option<Rectangle>,
    /// Saved states, oldest first.
    pub stack: Seq<SnapshotView>,
    pub width: u32,
    pub height: u32,
    /// The pixel buffer: four bytes per pixel (blue, green, red and alpha of
    /// the color drawn, premultiplied), rows one after another.
    pub pixels: Seq<u8>,
}

impl View for RenderContext2D {
    type V = ContextView;

    closed spec fn view(&self) -> ContextView {
        ContextView {
            background: self.background,
            clips_count: self.clips_count,
            config: self.config@,
            fonts: self.fonts@.map_values(|f: FontEntry| (f.family@, f.file@)),
            bound: self.path_rect.bound(),
            stack: stack_items(self.saved_states).map_values(|s: SavedState| s@),
            width: self.width,
            height: self.height,
            pixels: pixmap_bytes(self.pixmap),
        }
    }
}

/// An image of `width` × `height` given as `data` can be drawn at (x, y).
pub open spec fn image_drawable(width: u32, height: u32, data: Seq<u8>, x: i32, y: i32) -> bool {
    &&& valid_size(width, height)
    &&& data.len() == 4 * (width as int) * (height as int)
    &&& x + width <= i32::MAX
    &&& y + height <= i32::MAX
}

/// `after` is the buffer of `before` with the image `data` of `width` ×
/// `height` blended over it at (x, y). Where the image's edges are exact in
/// `f32` (within 2^24 of the origin), pixels outside the image stay.
pub open spec fn blits(
    before: ContextView,
    after: Seq<u8>,
    data: Seq<u8>,
    width: u32,
    height: u32,
    x: i32,
    y: i32,
) -> bool {
    &&& after == blit_of(before.pixels, before.width, data, width, x, y)
    &&& rect_exact_in_f32(x as int, y as int, width as int, height as int) ==> forall|i: int|
        0 <= i < before.pixels.len() && !byte_in_rect(
            i,
            before.width,
            x as int,
            y as int,
            width as int,
            height as int,
        ) ==> #[trigger] after[i] == before.pixels[i]
}

/// A bound is either empty or a well-formed rectangle.
pub open spec fn bound_wf(b: Option<Rectangle>) -> bool {
    b matches Some(r) ==> r.wf()
}

/// Entry `i` of the registered fonts is the font of `family`.
pub open spec fn has_font(fonts: Seq<(Seq<char>, Seq<u8>)>, family: Seq<char>, i: int) -> bool {
    0 <= i < fonts.len() && fonts[i].0 == family
}

pub open spec fn is_registered(fonts: Seq<(Seq<char>, Seq<u8>)>, family: Seq<char>) -> bool {
    exists|i: int| has_font(fonts, family, i)
}

impl ContextView {
    /// The buffer holds four bytes for each pixel of the surface, every bound
    /// is well formed, and no family is registered twice.
    pub open spec fn wf(self) -> bool {
        &&& self.pixels.len() == 4 * (self.width as int) * (self.height as int)
        &&& bound_wf(self.bound)
        &&& forall|i: int| 0 <= i < self.stack.len() ==> bound_wf(#[trigger] self.stack[i].bound)
        &&& forall|i: int, j: int|
            0 <= i < self.fonts.len() && 0 <= j < self.fonts.len() && i != j ==> #[trigger] self.fonts[i].0
                != #[trigger] self.fonts[j].0
    }

    /// The state after widening the path's bound by `extent`.
    pub open spec fn recorded(self, extent: Rectangle) -> ContextView {
        ContextView { bound: widen(self.bound, extent), ..self }
    }

    /// The state with configuration `c`.
    pub open spec fn with_config(self, c: ConfigView) -> ContextView {
        ContextView { config: c, ..self }
    }
}

/// The state after registering `file` under `family`: the first font
/// registered for a family stays.
pub open spec fn register_spec(v: ContextView, family: Seq<char>, file: Seq<u8>) -> ContextView {
    if is_registered(v.fonts, family) {
        v
    } else {
        ContextView { fonts: v.fonts.push((family, file)), ..v }
    }
}

/// Registering a family a second time, with any font file, leaves the
/// registry exactly as the first registration left it.
pub proof fn lemma_register_twice_keeps_first(
    v: ContextView,
    family: Seq<char>,
    first: Seq<u8>,
    second: Seq<u8>,
)
    ensures
        register_spec(register_spec(v, family, first), family, second) == register_spec(
            v,
            family,
            first,
        ),
{
    let once = register_spec(v, family, first);
    if !is_registered(v.fonts, family) {
        assert(has_font(once.fonts, family, v.fonts.len() as int));
    }
}

/// The state after `save`: a snapshot of configuration, path bound and clip
/// count goes on top of the stack.
pub open spec fn save_spec(v: ContextView) -> ContextView {
    ContextView { stack: v.stack.push(snapshot_of(v)), ..v }
}

/// The snapshot that `save` takes of `v`.
pub open spec fn snapshot_of(v: ContextView) -> SnapshotView {
    SnapshotView { config: v.config, bound: v.bound, clips_count: v.clips_count }
}

/// The state after `restore`: the top snapshot is taken off the stack and
/// put back in force; with an empty stack nothing changes.
pub open spec fn restore_spec(v: ContextView) -> ContextView {
    if v.stack.len() == 0 {
        v
    } else {
        let top = v.stack.last();
        ContextView {
            config: top.config,
            bound: top.bound,
            clips_count: top.clips_count,
            stack: v.stack.drop_last(),
            ..v
        }
    }
}

pub open spec fn save_times(v: ContextView, n: nat) -> ContextView
    decreases n,
{
    if n == 0 {
        v
    } else {
        save_spec(save_times(v, (n - 1) as nat))
    }
}

pub open spec fn restore_times(v: ContextView, n: nat) -> ContextView
    decreases n,
{
    if n == 0 {
        v
    } else {
        restore_spec(restore_times(v, (n - 1) as nat))
    }
}

/// A `restore` undoes the `save` just before it.
pub proof fn lemma_restore_undoes_save(v: ContextView)
    ensures
        restore_spec(save_spec(v)) == v,
{
    let s = save_spec(v);
    assert(s.stack.drop_last() =~= v.stack);
}

/// Whatever happened since a `save` (setters, path operations, clips, and
/// further saves each matched by a restore), as long as the stack is as that
/// save left it, `restore` brings back the configuration (fill and stroke
/// style, alpha, line width, font), the path bound and the clip count of the
/// moment of the save, and the stack from before it.
pub proof fn lemma_restore_returns_to_save(at_save: ContextView, now: ContextView)
    requires
        now.stack == save_spec(at_save).stack,
    ensures
        restore_spec(now).config == at_save.config,
        restore_spec(now).bound == at_save.bound,
        restore_spec(now).clips_count == at_save.clips_count,
        restore_spec(now).stack == at_save.stack,
{
    assert(now.stack.drop_last() =~= at_save.stack);
}

/// Nested saves unwind in last-in-first-out order, whatever happened between
/// them: `saved[i]` is the state at the `i`-th of `n` saves, each made on the
/// stack the previous one left, and `now` holds the stack the last one left.
/// Then the `k`-th restore (for `k` from 1 to `n`) brings back the state of
/// save `n - k`: its configuration, path bound, clip count and stack.
pub proof fn lemma_restores_unwind_saves(saved: Seq<ContextView>, now: ContextView, k: nat)
    requires
        1 <= k <= saved.len(),
        forall|i: int| 0 < i < saved.len() ==> (#[trigger] saved[i]).stack == save_spec(saved[i - 1]).stack,
        now.stack == save_spec(saved.last()).stack,
    ensures
        ({
            let back = restore_times(now, k);
            let at_save = saved[saved.len() - k];
            &&& back.config == at_save.config
            &&& back.bound == at_save.bound
            &&& back.clips_count == at_save.clips_count
            &&& back.stack == at_save.stack
        }),
    decreases k,
{
    let n = saved.len() as int;
    if k == 1 {
        assert(restore_times(now, 0) == now);
        lemma_restore_returns_to_save(saved.last(), now);
    } else {
        lemma_restores_unwind_saves(saved, now, (k - 1) as nat);
        let u = restore_times(now, (k - 1) as nat);
        assert(saved[n - k + 1].stack == save_spec(saved[n - k]).stack);
        lemma_restore_returns_to_save(saved[n - k], u);
    }
}

proof fn lemma_restores_step_back(v: ContextView, n: nat, k: nat)
    requires
        k <= n,
    ensures
        restore_times(save_times(v, n), k) == save_times(v, (n - k) as nat),
    decreases k,
{
    if k > 0 {
        lemma_restores_step_back(v, n, (k - 1) as nat);
        lemma_restore_undoes_save(save_times(v, (n - k) as nat));
    }
}

/// After `n` saves, `k` restores (for any `k` up to `n`) bring back the state
/// as it was after `n - k` saves: each restore returns configuration, path
/// bound and clip count to their value before the matching save. Once all `n`
/// are undone, the state is the one before the saves, and if its stack was
/// empty one more restore changes nothing.
pub proof fn lemma_save_restore_nested(v: ContextView, n: nat, k: nat)
    requires
        k <= n,
    ensures
        restore_times(save_times(v, n), k) == save_times(v, (n - k) as nat),
        restore_times(save_times(v, n), n) == v,
        v.stack.len() == 0 ==> restore_spec(restore_times(save_times(v, n), n)) == v,
{
    lemma_restores_step_back(v, n, k);
    lemma_restores_step_back(v, n, n);
}

impl RenderContext2D {
    pub closed spec fn wf(&self) -> bool {
        &&& self@.wf()
        &&& self.path_rect.wf()
        &&& has_size(self.pixmap, self.width, self.height)
        &&& valid_size(self.width, self.height)
    }

    /// Creates a context whose surface is `width` × `height`, all transparent
    /// black; `None` when no pixel buffer of that size can exist.
    pub fn new(width: u32, height: u32) -> (r: Option<RenderContext2D>)
        ensures
            r is Some <==> valid_size(width, height),
            r matches Some(ctx) ==> {
                &&& ctx.wf()
                &&& ctx@ == (ContextView {
                    background: Color { r: 0, g: 0, b: 0, a: 0 },
                    clips_count: 0,
                    config: default_config(),
                    fonts: Seq::empty(),
                    bound: None,
                    stack: Seq::empty(),
                    width,
                    height,
                    pixels: ctx@.pixels,
                })
                &&& all_pixels(ctx@.pixels, seq![0u8, 0u8, 0u8, 0u8])
            },
    {
        let pixmap = match new_pixmap(width, height) {
            Some(p) => p,
            None => return None,
        };
        let ctx = RenderContext2D {
            background: Color::transparent(),
            clips_count: 0,
            config: RenderConfig::new(),
            fonts: Vec::new(),
            path_rect: PathRect::new(None),
            saved_states: StateStack::new(),
            width,
            height,
            pixmap,
        };
        assert(ctx@.fonts =~= Seq::empty());
        assert(ctx@.stack =~= Seq::empty());
        Some(ctx)
    }

    /// The bounding box of the path under construction.
    pub fn get_rect(&self) -> (r: Option<Rectangle>)
        ensures
            r == self@.bound,
    {
        self.path_rect.get_rect()
    }

    /// The number of saved states.
    pub fn saved_count(&self) -> (n: usize)
        ensures
            n == self@.stack.len(),
    {
        self.saved_states.len()
    }

    /// Pushes a snapshot of configuration, path bound and clip count.
    pub fn save(&mut self)
        requires
            old(self).wf(),
            old(self)@.stack.len() < MAX_SAVED_STATES,
        ensures
            final(self).wf(),
            final(self)@ == save_spec(old(self)@),
    {
        let snapshot = SavedState {
            config: self.config.duplicate(),
            path_rect: self.path_rect,
            clips_count: self.clips_count,
        };
        self.saved_states.push(snapshot);
        proof {
            assert(self@.stack =~= save_spec(old(self)@).stack);
        }
    }

    /// Pops the most recent snapshot and puts it back in force; does nothing
    /// when no state is saved.
    pub fn restore(&mut self)
        requires
            old(self).wf(),
        ensures
            final(self).wf(),
            final(self)@ == restore_spec(old(self)@),
    {
        match self.saved_states.pop() {
            Some(snapshot) => {
                proof {
                    let items = stack_items(old(self).saved_states);
                    assert(old(self)@.stack[items.len() - 1] == snapshot@);
                }
                self.config = snapshot.config;
                self.path_rect = snapshot.path_rect;
                self.clips_count = snapshot.clips_count;
                proof {
                    assert(self@.stack =~= old(self)@.stack.drop_last());
                }
            },
            None => {
                proof {
                    assert(self@.stack =~= old(self)@.stack);
                }
            },
        }
    }

    /// Discards the path under construction: its bound becomes empty.
    pub fn begin_path(&mut self)
        requires
            old(self).wf(),
        ensures
            final(self).wf(),
            final(self)@ == (ContextView { bound: None, ..old(self)@ }),
    {
        self.path_rect.rebirth();
    }

    /// Begins a sub-path at (x, y).
    pub fn move_to(&mut self, x: i32, y: i32)
        requires
            old(self).wf(),
        ensures
            final(self).wf(),
            final(self)@ == old(self)@.recorded(point_extent(x, y)),
    {
        self.path_rect.record_move_to(x, y);
    }

    /// Adds a line to (x, y).
    pub fn line_to(&mut self, x: i32, y: i32)
        requires
            old(self).wf(),
        ensures
            final(self).wf(),
            final(self)@ == old(self)@.recorded(point_extent(x, y)),
    {
        self.path_rect.record_line_to(x, y);
    }

    /// Adds a cubic Bézier curve with control points (cp1x, cp1y) and
    /// (cp2x, cp2y), ending at (x, y).
    pub fn bezier_curve_to(&mut self, cp1x: i32, cp1y: i32, cp2x: i32, cp2y: i32, x: i32, y: i32)
        requires
            old(self).wf(),
        ensures
            final(self).wf(),
            final(self)@ == old(self)@.recorded(point_extent(cp1x, cp1y)).recorded(
                point_extent(cp2x, cp2y),
            ).recorded(point_extent(x, y)),
    {
        self.path_rect.record_bezier_curve_to(cp1x, cp1y, cp2x, cp2y, x, y);
    }

    /// Adds a quadratic Bézier curve with control point (cpx, cpy), ending at
    /// (x, y).
    pub fn quadratic_curve_to(&mut self, cpx: i32, cpy: i32, x: i32, y: i32)
        requires
            old(self).wf(),
        ensures
            final(self).wf(),
            final(self)@ == old(self)@.recorded(point_extent(cpx, cpy)).recorded(
                point_extent(x, y),
            ),
    {
        self.path_rect.record_quadratic_curve_to(cpx, cpy, x, y);
    }

    /// Adds a rectangle with its corner at (x, y).
    pub fn rect(&mut self, x: i32, y: i32, width: i32, height: i32)
        requires
            old(self).wf(),
        ensures
            final(self).wf(),
            final(self)@ == old(self)@.recorded(
                span_extent(x as int, y as int, width as int, height as int),
            ),
    {
        self.path_rect.record_rect(x, y, width, height);
    }

    /// Adds an arc of the circle of `radius` centered at (x, y), from
    /// `start_angle` to `end_angle` (millidegrees). The bound takes in the
    /// circle's whole square; the steps returned draw the arc.
    pub fn arc(&mut self, x: i32, y: i32, radius: i32, start_angle: i32, end_angle: i32) -> (steps:
        Vec<ArcStep>)
        requires
            old(self).wf(),
        ensures
            final(self).wf(),
            final(self)@ == old(self)@.recorded(arc_extent(x, y, radius)),
            steps@ == arc_plan(start_angle as int, end_angle as int),
    {
        self.path_rect.record_arc(x, y, radius);
        arc_steps(start_angle, end_angle)
    }

    /// Closes the current sub-path; the bound does not change.
    pub fn close_path(&mut self)
        requires
            old(self).wf(),
        ensures
            final(self).wf(),
            final(self)@ == old(self)@,
    {
        self.path_rect.record_path_close();
    }

    /// Counts one more clip; the bound does not change.
    pub fn clip(&mut self)
        requires
            old(self).wf(),
            old(self)@.clips_count < usize::MAX,
        ensures
            final(self).wf(),
            final(self)@ == (ContextView { clips_count: (old(self)@.clips_count + 1) as usize, ..old(self)@ }),
    {
        self.path_rect.record_clip();
        self.clips_count = self.clips_count + 1;
    }

    /// The paint to fill the path with, or `None` when the path is empty.
    pub fn fill(&self) -> (r: Option<ResolvedPaint>)
        requires
            self.wf(),
        ensures
            self@.bound is None ==> r is None,
            self@.bound matches Some(frame) ==> (r matches Some(p) && resolves_brush(
                self@.config.fill_style,
                frame,
                self@.config.alpha,
                &p,
            )),
    {
        match self.path_rect.get_rect() {
            None => None,
            Some(frame) => Some(paint_from_brush(&self.config.fill_style, frame, self.config.alpha)),
        }
    }

    /// The paint and line width to stroke the path with, or `None` when the
    /// path is empty.
    pub fn stroke(&self) -> (r: Option<StrokeOp>)
        requires
            self.wf(),
        ensures
            self@.bound is None ==> r is None,
            self@.bound matches Some(frame) ==> (r matches Some(op) && op.line_width
                == self@.config.line_width && resolves_brush(
                self@.config.stroke_style,
                frame,
                self@.config.alpha,
                &op.paint,
            )),
    {
        match self.path_rect.get_rect() {
            None => None,
            Some(frame) => Some(
                StrokeOp {
                    paint: paint_from_brush(&self.config.stroke_style, frame, self.config.alpha),
                    line_width: self.config.line_width,
                },
            ),
        }
    }

    fn fill_rect_frame(&self, rect: Rectangle) -> (r: Option<FillRectOp>)
        requires
            rect.width > 0 && rect.height > 0 ==> rect.wf(),
        ensures
            (rect.width <= 0 || rect.height <= 0) ==> r is None,
            (rect.width > 0 && rect.height > 0) ==> (r matches Some(op) && op.rect == rect
                && resolves_brush(self@.config.fill_style, rect, self@.config.alpha, &op.paint)),
    {
        if rect.width > 0 && rect.height > 0 {
            let paint = paint_from_brush(&self.config.fill_style, rect, self.config.alpha);
            Some(FillRectOp { rect, paint })
        } else {
            None
        }
    }

    /// The rectangle and paint of a filled rectangle with its corner at (x, y),
    /// or `None` when its width or height is not positive. The paint is
    /// resolved over the rectangle itself.
    pub fn fill_rect(&self, x: i32, y: i32, width: i32, height: i32) -> (r: Option<FillRectOp>)
        ensures
            (width <= 0 || height <= 0) ==> r is None,
            (width > 0 && height > 0) ==> (r matches Some(op) && op.rect == (Rectangle {
                x: x as i64,
                y: y as i64,
                width: width as i64,
                height: height as i64,
            }) && resolves_brush(self@.config.fill_style, op.rect, self@.config.alpha, &op.paint)),
    {
        self.fill_rect_frame(
            Rectangle { x: x as i64, y: y as i64, width: width as i64, height: height as i64 },
        )
    }

    /// Adds a rectangle to the path and strokes the path; does nothing when
    /// the width or height is not positive.
    pub fn stroke_rect(&mut self, x: i32, y: i32, width: i32, height: i32) -> (r: Option<StrokeOp>)
        requires
            old(self).wf(),
        ensures
            final(self).wf(),
            (width <= 0 || height <= 0) ==> r is None && final(self)@ == old(self)@,
            (width > 0 && height > 0) ==> {
                &&& final(self)@ == old(self)@.recorded(
                    span_extent(x as int, y as int, width as int, height as int),
                )
                &&& r matches Some(op)
                &&& op.line_width == old(self)@.config.line_width
                &&& resolves_brush(
                    old(self)@.config.stroke_style,
                    widen(
                        old(self)@.bound,
                        span_extent(x as int, y as int, width as int, height as int),
                    )->0,
                    old(self)@.config.alpha,
                    &op.paint,
                )
            },
    {
        if width <= 0 || height <= 0 {
            return None;
        }
        self.rect(x, y, width, height);
        self.stroke()
    }

    /// Gives the surface a new size, with a new buffer all transparent black.
    /// The path and the saved states are kept: callers that want a fresh path
    /// call `begin_path` afterwards. When no buffer of that size can exist,
    /// nothing changes and `false` is returned.
    pub fn resize(&mut self, width: u32, height: u32) -> (ok: bool)
        requires
            old(self).wf(),
        ensures
            final(self).wf(),
            ok == valid_size(width, height),
            ok ==> final(self)@ == (ContextView { width, height, pixels: final(self)@.pixels, ..old(self)@ })
                && all_pixels(final(self)@.pixels, seq![0u8, 0u8, 0u8, 0u8]),
            !ok ==> final(self)@ == old(self)@,
    {
        match new_pixmap(width, height) {
            Some(p) => {
                self.pixmap = p;
                self.width = width;
                self.height = height;
                true
            },
            None => false,
        }
    }

    /// Sets the color that `start` fills the surface with.
    pub fn set_background(&mut self, background: Color)
        requires
            old(self).wf(),
        ensures
            final(self).wf(),
            final(self)@ == (ContextView { background, ..old(self)@ }),
    {
        self.background = background;
    }

    /// Sets the global alpha, a fraction of 255.
    pub fn set_alpha(&mut self, alpha: u8)
        requires
            old(self).wf(),
        ensures
            final(self).wf(),
            final(self)@ == old(self)@.with_config(ConfigView { alpha, ..old(self)@.config }),
    {
        self.config.alpha = alpha;
    }

    /// Sets the font family.
    pub fn set_font_family(&mut self, family: String)
        requires
            old(self).wf(),
        ensures
            final(self).wf(),
            final(self)@ == old(self)@.with_config(
                ConfigView { font_family: family@, ..old(self)@.config },
            ),
    {
        self.config.font_config.family = family;
    }

    /// Sets the font size; four points are added to the size given.
    pub fn set_font_size(&mut self, size: i32)
        requires
            old(self).wf(),
        ensures
            final(self).wf(),
            final(self)@ == old(self)@.with_config(
                ConfigView { font_size: (size + 4) as i64, ..old(self)@.config },
            ),
    {
        self.config.font_config.font_size = size as i64 + 4;
    }

    /// Sets the width of stroked lines.
    pub fn set_line_width(&mut self, line_width: i32)
        requires
            old(self).wf(),
        ensures
            final(self).wf(),
            final(self)@ == old(self)@.with_config(ConfigView { line_width, ..old(self)@.config }),
    {
        self.config.line_width = line_width;
    }

    /// Sets the brush that shapes and text are filled with.
    pub fn set_fill_style(&mut self, fill_style: Brush)
        requires
            old(self).wf(),
        ensures
            final(self).wf(),
            final(self)@ == old(self)@.with_config(
                ConfigView { fill_style: fill_style@, ..old(self)@.config },
            ),
    {
        self.config.fill_style = fill_style;
    }

    /// Sets the brush that paths are stroked with.
    pub fn set_stroke_style(&mut self, stroke_style: Brush)
        requires
            old(self).wf(),
        ensures
            final(self).wf(),
            final(self)@ == old(self)@.with_config(
                ConfigView { stroke_style: stroke_style@, ..old(self)@.config },
            ),
    {
        self.config.stroke_style = stroke_style;
    }

    /// The global alpha in force.
    pub fn alpha(&self) -> (a: u8)
        ensures
            a == self@.config.alpha,
    {
        self.config.alpha
    }

    /// The line width in force.
    pub fn line_width(&self) -> (w: i32)
        ensures
            w == self@.config.line_width,
    {
        self.config.line_width
    }

    /// The number of clips in force.
    pub fn clips_count(&self) -> (n: usize)
        ensures
            n == self@.clips_count,
    {
        self.clips_count
    }

    /// The fill brush in force.
    pub fn fill_style(&self) -> (b: Brush)
        ensures
            b@ == self@.config.fill_style,
    {
        self.config.fill_style.duplicate()
    }

    /// The stroke brush in force.
    pub fn stroke_style(&self) -> (b: Brush)
        ensures
            b@ == self@.config.stroke_style,
    {
        self.config.stroke_style.duplicate()
    }

    /// The width of the surface.
    pub fn width(&self) -> (w: u32)
        ensures
            w == self@.width,
    {
        self.width
    }

    /// The height of the surface.
    pub fn height(&self) -> (h: u32)
        ensures
            h == self@.height,
    {
        self.height
    }

    /// Fills every pixel with the background color, premultiplied. Its alpha
    /// byte lands in every pixel; an opaque background is stored exactly.
    pub fn start(&mut self)
        requires
            old(self).wf(),
        ensures
            final(self).wf(),
            final(self)@ == (ContextView { pixels: final(self)@.pixels, ..old(self)@ }),
            forall|i: int|
                0 <= i < final(self)@.pixels.len() && i % 4 == 3 ==> #[trigger] final(self)@.pixels[i]
                    == old(self)@.background.a,
            old(self)@.background.a == 255 ==> all_pixels(
                final(self)@.pixels,
                backend_channels(old(self)@.background, 255),
            ),
            all_pixels(
                final(self)@.pixels,
                premultiplied_of(backend_channels(old(self)@.background, 255)),
            ),
    {
        let px = to_backend(self.background, 255);
        proof {
            lemma_full_alpha_keeps_alpha(self.background.a);
        }
        fill_pixmap(&mut self.pixmap, px);
    }

    /// Clears the surface with `brush`. A solid color fills every pixel (its
    /// alpha byte lands in every pixel; an opaque color is stored exactly) and
    /// `None` is returned. Any other brush is resolved over the whole surface,
    /// but the surface is to be filled as `fill_rect` does, with the fill
    /// style in force: that rectangle is returned, and the pixels are left for
    /// the rasterizer.
    pub fn clear(&mut self, brush: &Brush) -> (r: Option<FillRectOp>)
        requires
            old(self).wf(),
        ensures
            final(self).wf(),
            final(self)@ == (ContextView { pixels: final(self)@.pixels, ..old(self)@ }),
            brush@ matches BrushView::SolidColor(c) ==> {
                &&& r is None
                &&& forall|i: int|
                    0 <= i < final(self)@.pixels.len() && i % 4 == 3 ==> #[trigger] final(self)@.pixels[i] == c.a
                &&& c.a == 255 ==> all_pixels(final(self)@.pixels, backend_channels(c, 255))
                &&& all_pixels(final(self)@.pixels, premultiplied_of(backend_channels(c, 255)))
            },
            !(brush@ is SolidColor) ==> {
                &&& final(self)@.pixels == old(self)@.pixels
                &&& r matches Some(f)
                &&& f.rect == (Rectangle {
                    x: 0,
                    y: 0,
                    width: old(self)@.width as i64,
                    height: old(self)@.height as i64,
                })
                &&& resolves_brush(old(self)@.config.fill_style, f.rect, old(self)@.config.alpha, &f.paint)
            },
    {
        match brush {
            Brush::SolidColor(c) => {
                let px = to_backend(*c, 255);
                proof {
                    lemma_full_alpha_keeps_alpha(c.a);
                }
                fill_pixmap(&mut self.pixmap, px);
                None
            },
            Brush::Gradient(_) => {
                let surface = Rectangle {
                    x: 0,
                    y: 0,
                    width: self.width as i64,
                    height: self.height as i64,
                };
                let _paint = paint_from_brush(brush, surface, 255);
                self.fill_rect_frame(surface)
            },
        }
    }

    /// The pixel buffer's bytes.
    pub fn data(&self) -> (r: &[u8])
        ensures
            r@ == self@.pixels,
    {
        pixmap_data(&self.pixmap)
    }

    /// The pixmap, for a rasterizer to draw into. Whatever is drawn becomes
    /// the context's pixels and nothing else changes; the context stays well
    /// formed as long as the pixmap keeps its size.
    pub fn pixmap_mut(&mut self) -> (p: &mut Pixmap)
        requires
            old(self).wf(),
        ensures
            pixmap_bytes(*p) == old(self)@.pixels,
            has_size(*p, old(self)@.width, old(self)@.height),
            final(self)@ == (ContextView { pixels: pixmap_bytes(*final(p)), ..old(self)@ }),
            has_size(*final(p), old(self)@.width, old(self)@.height) ==> final(self).wf(),
    {
        &mut self.pixmap
    }

    /// Draws an image of `width` × `height` pixels given as `data` (four bytes
    /// per pixel, rows one after another) with its corner at (x, y), unscaled:
    /// each image pixel is blended over the buffer. Where the image's edges
    /// lie within 2^24 of the origin, so that the rasterizer's `f32` holds them
    /// exactly, pixels outside the image's rectangle stay. Nothing is drawn,
    /// and `false` returned, when the image is empty or too large, its data is
    /// not of that size, or its right or bottom edge lies past `i32::MAX`
    /// (wholly outside any buffer).
    pub fn draw_image(&mut self, width: u32, height: u32, data: &[u8], x: i32, y: i32) -> (drawn: bool)
        requires
            old(self).wf(),
        ensures
            final(self).wf(),
            drawn == image_drawable(width, height, data@, x, y),
            final(self)@ == (ContextView { pixels: final(self)@.pixels, ..old(self)@ }),
            drawn ==> blits(old(self)@, final(self)@.pixels, data@, width, height, x, y),
            !drawn ==> final(self)@ == old(self)@,
    {
        let mut image = match new_pixmap(width, height) {
            Some(p) => p,
            None => return false,
        };
        if data.len() != pixmap_data(&image).len() {
            return false;
        }
        if x as i64 + width as i64 > 0x7FFF_FFFF || y as i64 + height as i64 > 0x7FFF_FFFF {
            return false;
        }
        copy_into_pixmap(&mut image, data);
        draw_pixmap(&mut self.pixmap, x, y, &image);
        true
    }

    /// Draws the pixels of a render target, as `draw_image` does.
    pub fn draw_render_target(&mut self, width: u32, height: u32, data: &[u8], x: i32, y: i32) -> (drawn: bool)
        requires
            old(self).wf(),
        ensures
            final(self).wf(),
            drawn == image_drawable(width, height, data@, x, y),
            final(self)@ == (ContextView { pixels: final(self)@.pixels, ..old(self)@ }),
            drawn ==> blits(old(self)@, final(self)@.pixels, data@, width, height, x, y),
            !drawn ==> final(self)@ == old(self)@,
    {
        self.draw_image(width, height, data, x, y)
    }

    /// Nothing is left to do once a frame is drawn.
    pub fn finish(&mut self)
        ensures
            *final(self) == *old(self),
    {
    }

    fn find_font(&self, family: &String) -> (r: Option<usize>)
        requires
            self.wf(),
        ensures
            r matches Some(i) ==> has_font(self@.fonts, family@, i as int),
            r is None ==> !is_registered(self@.fonts, family@),
    {
        let mut i: usize = 0;
        while i < self.fonts.len()
            invariant
                i <= self.fonts@.len(),
                self@.fonts.len() == self.fonts@.len(),
                self@.fonts == self.fonts@.map_values(|f: FontEntry| (f.family@, f.file@)),
                forall|j: int| 0 <= j < i ==> self@.fonts[j].0 != family@,
            decreases self.fonts@.len() - i,
        {
            if self.fonts[i].family == *family {
                return Some(i);
            }
            i = i + 1;
        }
        None
    }

    /// Registers `font_file` under `family`. A family that is registered
    /// already keeps its first font, and nothing changes. Returns whether the
    /// font was added.
    pub fn register_font(&mut self, family: &str, font_file: &[u8]) -> (added: bool)
        requires
            old(self).wf(),
        ensures
            final(self).wf(),
            added == !is_registered(old(self)@.fonts, family@),
            final(self)@ == register_spec(old(self)@, family@, font_file@),
    {
        let name = family.to_owned();
        if self.find_font(&name).is_some() {
            return false;
        }
        let mut file: Vec<u8> = Vec::new();
        let mut i: usize = 0;
        while i < font_file.len()
            invariant
                i <= font_file@.len(),
                file@ =~= font_file@.subrange(0, i as int),
            decreases font_file@.len() - i,
        {
            file.push(font_file[i]);
            i = i + 1;
        }
        assert(file@ =~= font_file@);
        self.fonts.push(FontEntry { family: name, file });
        proof {
            assert(self@.fonts =~= old(self)@.fonts.push((family@, font_file@)));
            let n = old(self)@.fonts.len() as int;
            assert forall|i: int| 0 <= i < n implies self@.fonts[i].0 != family@ by {
                assert(!has_font(old(self)@.fonts, family@, i));
            }
            assert(self@.fonts[n].0 == family@);
        }
        true
    }

    /// The registered font file of `family`, if any.
    pub fn font_file(&self, family: &str) -> (r: Option<&Vec<u8>>)
        requires
            self.wf(),
        ensures
            r matches Some(f) ==> exists|i: int| has_font(self@.fonts, family@, i) && f@ == self@.fonts[i].1,
            r is None ==> !is_registered(self@.fonts, family@),
    {
        let name = family.to_owned();
        match self.find_font(&name) {
            Some(i) => Some(&self.fonts[i].file),
            None => None,
        }
    }

    /// The font to measure `text` with: `None` for an empty text or when no
    /// font is registered for the family in force (the text then measures
    /// zero).
    pub fn measure_text(&self, text: &str) -> (r: Option<FontChoice>)
        requires
            self.wf(),
        ensures
            text@.len() == 0 ==> r is None,
            text@.len() > 0 && !is_registered(self@.fonts, self@.config.font_family) ==> r is None,
            text@.len() > 0 && is_registered(self@.fonts, self@.config.font_family) ==> (r matches Some(
                c,
            ) && has_font(self@.fonts, self@.config.font_family, c.index as int) && c.font_size
                == self@.config.font_size),
    {
        if text.is_empty() {
            return None;
        }
        match self.find_font(&self.config.font_config.family) {
            Some(i) => Some(FontChoice { index: i, font_size: self.config.font_config.font_size }),
            None => None,
        }
    }

    /// Sets the font family and size in force, then chooses the font to
    /// measure `text` with, as `measure_text` does.
    pub fn measure(&mut self, text: &str, font_size: i32, family: String) -> (r: Option<FontChoice>)
        requires
            old(self).wf(),
        ensures
            final(self).wf(),
            final(self)@ == old(self)@.with_config(
                ConfigView { font_family: family@, font_size: (font_size + 4) as i64, ..old(self)@.config },
            ),
            text@.len() == 0 ==> r is None,
            text@.len() > 0 && !is_registered(old(self)@.fonts, family@) ==> r is None,
            text@.len() > 0 && is_registered(old(self)@.fonts, family@) ==> (r matches Some(c)
                && has_font(old(self)@.fonts, family@, c.index as int) && c.font_size == font_size
                + 4),
    {
        self.set_font_family(family);
        self.set_font_size(font_size);
        self.measure_text(text)
    }

    /// The paint and font to draw `text` with at (x, y), given the text's
    /// measured size: `None` for an empty text or an unregistered family. The
    /// paint is resolved over the text's box.
    pub fn fill_text(&self, text: &str, x: i32, y: i32, metrics: TextMetrics) -> (r: Option<TextOp>)
        requires
            self.wf(),
            metrics.width >= 0,
            metrics.height >= 0,
        ensures
            text@.len() == 0 || !is_registered(self@.fonts, self@.config.font_family) ==> r is None,
            text@.len() > 0 && is_registered(self@.fonts, self@.config.font_family) ==> (r matches Some(
                op,
            ) && has_font(self@.fonts, self@.config.font_family, op.font.index as int)
                && op.font.font_size == self@.config.font_size && resolves_brush(
                self@.config.fill_style,
                Rectangle {
                    x: x as i64,
                    y: y as i64,
                    width: metrics.width as i64,
                    height: metrics.height as i64,
                },
                self@.config.alpha,
                &op.paint,
            )),
    {
        match self.measure_text(text) {
            None => None,
            Some(font) => {
                let frame = Rectangle {
                    x: x as i64,
                    y: y as i64,
                    width: metrics.width as i64,
                    height: metrics.height as i64,
                };
                let paint = paint_from_brush(&self.config.fill_style, frame, self.config.alpha);
                Some(TextOp { paint, font })
            },
        }
    }
}

/// Scaling by a full global alpha keeps an alpha channel as it is.
pub proof fn lemma_full_alpha_keeps_alpha(a: u8)
    ensures
        crate::color::scale_alpha(a, 255) == a,
{
    assert((a as int * 255 + 127) / 255 == a as int) by (nonlinear_arith);
}

/// Right after the path is begun its bound is empty; after one operation it
/// is exactly that operation's extent, so it holds the operation's extent.
pub proof fn lemma_first_operation_bound(v: ContextView, extent: Rectangle)
    requires
        v.bound is None,
    ensures
        v.recorded(extent).bound == Some(extent),
{
}

} // verus!
