//! The drawing configuration and the stack of saved drawing states.
use vstd::prelude::*;
use smallvec::SmallVec;
use crate::paint::{Brush, BrushView};
use crate::path_rect::PathRect;
use crate::geometry::Rectangle;

verus! {

/// The font that text is measured and drawn with.
#[derive(Debug)]
pub struct FontConfig {
    pub family: String,
    pub font_size: i64,
}

/// The configuration that drawing operations read.
#[derive(Debug)]
pub struct RenderConfig {
    pub fill_style: Brush,
    pub stroke_style: Brush,
    pub line_width: i32,
    /// Global alpha, as a fraction of 255.
    pub alpha: u8,
    pub font_config: FontConfig,
}

/// The mathematical value of a configuration.
pub struct ConfigView {
    pub fill_style: BrushView,
    pub stroke_style: BrushView,
    pub line_width: i32,
    pub alpha: u8,
    pub font_family: Seq<char>,
    pub font_size: i64,
}

impl View for RenderConfig {
    type V = ConfigView;

    open spec fn view(&self) -> ConfigView {
        ConfigView {
            fill_style: self.fill_style@,
            stroke_style: self.stroke_style@,
            line_width: self.line_width,
            alpha: self.alpha,
            font_family: self.font_config.family@,
            font_size: self.font_config.font_size,
        }
    }
}

/// The configuration of a new context: transparent brushes, lines one pixel
/// wide, full opacity, and no font family.
pub open spec fn default_config() -> ConfigView {
    ConfigView {
        fill_style: BrushView::SolidColor(crate::color::Color { r: 0, g: 0, b: 0, a: 0 }),
        stroke_style: BrushView::SolidColor(crate::color::Color { r: 0, g: 0, b: 0, a: 0 }),
        line_width: 1,
        alpha: 255,
        font_family: Seq::empty(),
        font_size: 0,
    }
}

impl RenderConfig {
    pub fn new() -> (c: RenderConfig)
        ensures
            c@ == default_config(),
    {
        let c = RenderConfig {
            fill_style: Brush::new(),
            stroke_style: Brush::new(),
            line_width: 1,
            alpha: 255,
            font_config: FontConfig { family: String::new(), font_size: 0 },
        };
        assert(c.font_config.family@ =~= Seq::<char>::empty());
        c
    }

    /// A copy of this configuration.
    pub fn duplicate(&self) -> (c: RenderConfig)
        ensures
            c@ == self@,
    {
        RenderConfig {
            fill_style: self.fill_style.duplicate(),
            stroke_style: self.stroke_style.duplicate(),
            line_width: self.line_width,
            alpha: self.alpha,
            font_config: FontConfig {
                family: self.font_config.family.clone(),
                font_size: self.font_config.font_size,
            },
        }
    }
}

/// What `save` records: the configuration, the path's bound and the number of
/// clips in force.
#[derive(Debug)]
pub struct SavedState {
    pub config: RenderConfig,
    pub path_rect: PathRect,
    pub clips_count: usize,
}

/// The mathematical value of a saved state.
pub struct SnapshotView {
    pub config: ConfigView,
    pub bound: Option<Rectangle>,
    pub clips_count: usize,
}

impl View for SavedState {
    type V = SnapshotView;

    open spec fn view(&self) -> SnapshotView {
        SnapshotView {
            config: self.config@,
            bound: self.path_rect.bound(),
            clips_count: self.clips_count,
        }
    }
}

/// The deepest stack of saved states: 2^48.
pub const MAX_SAVED_STATES: u64 = 0x1_0000_0000_0000;

/// The stack of saved states, kept in a `SmallVec` that holds the first two
/// states inline.
#[verifier::external_body]
pub struct StateStack {
    states: SmallVec<[SavedState; 2]>,
}

/// The saved states on a stack, oldest first.
pub uninterp spec fn stack_items(v: StateStack) -> Seq<SavedState>;

impl StateStack {
    /// Relies on `SmallVec::new`: a new vector holds no item.
    #[verifier::external_body]
    pub(crate) fn new() -> (v: StateStack)
        ensures
            stack_items(v) == Seq::<SavedState>::empty(),
    {
        StateStack { states: SmallVec::new() }
    }

    /// Relies on `SmallVec::len`: the number of items held.
    #[verifier::external_body]
    pub(crate) fn len(&self) -> (n: usize)
        ensures
            n == stack_items(*self).len(),
    {
        self.states.len()
    }

    /// Relies on `SmallVec::push`: the item is appended at the end. Growing
    /// panics when the doubled capacity overflows `usize` or its bytes pass
    /// `isize::MAX`; a saved state takes far fewer than 2^15 bytes, so stacks
    /// shorter than `MAX_SAVED_STATES` stay clear of both.
    #[verifier::external_body]
    pub(crate) fn push(&mut self, s: SavedState)
        requires
            stack_items(*old(self)).len() < MAX_SAVED_STATES,
        ensures
            stack_items(*final(self)) == stack_items(*old(self)).push(s),
    {
        self.states.push(s)
    }

    /// Relies on `SmallVec::pop`: the last item is removed and returned, or
    /// `None` is returned and nothing changes when the vector is empty.
    #[verifier::external_body]
    pub(crate) fn pop(&mut self) -> (r: Option<SavedState>)
        ensures
            stack_items(*old(self)).len() == 0 ==> r is None && stack_items(*final(self))
                == stack_items(*old(self)),
            stack_items(*old(self)).len() > 0 ==> r == Some(stack_items(*old(self)).last())
                && stack_items(*final(self)) == stack_items(*old(self)).drop_last(),
    {
        self.states.pop()
    }
}

} // verus!
