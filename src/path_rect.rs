//! The bounding box of the path under construction.
use vstd::prelude::*;
use crate::geometry::{in_limit, Rectangle};

verus! {

/// The smallest rectangle holding both `a` and `b`.
pub open spec fn union_rect(a: Rectangle, b: Rectangle) -> Rectangle {
    let x = if a.x <= b.x { a.x } else { b.x };
    let y = if a.y <= b.y { a.y } else { b.y };
    let right = if a.right() >= b.right() { a.right() } else { b.right() };
    let bottom = if a.bottom() >= b.bottom() { a.bottom() } else { b.bottom() };
    Rectangle { x, y, width: (right - x) as i64, height: (bottom - y) as i64 }
}

/// The bound after widening `bound` to hold `extent`.
pub open spec fn widen(bound: Option<Rectangle>, extent: Rectangle) -> Option<Rectangle> {
    match bound {
        None => Some(extent),
        Some(r) => Some(union_rect(r, extent)),
    }
}

/// The rectangle of zero size at a point.
pub open spec fn point_extent(x: i32, y: i32) -> Rectangle {
    Rectangle { x: x as i64, y: y as i64, width: 0, height: 0 }
}

/// The rectangle spanned by a corner and a size of either sign.
pub open spec fn span_extent(x: int, y: int, width: int, height: int) -> Rectangle {
    Rectangle {
        x: (if width >= 0 { x } else { x + width }) as i64,
        y: (if height >= 0 { y } else { y + height }) as i64,
        width: (if width >= 0 { width } else { -width }) as i64,
        height: (if height >= 0 { height } else { -height }) as i64,
    }
}

/// The square that circumscribes the circle of an arc: the whole circle counts,
/// whatever part of it the arc covers.
pub open spec fn arc_extent(x: i32, y: i32, radius: i32) -> Rectangle {
    span_extent(x - radius, y - radius, 2 * radius, 2 * radius)
}

/// The running bounding box of the points handed to path operations since the
/// path was last begun. Control points of curves count as well.
#[derive(Clone, Copy, Debug, PartialEq, Eq, Structural)]
pub struct PathRect {
    rect: Option<Rectangle>,
}

impl PathRect {
    /// The bound, or `None` while no path operation has been recorded.
    pub closed spec fn bound(self) -> Option<Rectangle> {
        self.rect
    }

    pub open spec fn wf(self) -> bool {
        match self.bound() {
            None => true,
            Some(r) => r.wf(),
        }
    }

    /// Creates a tracker holding `rect` as its bound.
    pub fn new(rect: Option<Rectangle>) -> (p: PathRect)
        requires
            rect matches Some(r) ==> r.wf(),
        ensures
            p.bound() == rect,
            p.wf(),
    {
        PathRect { rect }
    }

    /// The bound, by value.
    pub fn get_rect(&self) -> (r: Option<Rectangle>)
        ensures
            r == self.bound(),
    {
        self.rect
    }

    /// Forgets every recorded operation.
    pub fn rebirth(&mut self)
        ensures
            final(self).bound() is None,
            final(self).wf(),
    {
        self.rect = None;
    }

    fn record_extent(&mut self, extent: Rectangle)
        requires
            old(self).wf(),
            extent.wf(),
        ensures
            final(self).bound() == widen(old(self).bound(), extent),
            final(self).wf(),
    {
        match self.rect {
            None => {
                self.rect = Some(extent);
            },
            Some(r) => {
                let x = if r.x <= extent.x { r.x } else { extent.x };
                let y = if r.y <= extent.y { r.y } else { extent.y };
                let right = if r.x + r.width >= extent.x + extent.width {
                    r.x + r.width
                } else {
                    extent.x + extent.width
                };
                let bottom = if r.y + r.height >= extent.y + extent.height {
                    r.y + r.height
                } else {
                    extent.y + extent.height
                };
                self.rect = Some(Rectangle { x, y, width: right - x, height: bottom - y });
            },
        }
    }

    fn record_point_at(&mut self, x: i32, y: i32)
        requires
            old(self).wf(),
        ensures
            final(self).bound() == widen(old(self).bound(), point_extent(x, y)),
            final(self).wf(),
    {
        self.record_extent(Rectangle { x: x as i64, y: y as i64, width: 0, height: 0 });
    }

    fn record_span(&mut self, x: i64, y: i64, width: i64, height: i64)
        requires
            old(self).wf(),
            in_limit(x as int),
            in_limit(y as int),
            in_limit(x + width),
            in_limit(y + height),
        ensures
            final(self).bound() == widen(
                old(self).bound(),
                span_extent(x as int, y as int, width as int, height as int),
            ),
            final(self).wf(),
    {
        let ex = if width >= 0 { x } else { x + width };
        let ey = if height >= 0 { y } else { y + height };
        let ew = if width >= 0 { width } else { -width };
        let eh = if height >= 0 { height } else { -height };
        self.record_extent(Rectangle { x: ex, y: ey, width: ew, height: eh });
    }

    /// Records the start of a sub-path at (x, y).
    pub fn record_move_to(&mut self, x: i32, y: i32)
        requires
            old(self).wf(),
        ensures
            final(self).bound() == widen(old(self).bound(), point_extent(x, y)),
            final(self).wf(),
    {
        self.record_point_at(x, y);
    }

    /// Records a line to (x, y).
    pub fn record_line_to(&mut self, x: i32, y: i32)
        requires
            old(self).wf(),
        ensures
            final(self).bound() == widen(old(self).bound(), point_extent(x, y)),
            final(self).wf(),
    {
        self.record_point_at(x, y);
    }

    /// Records a cubic curve: both control points and the end point.
    pub fn record_bezier_curve_to(
        &mut self,
        cp1x: i32,
        cp1y: i32,
        cp2x: i32,
        cp2y: i32,
        x: i32,
        y: i32,
    )
        requires
            old(self).wf(),
        ensures
            final(self).bound() == widen(
                widen(widen(old(self).bound(), point_extent(cp1x, cp1y)), point_extent(cp2x, cp2y)),
                point_extent(x, y),
            ),
            final(self).wf(),
    {
        self.record_point_at(cp1x, cp1y);
        self.record_point_at(cp2x, cp2y);
        self.record_point_at(x, y);
    }

    /// Records a quadratic curve: its control point and the end point.
    pub fn record_quadratic_curve_to(&mut self, cpx: i32, cpy: i32, x: i32, y: i32)
        requires
            old(self).wf(),
        ensures
            final(self).bound() == widen(
                widen(old(self).bound(), point_extent(cpx, cpy)),
                point_extent(x, y),
            ),
            final(self).wf(),
    {
        self.record_point_at(cpx, cpy);
        self.record_point_at(x, y);
    }

    /// Records a rectangle with its corner at (x, y).
    pub fn record_rect(&mut self, x: i32, y: i32, width: i32, height: i32)
        requires
            old(self).wf(),
        ensures
            final(self).bound() == widen(
                old(self).bound(),
                span_extent(x as int, y as int, width as int, height as int),
            ),
            final(self).wf(),
    {
        self.record_span(x as i64, y as i64, width as i64, height as i64);
    }

    /// Records an arc of the circle centered at (x, y): the circle's whole
    /// circumscribing square is taken in.
    pub fn record_arc(&mut self, x: i32, y: i32, radius: i32)
        requires
            old(self).wf(),
        ensures
            final(self).bound() == widen(old(self).bound(), arc_extent(x, y, radius)),
            final(self).wf(),
    {
        let r = radius as i64;
        self.record_span(x as i64 - r, y as i64 - r, 2 * r, 2 * r);
    }

    /// Closing a sub-path adds no point: the bound stays as it is.
    pub fn record_path_close(&mut self)
        ensures
            *final(self) == *old(self),
    {
    }

    /// A clip adds no point: the bound stays as it is.
    pub fn record_clip(&mut self)
        ensures
            *final(self) == *old(self),
    {
    }
}

/// A rectangle widened by an extent holds both the rectangle and the extent.
pub proof fn lemma_widen_contains(bound: Option<Rectangle>, extent: Rectangle)
    requires
        extent.wf(),
        bound matches Some(b) ==> b.wf(),
    ensures
        widen(bound, extent) matches Some(r) && r.contains(extent) && (bound matches Some(b)
            ==> r.contains(b)),
{
}

/// The extents that path operations record are well formed, so the laws on
/// recorded extents apply to every sequence of path operations.
pub proof fn lemma_operation_extents_wf(x: i32, y: i32, width: i32, height: i32, radius: i32)
    ensures
        point_extent(x, y).wf(),
        span_extent(x as int, y as int, width as int, height as int).wf(),
        arc_extent(x, y, radius).wf(),
{
}

/// The bound after recording `extents` in order on an empty path.
pub open spec fn bound_of(extents: Seq<Rectangle>) -> Option<Rectangle>
    decreases extents.len(),
{
    if extents.len() == 0 {
        None
    } else {
        widen(bound_of(extents.drop_last()), extents.last())
    }
}

/// The bound of recorded extents is their exact bounding box: it is empty
/// only when nothing was recorded, it holds every extent, and each of its four
/// edges is an edge of some extent.
pub proof fn lemma_bound_is_exact_box(extents: Seq<Rectangle>)
    requires
        forall|i: int| 0 <= i < extents.len() ==> (#[trigger] extents[i]).wf(),
    ensures
        bound_of(extents) is None <==> extents.len() == 0,
        bound_of(extents) matches Some(r) ==> {
            &&& r.wf()
            &&& forall|i: int| 0 <= i < extents.len() ==> r.contains(#[trigger] extents[i])
            &&& exists|i: int| 0 <= i < extents.len() && r.x == (#[trigger] extents[i]).x
            &&& exists|i: int| 0 <= i < extents.len() && r.y == (#[trigger] extents[i]).y
            &&& exists|i: int| 0 <= i < extents.len() && r.right() == (#[trigger] extents[i]).right()
            &&& exists|i: int| 0 <= i < extents.len() && r.bottom() == (#[trigger] extents[i]).bottom()
        },
    decreases extents.len(),
{
    if extents.len() > 0 {
        let prefix = extents.drop_last();
        let n = extents.len() - 1;
        let last = extents.last();
        assert(last == extents[n]);
        assert forall|i: int| 0 <= i < prefix.len() implies (#[trigger] prefix[i]).wf() by {
            assert(prefix[i] == extents[i]);
        }
        lemma_bound_is_exact_box(prefix);
        match bound_of(prefix) {
            None => {
                assert(extents.len() == 1);
            },
            Some(b) => {
                let r = union_rect(b, last);
                assert forall|i: int| 0 <= i < extents.len() implies r.contains(
                    #[trigger] extents[i],
                ) by {
                    if i < n {
                        assert(prefix[i] == extents[i]);
                        assert(b.contains(prefix[i]));
                    }
                }
                if b.x <= last.x {
                    let j = choose|j: int| 0 <= j < prefix.len() && b.x == (#[trigger] prefix[j]).x;
                    assert(prefix[j] == extents[j]);
                } else {
                    assert(r.x == extents[n].x);
                }
                if b.y <= last.y {
                    let j = choose|j: int| 0 <= j < prefix.len() && b.y == (#[trigger] prefix[j]).y;
                    assert(prefix[j] == extents[j]);
                } else {
                    assert(r.y == extents[n].y);
                }
                if b.right() >= last.right() {
                    let j = choose|j: int|
                        0 <= j < prefix.len() && b.right() == (#[trigger] prefix[j]).right();
                    assert(prefix[j] == extents[j]);
                    assert(r.right() == extents[j].right());
                } else {
                    assert(r.right() == extents[n].right());
                }
                if b.bottom() >= last.bottom() {
                    let j = choose|j: int|
                        0 <= j < prefix.len() && b.bottom() == (#[trigger] prefix[j]).bottom();
                    assert(prefix[j] == extents[j]);
                    assert(r.bottom() == extents[j].bottom());
                } else {
                    assert(r.bottom() == extents[n].bottom());
                }
            },
        }
    }
}

} // verus!
