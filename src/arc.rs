//! Planning the approximation of a circular arc by cubic Bézier segments.
//!
//! Angles are whole millidegrees. An arc is cut at multiples of a quarter turn:
//! each whole quadrant that it covers becomes one fixed cubic, and the pieces
//! before the first and after the last quadrant boundary become fragments, each
//! one cubic of at most a quarter turn.
use vstd::prelude::*;

verus! {

/// A quarter turn, in millidegrees.
pub const QUARTER_TURN: i64 = 90_000;

/// A full turn, in millidegrees.
pub const FULL_TURN: i64 = 360_000;

/// One step of an arc's path, relative to the arc's center and radius.
#[derive(Clone, Copy, Debug, PartialEq, Eq, Structural)]
pub enum ArcStep {
    /// Draw a straight line back to the center.
    LineToCenter,
    /// Begin a sub-path at the point of the circle at this angle.
    MoveToAngle(i64),
    /// Draw a straight line to the point of the circle at this angle.
    LineToAngle(i64),
    /// One cubic from the circle's point at `from` to its point at `to`,
    /// tangent to the circle at both ends.
    Fragment { from: i64, to: i64 },
    /// The fixed cubic of quadrant `k`, from angle `k` quarter turns to `k + 1`.
    Quadrant(u8),
}

/// A negative angle is taken one full turn further.
pub open spec fn normalize_angle(a: int) -> int {
    if a < 0 {
        FULL_TURN + a
    } else {
        a
    }
}

/// The multiple of a quarter turn nearest to `a` towards zero.
pub open spec fn quarter_floor(a: int) -> int {
    if a >= 0 {
        a - a % (QUARTER_TURN as int)
    } else {
        -((-a) - (-a) % (QUARTER_TURN as int))
    }
}

/// The fixed quadrant cubics, among the first `k` quadrants, that lie within
/// `[s, e]`, in order.
pub open spec fn quadrant_steps(s: int, e: int, k: nat) -> Seq<ArcStep>
    decreases k,
{
    if k == 0 {
        Seq::empty()
    } else {
        let q = (k - 1) as nat;
        let here = if s <= q * QUARTER_TURN && e >= k * QUARTER_TURN {
            seq![ArcStep::Quadrant(q as u8)]
        } else {
            Seq::empty()
        };
        quadrant_steps(s, e, q) + here
    }
}

/// Whether an arc from `s` to `e` (normalized) sweeps less than a full turn,
/// in which case it is drawn as a sector joined to its center.
pub open spec fn is_sector(s: int, e: int) -> bool {
    e - s < FULL_TURN
}

/// The steps that approximate the arc from `start` to `end`.
pub open spec fn arc_plan(start: int, end: int) -> Seq<ArcStep> {
    let s = normalize_angle(start);
    let e = normalize_angle(end);
    let lead = if is_sector(s, e) {
        seq![ArcStep::LineToAngle(s as i64)]
    } else {
        seq![ArcStep::MoveToAngle(s as i64)]
    };
    if e - s < QUARTER_TURN {
        lead + seq![ArcStep::Fragment { from: s as i64, to: e as i64 }, ArcStep::LineToCenter]
    } else {
        let head = if s > 0 && s % (QUARTER_TURN as int) > 0 {
            seq![
                ArcStep::Fragment {
                    from: s as i64,
                    to: (s + QUARTER_TURN - s % (QUARTER_TURN as int)) as i64,
                },
            ]
        } else {
            Seq::empty()
        };
        let tail = if is_sector(s, e) {
            seq![ArcStep::LineToCenter]
        } else {
            Seq::empty()
        };
        lead + head + quadrant_steps(s, e, 4) + seq![
            ArcStep::Fragment { from: quarter_floor(e) as i64, to: e as i64 },
        ] + tail
    }
}

/// An arc that sweeps less than a quarter turn becomes exactly one fragment,
/// drawn as a sector: a line from the current point to the arc's start, the
/// arc, and a line to the center.
pub proof fn lemma_short_arc_single_fragment(start_angle: i32, end_angle: i32)
    requires
        normalize_angle(end_angle as int) - normalize_angle(start_angle as int) < QUARTER_TURN,
    ensures
        ({
            let s = normalize_angle(start_angle as int) as i64;
            let e = normalize_angle(end_angle as int) as i64;
            arc_plan(start_angle as int, end_angle as int) == seq![
                ArcStep::LineToAngle(s),
                ArcStep::Fragment { from: s, to: e },
                ArcStep::LineToCenter,
            ]
        }),
{
    assert(arc_plan(start_angle as int, end_angle as int) =~= seq![
        ArcStep::LineToAngle(normalize_angle(start_angle as int) as i64),
        ArcStep::Fragment {
            from: normalize_angle(start_angle as int) as i64,
            to: normalize_angle(end_angle as int) as i64,
        },
        ArcStep::LineToCenter,
    ]);
}

/// A full circle that starts on angle zero is drawn as the four quadrant
/// cubics in order, followed by the fragment past the last quadrant boundary,
/// and is not joined to its center.
pub proof fn lemma_full_circle_four_quadrants(start_angle: i32, end_angle: i32)
    requires
        normalize_angle(start_angle as int) == 0,
        normalize_angle(end_angle as int) >= FULL_TURN,
    ensures
        ({
            let e = normalize_angle(end_angle as int);
            arc_plan(start_angle as int, end_angle as int) == seq![
                ArcStep::MoveToAngle(0),
                ArcStep::Quadrant(0),
                ArcStep::Quadrant(1),
                ArcStep::Quadrant(2),
                ArcStep::Quadrant(3),
                ArcStep::Fragment { from: quarter_floor(e) as i64, to: e as i64 },
            ]
        }),
{
    let e = normalize_angle(end_angle as int);
    reveal_with_fuel(quadrant_steps, 5);
    assert(quadrant_steps(0, e, 4) =~= seq![
        ArcStep::Quadrant(0),
        ArcStep::Quadrant(1),
        ArcStep::Quadrant(2),
        ArcStep::Quadrant(3),
    ]);
    assert(arc_plan(start_angle as int, end_angle as int) =~= seq![
        ArcStep::MoveToAngle(0),
        ArcStep::Quadrant(0),
        ArcStep::Quadrant(1),
        ArcStep::Quadrant(2),
        ArcStep::Quadrant(3),
        ArcStep::Fragment { from: quarter_floor(e) as i64, to: e as i64 },
    ]);
}

/// An arc ends with a line back to its center exactly when it sweeps less
/// than a full turn.
pub proof fn lemma_sector_closes_to_center(start_angle: i32, end_angle: i32)
    ensures
        (arc_plan(start_angle as int, end_angle as int).last() == ArcStep::LineToCenter)
            == is_sector(normalize_angle(start_angle as int), normalize_angle(end_angle as int)),
{
    let s = normalize_angle(start_angle as int);
    let e = normalize_angle(end_angle as int);
    let plan = arc_plan(start_angle as int, end_angle as int);
    if e - s >= QUARTER_TURN && !is_sector(s, e) {
        let lead = seq![ArcStep::MoveToAngle(s as i64)];
        let head = if s > 0 && s % (QUARTER_TURN as int) > 0 {
            seq![
                ArcStep::Fragment {
                    from: s as i64,
                    to: (s + QUARTER_TURN - s % (QUARTER_TURN as int)) as i64,
                },
            ]
        } else {
            Seq::empty()
        };
        let frag = seq![ArcStep::Fragment { from: quarter_floor(e) as i64, to: e as i64 }];
        assert(plan =~= lead + head + quadrant_steps(s, e, 4) + frag + Seq::empty());
        assert(plan.last() == frag[0]);
    }
}

fn normalized(a: i32) -> (r: i64)
    ensures
        r == normalize_angle(a as int),
{
    if a < 0 {
        FULL_TURN + a as i64
    } else {
        a as i64
    }
}

fn floor_to_quarter(a: i64) -> (r: i64)
    requires
        -0x1_0000_0000 <= a <= 0x1_0000_0000,
    ensures
        r == quarter_floor(a as int),
{
    if a >= 0 {
        let m = ((a as u64) % (QUARTER_TURN as u64)) as i64;
        a - m
    } else {
        let n: i64 = -a;
        let m = ((n as u64) % (QUARTER_TURN as u64)) as i64;
        -(n - m)
    }
}

/// Plans the path of the arc from `start_angle` to `end_angle` (millidegrees),
/// traversed with increasing angle.
pub fn arc_steps(start_angle: i32, end_angle: i32) -> (steps: Vec<ArcStep>)
    ensures
        steps@ == arc_plan(start_angle as int, end_angle as int),
{
    let s = normalized(start_angle);
    let e = normalized(end_angle);
    let sector = e - s < FULL_TURN;
    let mut steps: Vec<ArcStep> = Vec::new();
    if sector {
        steps.push(ArcStep::LineToAngle(s));
    } else {
        steps.push(ArcStep::MoveToAngle(s));
    }
    let ghost lead = steps@;
    if e - s < QUARTER_TURN {
        steps.push(ArcStep::Fragment { from: s, to: e });
        steps.push(ArcStep::LineToCenter);
        assert(steps@ =~= arc_plan(start_angle as int, end_angle as int));
        return steps;
    }
    if s > 0 {
        let m = ((s as u64) % (QUARTER_TURN as u64)) as i64;
        if m > 0 {
            steps.push(ArcStep::Fragment { from: s, to: s + QUARTER_TURN - m });
        }
    }
    let ghost head = steps@;
    let mut k: u8 = 0;
    while k < 4
        invariant
            0 <= k <= 4,
            steps@ =~= head + quadrant_steps(s as int, e as int, k as nat),
        decreases 4 - k,
    {
        let lo: i64 = k as i64 * QUARTER_TURN;
        if s <= lo && e >= lo + QUARTER_TURN {
            steps.push(ArcStep::Quadrant(k));
        }
        k = k + 1;
    }
    let last_from = floor_to_quarter(e);
    steps.push(ArcStep::Fragment { from: last_from, to: e });
    if sector {
        steps.push(ArcStep::LineToCenter);
    }
    assert(steps@ =~= arc_plan(start_angle as int, end_angle as int));
    steps
}

} // verus!
