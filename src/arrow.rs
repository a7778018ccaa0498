//! Arrow geometry: localizing a resolved arrow, its arrowhead, and the
//! drawable path built from both. All in integer pixels; the arrowhead's
//! unit vectors are rounded toward zero.
use vstd::prelude::*;
use crate::geometry::{Point, within, ARROWHEAD_HALF_WIDTH, WORLD_LIMIT};

verus! {

/// Largest magnitude of a coordinate of a localized arrow (twice the world limit).
pub const SPAN_LIMIT: i64 = 4294967294;

/// An arrow whose control-point references have been replaced by points.
#[derive(Clone, Copy, Debug, PartialEq, Eq, Structural)]
pub enum ArrowResolved {
    Straight { from: Point, to: Point },
    Bezier { from: Point, to: Point, control_from: Point, control_to: Point },
}

/// One step of a drawable path.
#[derive(Clone, Copy, Debug, PartialEq, Eq, Structural)]
pub enum PathCommand {
    MoveTo(Point),
    LineTo(Point),
    CubicTo { control_from: Point, control_to: Point, to: Point },
}

/// The two wings of an arrowhead, and its tip.
#[derive(Clone, Copy, Debug, PartialEq, Eq, Structural)]
pub struct Arrowhead {
    pub left: Point,
    pub right: Point,
    pub point: Point,
}

pub open spec fn start(a: ArrowResolved) -> Point {
    match a {
        ArrowResolved::Straight { from, .. } => from,
        ArrowResolved::Bezier { from, .. } => from,
    }
}

/// Every point of the arrow lies within `lim`.
pub open spec fn arrow_within(a: ArrowResolved, lim: int) -> bool {
    match a {
        ArrowResolved::Straight { from, to } => within(from, lim) && within(to, lim),
        ArrowResolved::Bezier { from, to, control_from, control_to } => {
            &&& within(from, lim)
            &&& within(to, lim)
            &&& within(control_from, lim)
            &&& within(control_to, lim)
        },
    }
}

pub open spec fn arrow_in_world(a: ArrowResolved) -> bool {
    arrow_within(a, WORLD_LIMIT as int)
}

pub open spec fn offset(p: Point, by: Point) -> Point {
    Point { x: (p.x + by.x) as i64, y: (p.y + by.y) as i64 }
}

pub open spec fn less(p: Point, by: Point) -> Point {
    Point { x: (p.x - by.x) as i64, y: (p.y - by.y) as i64 }
}

/// Every point of the arrow moved by `by`.
pub open spec fn translated(a: ArrowResolved, by: Point) -> ArrowResolved {
    match a {
        ArrowResolved::Straight { from, to } => ArrowResolved::Straight {
            from: offset(from, by),
            to: offset(to, by),
        },
        ArrowResolved::Bezier { from, to, control_from, control_to } => ArrowResolved::Bezier {
            from: offset(from, by),
            to: offset(to, by),
            control_from: offset(control_from, by),
            control_to: offset(control_to, by),
        },
    }
}

/// The arrow expressed relative to its own start.
pub open spec fn localized_of(a: ArrowResolved) -> ArrowResolved {
    match a {
        ArrowResolved::Straight { from, to } => ArrowResolved::Straight {
            from: Point { x: 0, y: 0 },
            to: less(to, from),
        },
        ArrowResolved::Bezier { from, to, control_from, control_to } => ArrowResolved::Bezier {
            from: Point { x: 0, y: 0 },
            to: less(to, from),
            control_from: less(control_from, from),
            control_to: less(control_to, from),
        },
    }
}

/// The arrowhead's tail and tip: the tangent at the end of the arrow is
/// taken from the last control point of a curve.
pub open spec fn head_tail(a: ArrowResolved) -> (Point, Point) {
    match a {
        ArrowResolved::Straight { from, to } => (from, to),
        ArrowResolved::Bezier { to, control_to, .. } => (control_to, to),
    }
}

pub open spec fn abs_int(v: int) -> int {
    if v < 0 {
        -v
    } else {
        v
    }
}

/// `w` is `n / sqrt(s)` rounded toward zero.
pub open spec fn is_root_quotient(w: int, n: int, s: int) -> bool {
    &&& w * n >= 0
    &&& w * w * s <= n * n
    &&& (abs_int(w) + 1) * (abs_int(w) + 1) * s > n * n
}

/// `n / sqrt(s)` rounded toward zero (for `s > 0`).
pub open spec fn root_quotient(n: int, s: int) -> int {
    choose|w: int| is_root_quotient(w, n, s)
}

/// A wing end: the tip plus the half-width times `(cx, cy) / sqrt(s)`, where
/// `(cx, cy) / sqrt(s)` is the unit tail direction rotated by 45 degrees.
pub open spec fn wing(tip: Point, cx: int, cy: int, s: int) -> Point {
    Point {
        x: (tip.x + root_quotient(ARROWHEAD_HALF_WIDTH * cx, s)) as i64,
        y: (tip.y + root_quotient(ARROWHEAD_HALF_WIDTH * cy, s)) as i64,
    }
}

/// The arrowhead of an arrow: none where tail and tip coincide; else two
/// wings, the unit vector from tip to tail turned by +45 degrees (right)
/// and -45 degrees (left), scaled by the half-width and put at the tip.
pub open spec fn arrowhead_of(a: ArrowResolved) -> Option<Arrowhead> {
    let (tail, tip) = head_tail(a);
    let dx = tail.x - tip.x;
    let dy = tail.y - tip.y;
    let s = 2 * (dx * dx + dy * dy);
    if tail == tip {
        None
    } else {
        Some(
            Arrowhead {
                right: wing(tip, dx - dy, dx + dy, s),
                left: wing(tip, dx + dy, dy - dx, s),
                point: tip,
            },
        )
    }
}

pub open spec fn body_commands(a: ArrowResolved) -> Seq<PathCommand> {
    match a {
        ArrowResolved::Straight { from, to } => seq![PathCommand::MoveTo(from), PathCommand::LineTo(to)],
        ArrowResolved::Bezier { from, to, control_from, control_to } => seq![
            PathCommand::MoveTo(from),
            PathCommand::CubicTo { control_from, control_to, to },
        ],
    }
}

pub open spec fn head_commands(h: Option<Arrowhead>) -> Seq<PathCommand> {
    match h {
        None => seq![],
        Some(h) => seq![
            PathCommand::MoveTo(h.point),
            PathCommand::LineTo(h.right),
            PathCommand::MoveTo(h.point),
            PathCommand::LineTo(h.left),
        ],
    }
}

/// The drawable path of an arrow, relative to the arrow's start: the body,
/// then the arrowhead if there is one.
pub open spec fn path_of(a: ArrowResolved) -> Seq<PathCommand> {
    let l = localized_of(a);
    body_commands(l) + head_commands(arrowhead_of(l))
}

/// At most one integer is `n / sqrt(s)` rounded toward zero.
pub proof fn lemma_root_quotient_unique(w1: int, w2: int, n: int, s: int)
    requires
        s > 0,
        is_root_quotient(w1, n, s),
        is_root_quotient(w2, n, s),
    ensures
        w1 == w2,
{
    let a = abs_int(w1);
    let b = abs_int(w2);
    assert(a * a == w1 * w1) by (nonlinear_arith)
        requires a == abs_int(w1);
    assert(b * b == w2 * w2) by (nonlinear_arith)
        requires b == abs_int(w2);
    if a < b {
        assert((a + 1) * (a + 1) * s <= b * b * s) by (nonlinear_arith)
            requires 0 <= a < b, s > 0;
    }
    if b < a {
        assert((b + 1) * (b + 1) * s <= a * a * s) by (nonlinear_arith)
            requires 0 <= b < a, s > 0;
    }
    assert(a == b);
    if n == 0 {
        assert(w1 == 0) by (nonlinear_arith)
            requires w1 * w1 * s <= n * n, n == 0, s > 0;
        assert(w2 == 0) by (nonlinear_arith)
            requires w2 * w2 * s <= n * n, n == 0, s > 0;
    } else if n > 0 {
        assert(w1 >= 0) by (nonlinear_arith)
            requires w1 * n >= 0, n > 0;
        assert(w2 >= 0) by (nonlinear_arith)
            requires w2 * n >= 0, n > 0;
    } else {
        assert(w1 <= 0) by (nonlinear_arith)
            requires w1 * n >= 0, n < 0;
        assert(w2 <= 0) by (nonlinear_arith)
            requires w2 * n >= 0, n < 0;
    }
}

/// Whether `(k + 1)^2 * s <= nn`.
fn next_root_fits(k: u128, s: u128, nn: u128) -> (r: bool)
    requires
        k <= 50,
        s <= 0x1_0000_0000_0000_0000_0000,
    ensures
        r == ((k + 1) * (k + 1) * s <= nn),
{
    assert((k + 1) * (k + 1) <= 2601) by (nonlinear_arith)
        requires k <= 50;
    assert((k + 1) * (k + 1) * s <= 2601 * 0x1_0000_0000_0000_0000_0000) by (nonlinear_arith)
        requires (k + 1) * (k + 1) <= 2601, s <= 0x1_0000_0000_0000_0000_0000;
    (k + 1) * (k + 1) * s <= nn
}

/// `ARROWHEAD_HALF_WIDTH * c / sqrt(s)`, rounded toward zero.
fn wing_offset(c: i64, s: u128) -> (w: i64)
    requires
        s > 0,
        c * c <= s,
        s <= 0x1_0000_0000_0000_0000_0000,
        -0x10_0000_0000 <= c <= 0x10_0000_0000,
    ensures
        w == root_quotient(ARROWHEAD_HALF_WIDTH * c, s as int),
        -ARROWHEAD_HALF_WIDTH <= w <= ARROWHEAD_HALF_WIDTH,
{
    let m: u128 = if c < 0 { (-c) as u128 } else { c as u128 };
    let n: u128 = 50 * m;
    assert(m * m == c * c) by (nonlinear_arith)
        requires m == abs_int(c as int);
    assert(n * n <= 2500 * s) by (nonlinear_arith)
        requires n == 50 * m, m * m == c * c, c * c <= s;
    let nn: u128 = n * n;
    let mut k: u128 = 0;
    assert(k * k * s <= nn) by (nonlinear_arith)
        requires k == 0, nn >= 0;
    while next_root_fits(k, s, nn)
        invariant
            s > 0,
            s <= 0x1_0000_0000_0000_0000_0000,
            nn == n * n,
            nn <= 2500 * s,
            k <= 50,
            k * k * s <= nn,
        decreases 50 - k,
    {
        assert((k + 1) * (k + 1) <= 2500) by (nonlinear_arith)
            requires (k + 1) * (k + 1) * s <= nn, nn <= 2500 * s, s > 0;
        assert(k + 1 <= 50) by (nonlinear_arith)
            requires (k + 1) * (k + 1) <= 2500, k >= 0;
        k = k + 1;
    }
    let w: i64 = if c < 0 { -(k as i64) } else { k as i64 };
    proof {
        let nc = ARROWHEAD_HALF_WIDTH * c;
        assert(nc * nc == n * n) by (nonlinear_arith)
            requires nc == 50 * c, n == 50 * m, m * m == c * c;
        assert(abs_int(w as int) == k);
        assert(w * w == k * k) by (nonlinear_arith)
            requires abs_int(w as int) == k;
        assert(w * nc >= 0) by (nonlinear_arith)
            requires nc == 50 * c, (c < 0 ==> w <= 0), (c >= 0 ==> w >= 0);
        assert(is_root_quotient(w as int, nc, s as int));
        lemma_root_quotient_unique(w as int, root_quotient(nc, s as int), nc, s as int);
    }
    w
}

impl ArrowResolved {
    /// The arrow moved so that it starts at the origin.
    pub fn localized(&self) -> (r: ArrowResolved)
        requires
            arrow_in_world(*self),
        ensures
            r == localized_of(*self),
            arrow_within(r, SPAN_LIMIT as int),
    {
        match *self {
            ArrowResolved::Straight { from, to } => ArrowResolved::Straight {
                from: Point::zero(),
                to: to.minus(&from),
            },
            ArrowResolved::Bezier { from, to, control_from, control_to } => ArrowResolved::Bezier {
                from: Point::zero(),
                to: to.minus(&from),
                control_from: control_from.minus(&from),
                control_to: control_to.minus(&from),
            },
        }
    }

    /// Where the drawable is placed: the arrow's start.
    pub fn get_transform(&self) -> (r: Point)
        ensures
            r == start(*self),
    {
        match *self {
            ArrowResolved::Straight { from, .. } => from,
            ArrowResolved::Bezier { from, .. } => from,
        }
    }
}

/// The arrowhead of an arrow, or `None` where tail and tip coincide.
pub fn calc_arrowhead(arrow: &ArrowResolved) -> (r: Option<Arrowhead>)
    requires
        arrow_within(*arrow, SPAN_LIMIT as int),
    ensures
        r == arrowhead_of(*arrow),
{
    let (tail, tip) = match *arrow {
        ArrowResolved::Straight { from, to } => (from, to),
        ArrowResolved::Bezier { to, control_to, .. } => (control_to, to),
    };
    if tail == tip {
        return None;
    }
    let dx: i64 = tail.x - tip.x;
    let dy: i64 = tail.y - tip.y;
    let ax: u128 = if dx < 0 { (-dx) as u128 } else { dx as u128 };
    let ay: u128 = if dy < 0 { (-dy) as u128 } else { dy as u128 };
    assert(ax * ax == dx * dx && ay * ay == dy * dy) by (nonlinear_arith)
        requires ax == abs_int(dx as int), ay == abs_int(dy as int);
    assert(ax * ax <= 0x4_0000_0000_0000_0000 && ay * ay <= 0x4_0000_0000_0000_0000)
        by (nonlinear_arith)
        requires ax <= 0x2_0000_0000, ay <= 0x2_0000_0000;
    let s: u128 = 2 * (ax * ax + ay * ay);
    assert(s > 0) by (nonlinear_arith)
        requires s == 2 * (ax * ax + ay * ay), ax > 0 || ay > 0;
    assert((dx - dy) * (dx - dy) <= s && (dx + dy) * (dx + dy) <= s && (dy - dx) * (dy - dx) <= s)
        by (nonlinear_arith)
        requires s == 2 * (dx * dx + dy * dy);
    let right = Point {
        x: tip.x + wing_offset(dx - dy, s),
        y: tip.y + wing_offset(dx + dy, s),
    };
    let left = Point {
        x: tip.x + wing_offset(dx + dy, s),
        y: tip.y + wing_offset(dy - dx, s),
    };
    Some(Arrowhead { left, right, point: tip })
}

/// The drawable path of an arrow, relative to its start: a line or a
/// cubic curve, then the arrowhead's two wings when it has one.
pub fn calc_arrow_path(arrow: &ArrowResolved) -> (r: Vec<PathCommand>)
    requires
        arrow_in_world(*arrow),
    ensures
        r@ == path_of(*arrow),
{
    let local = arrow.localized();
    let mut path: Vec<PathCommand> = Vec::new();
    match local {
        ArrowResolved::Straight { from, to } => {
            path.push(PathCommand::MoveTo(from));
            path.push(PathCommand::LineTo(to));
        },
        ArrowResolved::Bezier { from, to, control_from, control_to } => {
            path.push(PathCommand::MoveTo(from));
            path.push(PathCommand::CubicTo { control_from, control_to, to });
        },
    }
    if let Some(head) = calc_arrowhead(&local) {
        path.push(PathCommand::MoveTo(head.point));
        path.push(PathCommand::LineTo(head.right));
        path.push(PathCommand::MoveTo(head.point));
        path.push(PathCommand::LineTo(head.left));
    }
    assert(path@ =~= path_of(*arrow));
    path
}

/// Localizing an arrow puts its start at the origin, and placing the
/// localized arrow at the original start gives back the original arrow.
pub proof fn lemma_localized_placement(a: ArrowResolved)
    requires
        arrow_in_world(a),
    ensures
        start(localized_of(a)) == Point::new_spec(0, 0),
        translated(localized_of(a), start(a)) == a,
{
}

/// The arrowhead is left out exactly when the vector from tip to tail has
/// zero length; the body is drawn either way.
pub proof fn lemma_arrowhead_omitted_iff_degenerate(a: ArrowResolved)
    requires
        arrow_in_world(a),
    ensures
        arrowhead_of(localized_of(a)) is None <==> (head_tail(a).0.x - head_tail(a).1.x == 0
            && head_tail(a).0.y - head_tail(a).1.y == 0),
        path_of(a).subrange(0, 2) == body_commands(localized_of(a)),
        arrowhead_of(localized_of(a)) is None ==> path_of(a).len() == 2,
        arrowhead_of(localized_of(a)) is Some ==> path_of(a).len() == 6,
{
    let l = localized_of(a);
    assert(path_of(a).subrange(0, 2) =~= body_commands(l));
}

} // verus!
