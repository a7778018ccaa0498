//! The field's markings.
use vstd::prelude::*;
use crate::arrow::PathCommand;
use crate::geometry::{Point, from_meters};

verus! {

/// Radius of the center mark: 0.1 m, in pixels.
pub const CENTER_MARK_RADIUS: i64 = 10;
/// Radius of each base: 0.2 m, in pixels.
pub const BASE_RADIUS: i64 = 20;

#[derive(Clone, Copy, Debug, PartialEq, Eq, Structural)]
pub struct Circle {
    pub center: Point,
    pub radius: i64,
}

/// The field's markings, in world pixels.
pub struct FieldShape {
    /// Corners of the closed outline, in order.
    pub border: Vec<Point>,
    /// The dashed center line.
    pub center_line: Vec<PathCommand>,
    /// The center mark and the two bases.
    pub circles: Vec<Circle>,
}

pub open spec fn meters(x: int, y: int) -> Point {
    Point::new_spec(x * 100, y * 100)
}

/// The outline: an octagon 40 m long and 20 m wide with cut corners.
pub open spec fn border_corners() -> Seq<Point> {
    seq![
        meters(-15, -10),
        meters(-20, -5),
        meters(-20, 5),
        meters(-15, 10),
        meters(15, 10),
        meters(20, 5),
        meters(20, -5),
        meters(15, -10),
    ]
}

/// Where dash `k` of the center line starts, in meters along y: five
/// dashes below the middle from -10, five above from 1, each 1 m long with
/// 1 m gaps.
pub open spec fn dash_start(k: int) -> int {
    if k < 5 {
        -10 + 2 * k
    } else {
        1 + 2 * (k - 5)
    }
}

/// The center line: a move to each dash's start, then a line to its end.
pub open spec fn center_dashes() -> Seq<PathCommand> {
    Seq::new(
        20,
        |i: int|
            if i % 2 == 0 {
                PathCommand::MoveTo(meters(0, dash_start(i / 2)))
            } else {
                PathCommand::LineTo(meters(0, dash_start(i / 2) + 1))
            },
    )
}

pub open spec fn field_circles() -> Seq<Circle> {
    seq![
        Circle { center: meters(0, 0), radius: CENTER_MARK_RADIUS },
        Circle { center: meters(-18, 0), radius: BASE_RADIUS },
        Circle { center: meters(18, 0), radius: BASE_RADIUS },
    ]
}

/// Builds the field's markings.
pub fn setup_field() -> (r: FieldShape)
    ensures
        r.border@ == border_corners(),
        r.center_line@ == center_dashes(),
        r.circles@ == field_circles(),
{
    let border = vec![
        from_meters(-15, -10),
        from_meters(-20, -5),
        from_meters(-20, 5),
        from_meters(-15, 10),
        from_meters(15, 10),
        from_meters(20, 5),
        from_meters(20, -5),
        from_meters(15, -10),
    ];
    assert(border@ =~= border_corners());
    let mut center_line: Vec<PathCommand> = Vec::new();
    let mut marker: i32 = -10;
    while marker <= -2
        invariant
            -10 <= marker <= 0,
            marker % 2 == 0,
            center_line@ =~= center_dashes().take(marker + 10),
        decreases 0 - marker,
    {
        center_line.push(PathCommand::MoveTo(from_meters(0, marker)));
        center_line.push(PathCommand::LineTo(from_meters(0, marker + 1)));
        marker = marker + 2;
    }
    marker = 1;
    while marker <= 9
        invariant
            1 <= marker <= 11,
            marker % 2 == 1,
            center_line@ =~= center_dashes().take(marker + 9),
        decreases 11 - marker,
    {
        center_line.push(PathCommand::MoveTo(from_meters(0, marker)));
        center_line.push(PathCommand::LineTo(from_meters(0, marker + 1)));
        marker = marker + 2;
    }
    let circles = vec![
        Circle { center: Point::zero(), radius: CENTER_MARK_RADIUS },
        Circle { center: from_meters(-18, 0), radius: BASE_RADIUS },
        Circle { center: from_meters(18, 0), radius: BASE_RADIUS },
    ];
    assert(circles@ =~= field_circles());
    FieldShape { border, center_line, circles }
}

} // verus!
