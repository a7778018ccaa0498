use tactics_board::arrow::{
    calc_arrow_path, calc_arrowhead, ArrowResolved, Arrowhead, PathCommand,
};
use tactics_board::field::{setup_field, Circle};
use tactics_board::geometry::{from_meters, radius_from_meters, Point};

fn p(x: i64, y: i64) -> Point {
    Point::new(x, y)
}

#[test]
fn straight_arrow_head_wings() {
    let arrow = ArrowResolved::Straight { from: p(0, 0), to: p(100, 0) };
    let head = calc_arrowhead(&arrow).expect("arrowhead");
    // Direction (-1, 0) turned by +45 and -45 degrees, times 50, rounded toward zero.
    assert_eq!(head.point, p(100, 0));
    assert_eq!(head.right, p(65, -35));
    assert_eq!(head.left, p(65, 35));
}

#[test]
fn straight_arrow_path_has_body_then_wings() {
    let arrow = ArrowResolved::Straight { from: p(0, 0), to: p(100, 0) };
    let path = calc_arrow_path(&arrow);
    assert_eq!(
        path,
        vec![
            PathCommand::MoveTo(p(0, 0)),
            PathCommand::LineTo(p(100, 0)),
            PathCommand::MoveTo(p(100, 0)),
            PathCommand::LineTo(p(65, -35)),
            PathCommand::MoveTo(p(100, 0)),
            PathCommand::LineTo(p(65, 35)),
        ]
    );
}

#[test]
fn coincident_endpoints_omit_arrowhead() {
    let arrow = ArrowResolved::Straight { from: p(5, 5), to: p(5, 5) };
    assert_eq!(calc_arrowhead(&arrow), None);
    let path = calc_arrow_path(&arrow);
    assert_eq!(path, vec![PathCommand::MoveTo(p(0, 0)), PathCommand::LineTo(p(0, 0))]);
    assert_eq!(arrow.get_transform(), p(5, 5));
}

#[test]
fn curve_without_tangent_omits_arrowhead() {
    let arrow = ArrowResolved::Bezier {
        from: p(0, 0),
        to: p(300, 300),
        control_from: p(100, 0),
        control_to: p(300, 300),
    };
    assert_eq!(calc_arrowhead(&arrow), None);
    assert_eq!(calc_arrow_path(&arrow).len(), 2);
}

#[test]
fn curve_head_follows_last_control_point() {
    let arrow = ArrowResolved::Bezier {
        from: p(10, 10),
        to: p(110, 210),
        control_from: p(10, 110),
        control_to: p(110, 110),
    };
    // Tail (110, 110) lies straight below the tip (110, 210): direction (0, -1).
    let head = calc_arrowhead(&arrow).expect("arrowhead");
    assert_eq!(
        head,
        Arrowhead { point: p(110, 210), right: p(145, 175), left: p(75, 175) }
    );
    let path = calc_arrow_path(&arrow);
    assert_eq!(path.len(), 6);
    assert_eq!(path[0], PathCommand::MoveTo(p(0, 0)));
    assert_eq!(
        path[1],
        PathCommand::CubicTo { control_from: p(0, 100), control_to: p(100, 100), to: p(100, 200) }
    );
    assert_eq!(path[2], PathCommand::MoveTo(p(100, 200)));
    assert_eq!(path[3], PathCommand::LineTo(p(135, 165)));
    assert_eq!(path[5], PathCommand::LineTo(p(65, 165)));
}

#[test]
fn diagonal_arrow_head_wings() {
    // Tail to tip (-3, -4) / 5; wings at 50 * (1, -7) / (5 * sqrt 2) and 50 * (-7, -1) / (5 * sqrt 2).
    let arrow = ArrowResolved::Straight { from: p(0, 0), to: p(30, 40) };
    let head = calc_arrowhead(&arrow).expect("arrowhead");
    assert_eq!(head.right, p(30 + 7, 40 - 49));
    assert_eq!(head.left, p(30 - 49, 40 - 7));
}

#[test]
fn localizing_moves_start_to_origin() {
    let arrow = ArrowResolved::Bezier {
        from: p(-500, 250),
        to: p(700, 700),
        control_from: p(0, 0),
        control_to: p(-500, -500),
    };
    let local = arrow.localized();
    assert_eq!(
        local,
        ArrowResolved::Bezier {
            from: p(0, 0),
            to: p(1200, 450),
            control_from: p(500, -250),
            control_to: p(0, -750),
        }
    );
    assert_eq!(arrow.get_transform(), p(-500, 250));
    assert_eq!(local.get_transform(), p(0, 0));
}

#[test]
fn localizing_far_apart_points() {
    let arrow = ArrowResolved::Straight {
        from: p(-2147483647, 2147483647),
        to: p(2147483647, -2147483647),
    };
    let local = arrow.localized();
    assert_eq!(
        local,
        ArrowResolved::Straight { from: p(0, 0), to: p(4294967294, -4294967294) }
    );
    let head = calc_arrowhead(&local).expect("arrowhead");
    assert_eq!(head.right, p(4294967294 - 50, -4294967294));
    assert_eq!(head.left, p(4294967294, -4294967294 + 50));
}

#[test]
fn meters_to_pixels() {
    assert_eq!(from_meters(5, -7), p(500, -700));
    assert_eq!(radius_from_meters(3), 300);
}

#[test]
fn field_markings() {
    let field = setup_field();
    assert_eq!(field.border.len(), 8);
    assert_eq!(field.border[0], p(-1500, -1000));
    assert_eq!(field.border[5], p(2000, 500));
    assert_eq!(field.center_line.len(), 20);
    assert_eq!(field.center_line[0], PathCommand::MoveTo(p(0, -1000)));
    assert_eq!(field.center_line[1], PathCommand::LineTo(p(0, -900)));
    assert_eq!(field.center_line[9], PathCommand::LineTo(p(0, -100)));
    assert_eq!(field.center_line[10], PathCommand::MoveTo(p(0, 100)));
    assert_eq!(field.center_line[19], PathCommand::LineTo(p(0, 1000)));
    assert_eq!(
        field.circles,
        vec![
            Circle { center: p(0, 0), radius: 10 },
            Circle { center: p(-1800, 0), radius: 20 },
            Circle { center: p(1800, 0), radius: 20 },
        ]
    );
}
