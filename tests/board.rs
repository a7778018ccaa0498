use tactics_board::arena::{Arena, EntityId};
use tactics_board::arrow::{ArrowResolved, PathCommand};
use tactics_board::board::{
    default_roster, Arrow, ArrowSpawnData, Board, SpawnData,
};
use tactics_board::control_point::{
    AttachableControlPoint, ControlPoint, ControlPointLocation, ControlPointRef,
    FloatingControlPoint,
};
use tactics_board::geometry::Point;
use tactics_board::handlers::build_attachments;
use tactics_board::input::{Attachment, Handler, InputMode};
use tactics_board::unit::{Color, PlayerUnitType, StartPosition, Team, Unit, UnitState, UnitType};

fn p(x: i64, y: i64) -> Point {
    Point::new(x, y)
}

fn position(board: &Board, id: EntityId) -> Point {
    board.units.get(id).expect("unit").position
}

fn fixed(x: i64, y: i64) -> AttachableControlPoint {
    AttachableControlPoint { location: ControlPointLocation::Fixed(p(x, y)) }
}

fn left_shield() -> SpawnData {
    SpawnData::Player(UnitType::Player(PlayerUnitType::Shield), Team::Left, StartPosition::One)
}

#[test]
fn drag_moves_unit_scaled_by_zoom() {
    let mut board = Board::new();
    let u = board.spawn_unit(SpawnData::Jugg);
    assert_eq!(position(&board, u), p(0, 0));
    board.zoom.current_zoom_factor = 2000;
    assert_eq!(board.mode, InputMode::Position);
    board.on_drag(u, 10, -10);
    assert_eq!(position(&board, u), p(20, 20));
}

#[test]
fn drag_rounds_toward_zero() {
    let mut board = Board::new();
    let u = board.spawn_unit(SpawnData::Jugg);
    // Default factor 4.5.
    board.on_drag(u, 1, 1);
    assert_eq!(position(&board, u), p(4, -4));
    board.on_drag(u, -3, 3);
    assert_eq!(position(&board, u), p(4 - 13, -4 - 13));
}

#[test]
fn drag_does_not_move_outside_position_mode() {
    let mut board = Board::new();
    let u = board.spawn_unit(SpawnData::Jugg);
    assert!(board.set_input_mode(InputMode::View).is_some());
    board.on_drag(u, 10, 10);
    assert_eq!(position(&board, u), p(0, 0));
    assert!(board.set_input_mode(InputMode::Movement).is_some());
    board.on_drag(u, 10, 10);
    assert_eq!(position(&board, u), p(0, 0));
}

#[test]
fn drag_keeps_unit_in_world() {
    let mut board = Board::new();
    let u = board.spawn_unit(SpawnData::Jugg);
    for _ in 0..3 {
        board.on_drag(u, i32::MAX, i32::MIN);
    }
    assert_eq!(position(&board, u), p(2147483647, 2147483647));
}

#[test]
fn attached_control_point_follows_unit() {
    let mut board = Board::new();
    let u = board.spawn_unit(left_shield());
    let start = position(&board, u);
    assert_eq!(start, p(-2100, 400));
    let arrow = board.spawn_arrow(ArrowSpawnData::Straight {
        from: AttachableControlPoint::from_entity(u),
        to: fixed(0, 0),
    });
    let Arrow::Straight { from, to } = board.arrows.get(arrow).unwrap().arrow else {
        panic!("straight arrow expected")
    };
    let cp = board.control_points.get(from.0).unwrap();
    assert_eq!(cp.position, start);
    assert!(!cp.visible);
    assert!(board.control_points.get(to.0).unwrap().visible);

    board.zoom.current_zoom_factor = 1000;
    board.on_drag(u, 100, 0);
    assert!(!board.tick().stale_selection);
    let moved = p(-2000, 400);
    assert_eq!(position(&board, u), moved);
    assert_eq!(board.control_points.get(from.0).unwrap().position, moved);
    let e = board.arrows.get(arrow).unwrap();
    assert_eq!(e.resolved, Some(ArrowResolved::Straight { from: moved, to: p(0, 0) }));
    assert_eq!(e.transform, moved);
    assert_eq!(e.path[0], PathCommand::MoveTo(p(0, 0)));
    assert_eq!(e.path[1], PathCommand::LineTo(p(2000, -400)));
}

#[test]
fn attached_control_point_without_unit_falls_back_to_origin() {
    let mut board = Board::new();
    let u = board.spawn_unit(SpawnData::Jugg);
    board.on_drag(u, 100, 100);
    let cp = board.spawn_control_point(ControlPoint::Attachable(ControlPointLocation::Attached(u)));
    assert_ne!(board.control_points.get(cp.0).unwrap().position, p(0, 0));
    assert!(board.despawn_unit(u).is_some());
    let report = board.tick();
    assert_eq!(report.dangling_control_points, vec![cp]);
    let e = board.control_points.get(cp.0).unwrap();
    assert_eq!(e.position, p(0, 0));
    assert!(!e.visible);
    assert!(e.dangling);
    // Reported once, not on every tick after.
    assert!(board.tick().dangling_control_points.is_empty());
}

#[test]
fn arrow_with_missing_control_point_is_skipped() {
    let mut board = Board::new();
    let arrow = board.spawn_arrow(ArrowSpawnData::Straight { from: fixed(0, 0), to: fixed(100, 0) });
    board.tick();
    let Arrow::Straight { to, .. } = board.arrows.get(arrow).unwrap().arrow else {
        panic!("straight arrow expected")
    };
    let before = board.arrows.get(arrow).unwrap().resolved;
    assert!(before.is_some());
    assert!(board.despawn_control_point(to).is_some());
    let report = board.tick();
    assert_eq!(report.unresolved_arrows, vec![arrow]);
    let e = board.arrows.get(arrow).unwrap();
    assert_eq!(e.resolved, before);
    assert_eq!(e.path.len(), 6);
    assert!(e.unresolved);
    assert!(board.tick().unresolved_arrows.is_empty());
}

#[test]
fn arrow_is_built_on_first_tick_and_kept_when_unchanged() {
    let mut board = Board::new();
    let arrow = board.spawn_arrow(ArrowSpawnData::Bezier {
        from: fixed(0, 0),
        to: fixed(300, 0),
        control_from: FloatingControlPoint { location: p(100, 100) },
        control_to: FloatingControlPoint { location: p(200, 100) },
    });
    assert_eq!(board.arrows.get(arrow).unwrap().resolved, None);
    assert!(board.arrows.get(arrow).unwrap().path.is_empty());
    board.tick();
    let first = board.arrows.get(arrow).unwrap().path.clone();
    assert_eq!(first.len(), 6);
    assert_eq!(
        first[1],
        PathCommand::CubicTo { control_from: p(100, 100), control_to: p(200, 100), to: p(300, 0) }
    );
    board.tick();
    assert_eq!(board.arrows.get(arrow).unwrap().path, first);
}

#[test]
fn grabbing_selects_only_last_unit() {
    let mut board = Board::new();
    let a = board.spawn_unit(SpawnData::Jugg);
    let b = board.spawn_unit(left_shield());
    board.on_pointer_down(a);
    board.tick();
    assert!(board.units.get(a).unwrap().selected);
    assert!(!board.units.get(b).unwrap().selected);
    board.on_pointer_down(b);
    board.tick();
    let ua = board.units.get(a).unwrap();
    let ub = board.units.get(b).unwrap();
    assert!(!ua.selected);
    assert_eq!(ua.fill, Color::LightGray);
    assert_eq!(ua.outline, None);
    assert!(ub.selected);
    assert_eq!(ub.fill, Color::Red);
    assert_eq!(ub.outline, Some(Color::White));
    assert_eq!(
        board.selected_unit(),
        Some(Unit::Player {
            team: Team::Left,
            unit_type: UnitType::Player(PlayerUnitType::Shield),
            state: UnitState::Active,
        })
    );
}

#[test]
fn grabbing_selects_in_every_mode() {
    let mut board = Board::new();
    let a = board.spawn_unit(SpawnData::Jugg);
    board.set_input_mode(InputMode::View);
    board.on_pointer_down(a);
    board.tick();
    assert!(board.units.get(a).unwrap().selected);
    assert_eq!(board.units.get(a).unwrap().outline, Some(Color::Black));
}

#[test]
fn grabbing_a_non_unit_keeps_selection() {
    let mut board = Board::new();
    let a = board.spawn_unit(SpawnData::Jugg);
    board.on_pointer_down(a);
    board.on_pointer_down(EntityId { index: 7, generation: 0 });
    assert_eq!(board.registry.selected, Some(a));
}

#[test]
fn stale_selection_marks_nothing() {
    let mut board = Board::new();
    let a = board.spawn_unit(SpawnData::Jugg);
    let b = board.spawn_unit(left_shield());
    board.on_pointer_down(a);
    assert!(!board.tick().stale_selection);
    board.despawn_unit(a);
    assert!(board.tick().stale_selection);
    assert!(board.tick().stale_selection);
    assert_eq!(board.registry.selected, Some(a));
    assert!(!board.units.get(b).unwrap().selected);
    assert_eq!(board.selected_unit(), None);
}

#[test]
fn switching_mode_swaps_handlers() {
    let mut board = Board::new();
    let a = board.spawn_unit(SpawnData::Jugg);
    let b = board.spawn_unit(left_shield());
    let sw = board.set_input_mode(InputMode::Movement).expect("mode changes");
    assert_eq!(
        sw.detached,
        vec![
            Attachment { unit: a, handler: Handler::GrabSelects },
            Attachment { unit: a, handler: Handler::DragMoves },
            Attachment { unit: b, handler: Handler::GrabSelects },
            Attachment { unit: b, handler: Handler::DragMoves },
        ]
    );
    assert_eq!(
        sw.attached,
        vec![
            Attachment { unit: a, handler: Handler::GrabSelects },
            Attachment { unit: a, handler: Handler::DragEndDrawsArrow },
            Attachment { unit: b, handler: Handler::GrabSelects },
            Attachment { unit: b, handler: Handler::DragEndDrawsArrow },
        ]
    );
    assert_eq!(board.attachments, sw.attached);
    assert!(board.set_input_mode(InputMode::Movement).is_none());
    assert_eq!(board.attachments, sw.attached);
}

#[test]
fn new_unit_gets_active_mode_handlers() {
    let mut board = Board::new();
    board.set_input_mode(InputMode::Movement);
    let a = board.spawn_unit(SpawnData::Jugg);
    assert!(board.has_handler(a, Handler::DragEndDrawsArrow));
    assert!(board.has_handler(a, Handler::GrabSelects));
    assert!(!board.has_handler(a, Handler::DragMoves));
    assert_eq!(board.attachments, build_attachments(&board.units, InputMode::Movement));
}

#[test]
fn mode_keys_pick_mode() {
    let mut board = Board::new();
    assert!(board.apply_mode_keys(false, true, false).is_none());
    assert!(board.apply_mode_keys(true, false, true).is_some());
    assert_eq!(board.mode, InputMode::Movement);
    assert!(board.apply_mode_keys(true, false, false).is_some());
    assert_eq!(board.mode, InputMode::View);
    assert!(board.apply_mode_keys(false, false, false).is_none());
    assert_eq!(board.mode, InputMode::View);
}

#[test]
fn released_drag_draws_arrow_in_movement_mode() {
    let mut board = Board::new();
    let u = board.spawn_unit(SpawnData::Jugg);
    assert_eq!(board.on_drag_end(u, 10, 10), None);
    board.set_input_mode(InputMode::Movement);
    board.zoom.current_zoom_factor = 2000;
    let arrow = board.on_drag_end(u, 10, 10).expect("arrow drawn");
    let Arrow::Straight { from, to } = board.arrows.get(arrow).unwrap().arrow else {
        panic!("straight arrow expected")
    };
    assert_eq!(board.control_points.get(from.0).unwrap().position, p(0, 0));
    assert_eq!(board.control_points.get(to.0).unwrap().position, p(20, -20));
    board.tick();
    assert_eq!(
        board.arrows.get(arrow).unwrap().resolved,
        Some(ArrowResolved::Straight { from: p(0, 0), to: p(20, -20) })
    );
    assert_eq!(position(&board, u), p(0, 0));
}

#[test]
fn default_units_and_sample_arrows() {
    let mut board = Board::new();
    let ids = board.spawn_default_units();
    assert_eq!(ids.len(), 11);
    assert_eq!(default_roster().len(), 11);
    assert_eq!(board.units.get(ids[0]).unwrap().unit, Unit::Jugg);
    assert_eq!(position(&board, ids[0]), p(0, 0));
    assert_eq!(position(&board, ids[1]), p(-2100, 0));
    assert_eq!(position(&board, ids[7]), p(2100, -400));
    assert_eq!(board.units.get(ids[7]).unwrap().fill, Color::Blue);
    assert_eq!(board.attachments.len(), 22);
    let (a, b) = board.spawn_test_arrows();
    board.tick();
    assert_eq!(
        board.arrows.get(a).unwrap().resolved,
        Some(ArrowResolved::Straight { from: p(500, 500), to: p(700, 700) })
    );
    assert_eq!(
        board.arrows.get(b).unwrap().resolved,
        Some(ArrowResolved::Bezier {
            from: p(-500, -500),
            to: p(-700, -700),
            control_from: p(-700, -500),
            control_to: p(-500, -700),
        })
    );
}

#[test]
fn removed_entity_handle_stays_dead_after_slot_reuse() {
    let mut arena: Arena<u32> = Arena::new();
    let a = arena.insert(1);
    let b = arena.insert(2);
    assert_eq!(arena.remove(a), Some(1));
    assert_eq!(arena.remove(a), None);
    let c = arena.insert(3);
    assert_eq!(c.index, a.index);
    assert_ne!(c, a);
    assert_eq!(arena.get(a), None);
    assert_eq!(arena.get(c), Some(&3));
    assert_eq!(arena.get(b), Some(&2));
    assert_eq!(arena.len(), 2);
}

#[test]
fn control_point_spawn_data() {
    let a = AttachableControlPoint::from_meters(-5, 7);
    assert_eq!(a.to_component(), ControlPoint::Attachable(ControlPointLocation::Fixed(p(-500, 700))));
    let f = FloatingControlPoint::from_meters(2, 3);
    assert_eq!(f.to_component(), ControlPoint::Floating(p(200, 300)));
    let id = EntityId { index: 3, generation: 1 };
    assert_eq!(
        AttachableControlPoint::from_entity(id).location,
        ControlPointLocation::Attached(id)
    );
    let board = Board::new();
    assert_eq!(ControlPointRef(id).resolve(&board.control_points), None);
}

#[test]
fn dragging_free_control_point_rebuilds_arrow() {
    let mut board = Board::new();
    let u = board.spawn_unit(SpawnData::Jugg);
    let arrow = board.spawn_arrow(ArrowSpawnData::Straight {
        from: AttachableControlPoint::from_entity(u),
        to: fixed(100, 0),
    });
    board.tick();
    let Arrow::Straight { from, to } = board.arrows.get(arrow).unwrap().arrow else {
        panic!("straight arrow expected")
    };
    board.zoom.current_zoom_factor = 1000;
    board.on_control_point_drag(to, 0, -50);
    let e = board.control_points.get(to.0).unwrap();
    assert_eq!(e.kind, ControlPoint::Attachable(ControlPointLocation::Fixed(p(100, 50))));
    assert_eq!(e.position, p(100, 50));
    // Attached ends do not move on their own.
    board.on_control_point_drag(from, 30, 30);
    assert_eq!(board.control_points.get(from.0).unwrap().position, p(0, 0));
    board.tick();
    assert_eq!(
        board.arrows.get(arrow).unwrap().resolved,
        Some(ArrowResolved::Straight { from: p(0, 0), to: p(100, 50) })
    );
    // Outside the position mode nothing moves.
    board.set_input_mode(InputMode::View);
    board.on_control_point_drag(to, 0, -50);
    assert_eq!(board.control_points.get(to.0).unwrap().position, p(100, 50));
}
