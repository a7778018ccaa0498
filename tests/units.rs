use tactics_board::input::{requested_mode, GlobalAction, Handler, InputMode, KeyCode};
use tactics_board::plugins::{EnginePlugin, RequiredPlugins};
use tactics_board::unit::{
    Color, Jugg, PlayerUnitType, PositionalUnitType, StartPosition, Team, Unit, UnitState, UnitType,
};
use tactics_board::geometry::Point;
use tactics_board::zoom::{ZoomState, MAX_ZOOM_FACTOR, MIN_ZOOM_FACTOR};

fn player(team: Team, unit_type: UnitType) -> Unit {
    Unit::Player { team, unit_type, state: UnitState::Active }
}

#[test]
fn zoom_scales_by_rate() {
    let mut z = ZoomState::new();
    assert_eq!(z.current_zoom_factor, 4500);
    assert!(z.zoom(1));
    assert_eq!(z.current_zoom_factor, 4050);
    assert!(z.zoom(2));
    assert_eq!(z.current_zoom_factor, 3240);
    assert!(z.zoom(-1));
    assert_eq!(z.current_zoom_factor, 3564);
}

#[test]
fn zoom_clamps_large_deltas() {
    let mut z = ZoomState::default();
    assert!(!z.zoom(-1));
    assert_eq!(z.current_zoom_factor, MAX_ZOOM_FACTOR);
    assert!(z.zoom(100));
    assert_eq!(z.current_zoom_factor, MIN_ZOOM_FACTOR);
    assert!(!z.zoom(i32::MAX));
    assert_eq!(z.current_zoom_factor, MIN_ZOOM_FACTOR);
    assert!(z.zoom(i32::MIN));
    assert_eq!(z.current_zoom_factor, MAX_ZOOM_FACTOR);
    for d in [3, -7, 50, -50, 1, 0, 12] {
        z.zoom(d);
        assert!(z.current_zoom_factor >= MIN_ZOOM_FACTOR);
        assert!(z.current_zoom_factor <= MAX_ZOOM_FACTOR);
    }
}

#[test]
fn zoom_without_change_reports_none() {
    let mut z = ZoomState { current_zoom_factor: 2000, zoom_rate: 100 };
    assert!(!z.zoom(0));
    assert_eq!(z.current_zoom_factor, 2000);
}

#[test]
fn screen_delta_to_world() {
    let z = ZoomState { current_zoom_factor: 2000, zoom_rate: 100 };
    assert_eq!(z.screen_to_world(10, -10), Point::new(20, 20));
    let z = ZoomState { current_zoom_factor: 1500, zoom_rate: 100 };
    assert_eq!(z.screen_to_world(-3, 3), Point::new(-4, -4));
}

#[test]
fn unit_colors() {
    assert_eq!(Unit::Jugg.color(true), Color::WhiteSmoke);
    assert_eq!(Unit::Jugg.color(false), Color::LightGray);
    let l = player(Team::Left, UnitType::Runner { has_jugg: false });
    let r = player(Team::Right, UnitType::Positional(PositionalUnitType::Two));
    assert_eq!(l.color(true), Color::Red);
    assert_eq!(l.color(false), Color::DarkRed);
    assert_eq!(r.color(true), Color::LightBlue);
    assert_eq!(r.color(false), Color::Blue);
    assert_eq!(Unit::Jugg.outline_color(), Color::Black);
    assert_eq!(r.outline_color(), Color::White);
}

#[test]
fn unit_sprites() {
    assert_eq!(Unit::Jugg.get_sprite(), "icons/jugg.png");
    assert_eq!(
        player(Team::Left, UnitType::Runner { has_jugg: true }).get_sprite(),
        "icons/runner_ball.png"
    );
    assert_eq!(
        player(Team::Right, UnitType::Positional(PositionalUnitType::Five)).get_sprite(),
        "icons/5.png"
    );
    assert_eq!(
        player(Team::Right, UnitType::Player(PlayerUnitType::DoubleShort)).get_sprite(),
        "icons/double_short.png"
    );
    assert_eq!(
        player(Team::Left, UnitType::Player(PlayerUnitType::QTip)).get_sprite(),
        "icons/q_tip.png"
    );
}

#[test]
fn start_positions() {
    assert_eq!(Jugg::initial_position(), Point::new(0, 0));
    assert_eq!(Team::Left.initial_position(StartPosition::Three), Point::new(-2100, -200));
    assert_eq!(Team::Right.initial_position(StartPosition::Three), Point::new(2100, 200));
    assert_eq!(Team::Right.initial_position(StartPosition::Runner), Point::new(2100, 0));
    assert_eq!(Team::Left.initial_position(StartPosition::Four), Point::new(-2100, -400));
}

#[test]
fn key_bindings() {
    let map = GlobalAction::input_map();
    assert_eq!(map.len(), 4);
    assert_eq!(map[0], (GlobalAction::Exit, KeyCode::Escape));
    assert_eq!(map[3], (GlobalAction::InputModeMovement, KeyCode::KeyN));
    assert_eq!(GlobalAction::from_key(KeyCode::KeyV), GlobalAction::InputModeView);
    assert_eq!(GlobalAction::from_key(KeyCode::KeyB), GlobalAction::InputModePosition);
}

#[test]
fn mode_requests() {
    assert_eq!(requested_mode(false, false, false), None);
    assert_eq!(requested_mode(true, false, false), Some(InputMode::View));
    assert_eq!(requested_mode(true, true, false), Some(InputMode::Position));
    assert_eq!(requested_mode(false, true, true), Some(InputMode::Movement));
    assert_eq!(InputMode::initial(), InputMode::Position);
    assert_eq!(InputMode::View.handlers(), vec![Handler::GrabSelects]);
    assert_eq!(
        InputMode::Position.handlers(),
        vec![Handler::GrabSelects, Handler::DragMoves]
    );
}

#[test]
fn required_plugins_in_order() {
    let plugins = RequiredPlugins.build();
    assert_eq!(plugins.len(), 19);
    assert_eq!(plugins[0], EnginePlugin::PanicHandler);
    assert_eq!(plugins[9], EnginePlugin::Window);
    assert_eq!(plugins[18], EnginePlugin::DefaultPicking);
}
