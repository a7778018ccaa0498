//! Units on the board and their fixed classification data: colors, icons,
//! start positions.
use vstd::prelude::*;
use crate::geometry::{Point, from_meters};

verus! {

/// Named colors of the board's palette.
#[derive(Clone, Copy, Debug, PartialEq, Eq, Structural)]
pub enum Color {
    WhiteSmoke,
    LightGray,
    Red,
    DarkRed,
    LightBlue,
    Blue,
    Black,
    White,
    LightGreen,
}

#[derive(Clone, Copy, Debug, PartialEq, Eq, Structural)]
pub enum Team {
    Left,
    Right,
}

#[derive(Clone, Copy, Debug, PartialEq, Eq, Structural)]
pub enum PositionalUnitType {
    One,
    Two,
    Three,
    Four,
    Five,
}

#[derive(Clone, Copy, Debug, PartialEq, Eq, Structural)]
pub enum PlayerUnitType {
    Chain,
    Long,
    Staff,
    QTip,
    Shield,
    DoubleShort,
}

#[derive(Clone, Copy, Debug, PartialEq, Eq, Structural)]
pub enum UnitType {
    Positional(PositionalUnitType),
    Runner { has_jugg: bool },
    Player(PlayerUnitType),
}

/// Interaction state of a player; carried, not computed here.
#[derive(Clone, Copy, Debug, PartialEq, Eq, Structural)]
pub enum UnitState {
    Active,
    Inactive { downtime: u8, pin_stone: bool },
    Pinned { downtime: u8 },
}

/// What a unit on the board is: the ball, or a player.
#[derive(Clone, Copy, Debug, PartialEq, Eq, Structural)]
pub enum Unit {
    Jugg,
    Player { team: Team, unit_type: UnitType, state: UnitState },
}

/// Where a player lines up at the start.
#[derive(Clone, Copy, Debug, PartialEq, Eq, Structural)]
pub enum StartPosition {
    One,
    Two,
    Three,
    Four,
    Runner,
}

/// The ball.
#[derive(Clone, Copy, Debug, PartialEq, Eq, Structural)]
pub struct Jugg;

/// A unit as it stands on the board.
#[derive(Clone, Copy, Debug, PartialEq, Eq, Structural)]
pub struct UnitEntity {
    pub unit: Unit,
    pub position: Point,
    /// Carries the selection marker.
    pub selected: bool,
    pub fill: Color,
    /// Outline color; only a selected unit has one.
    pub outline: Option<Color>,
}

/// Marks the unit that is currently selected.
#[derive(Clone, Copy, Debug, PartialEq, Eq, Structural)]
pub struct Selected;

pub open spec fn unit_color(u: Unit, selected: bool) -> Color {
    match u {
        Unit::Jugg => if selected {
            Color::WhiteSmoke
        } else {
            Color::LightGray
        },
        Unit::Player { team: Team::Left, .. } => if selected {
            Color::Red
        } else {
            Color::DarkRed
        },
        Unit::Player { team: Team::Right, .. } => if selected {
            Color::LightBlue
        } else {
            Color::Blue
        },
    }
}

pub open spec fn outline_color(u: Unit) -> Color {
    match u {
        Unit::Jugg => Color::Black,
        Unit::Player { .. } => Color::White,
    }
}

pub open spec fn sprite_path(u: Unit) -> Seq<char> {
    match u {
        Unit::Jugg => "icons/jugg.png"@,
        Unit::Player { unit_type, .. } => match unit_type {
            UnitType::Positional(PositionalUnitType::One) => "icons/1.png"@,
            UnitType::Positional(PositionalUnitType::Two) => "icons/2.png"@,
            UnitType::Positional(PositionalUnitType::Three) => "icons/3.png"@,
            UnitType::Positional(PositionalUnitType::Four) => "icons/4.png"@,
            UnitType::Positional(PositionalUnitType::Five) => "icons/5.png"@,
            UnitType::Runner { has_jugg: false } => "icons/runner.png"@,
            UnitType::Runner { has_jugg: true } => "icons/runner_ball.png"@,
            UnitType::Player(PlayerUnitType::Chain) => "icons/chain.png"@,
            UnitType::Player(PlayerUnitType::Long) => "icons/long.png"@,
            UnitType::Player(PlayerUnitType::Staff) => "icons/staff.png"@,
            UnitType::Player(PlayerUnitType::QTip) => "icons/q_tip.png"@,
            UnitType::Player(PlayerUnitType::Shield) => "icons/shield.png"@,
            UnitType::Player(PlayerUnitType::DoubleShort) => "icons/double_short.png"@,
        },
    }
}

/// Start positions in meters: the left team lines up at x = -21, the right
/// team mirrored at x = 21.
pub open spec fn start_meters(team: Team, p: StartPosition) -> (int, int) {
    let y: int = match p {
        StartPosition::One => 4,
        StartPosition::Two => 2,
        StartPosition::Three => -2,
        StartPosition::Four => -4,
        StartPosition::Runner => 0,
    };
    match team {
        Team::Left => (-21, y),
        Team::Right => (21, -y),
    }
}

impl Unit {
    /// The fill color of a unit, brighter when it is selected.
    pub fn color(&self, selected: bool) -> (r: Color)
        ensures
            r == unit_color(*self, selected),
    {
        match (self, selected) {
            (Unit::Jugg, true) => Color::WhiteSmoke,
            (Unit::Jugg, false) => Color::LightGray,
            (Unit::Player { team, .. }, selected) => match (team, selected) {
                (Team::Left, true) => Color::Red,
                (Team::Left, false) => Color::DarkRed,
                (Team::Right, true) => Color::LightBlue,
                (Team::Right, false) => Color::Blue,
            },
        }
    }

    /// The outline of a selected unit.
    pub fn outline_color(&self) -> (r: Color)
        ensures
            r == outline_color(*self),
    {
        match self {
            Unit::Jugg => Color::Black,
            Unit::Player { .. } => Color::White,
        }
    }

    /// The path of the icon drawn on a unit.
    pub fn get_sprite(&self) -> (r: &'static str)
        ensures
            r@ == sprite_path(*self),
    {
        match self {
            Unit::Jugg => "icons/jugg.png",
            Unit::Player { unit_type, .. } => match unit_type {
                UnitType::Positional(PositionalUnitType::One) => "icons/1.png",
                UnitType::Positional(PositionalUnitType::Two) => "icons/2.png",
                UnitType::Positional(PositionalUnitType::Three) => "icons/3.png",
                UnitType::Positional(PositionalUnitType::Four) => "icons/4.png",
                UnitType::Positional(PositionalUnitType::Five) => "icons/5.png",
                UnitType::Runner { has_jugg: false } => "icons/runner.png",
                UnitType::Runner { has_jugg: true } => "icons/runner_ball.png",
                UnitType::Player(PlayerUnitType::Chain) => "icons/chain.png",
                UnitType::Player(PlayerUnitType::Long) => "icons/long.png",
                UnitType::Player(PlayerUnitType::Staff) => "icons/staff.png",
                UnitType::Player(PlayerUnitType::QTip) => "icons/q_tip.png",
                UnitType::Player(PlayerUnitType::Shield) => "icons/shield.png",
                UnitType::Player(PlayerUnitType::DoubleShort) => "icons/double_short.png",
            },
        }
    }
}

impl Team {
    /// Where a player of this team starts, in world pixels.
    pub fn initial_position(&self, start_position: StartPosition) -> (r: Point)
        ensures
            r == Point::new_spec(
                start_meters(*self, start_position).0 * 100,
                start_meters(*self, start_position).1 * 100,
            ),
    {
        match (self, start_position) {
            (Team::Left, StartPosition::One) => from_meters(-21, 4),
            (Team::Left, StartPosition::Two) => from_meters(-21, 2),
            (Team::Left, StartPosition::Three) => from_meters(-21, -2),
            (Team::Left, StartPosition::Four) => from_meters(-21, -4),
            (Team::Left, StartPosition::Runner) => from_meters(-21, 0),
            (Team::Right, StartPosition::One) => from_meters(21, -4),
            (Team::Right, StartPosition::Two) => from_meters(21, -2),
            (Team::Right, StartPosition::Three) => from_meters(21, 2),
            (Team::Right, StartPosition::Four) => from_meters(21, 4),
            (Team::Right, StartPosition::Runner) => from_meters(21, 0),
        }
    }
}

impl Jugg {
    /// The ball starts at the center of the field.
    pub fn initial_position() -> (r: Point)
        ensures
            r == Point::new_spec(0, 0),
    {
        Point::zero()
    }
}

} // verus!
