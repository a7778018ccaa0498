//! Input modes, key bindings, and the handlers each mode attaches.
use vstd::prelude::*;
use crate::arena::EntityId;

verus! {

/// What pointer gestures on units do.
#[derive(Clone, Copy, Debug, PartialEq, Eq, Structural)]
pub enum InputMode {
    /// Gestures only select.
    View,
    /// Dragging a unit moves it.
    Position,
    /// Releasing a drag on a unit draws an arrow from it.
    Movement,
}

/// Keyboard actions of the board.
#[derive(Clone, Copy, Debug, PartialEq, Eq, Structural)]
pub enum GlobalAction {
    Exit,
    InputModeView,
    InputModePosition,
    InputModeMovement,
}

/// Camera actions; zoom is driven by the scroll axis.
#[derive(Clone, Copy, Debug, PartialEq, Eq, Structural)]
pub enum CameraAction {
    Zoom,
}

/// The keys the board listens to.
#[derive(Clone, Copy, Debug, PartialEq, Eq, Structural)]
pub enum KeyCode {
    Escape,
    KeyV,
    KeyB,
    KeyN,
}

/// A gesture handler that can be attached to a unit.
#[derive(Clone, Copy, Debug, PartialEq, Eq, Structural)]
pub enum Handler {
    /// Pressing on the unit selects it.
    GrabSelects,
    /// Dragging the unit moves it.
    DragMoves,
    /// Releasing a drag on the unit draws an arrow from it.
    DragEndDrawsArrow,
}

/// A handler attached to a unit.
#[derive(Clone, Copy, Debug, PartialEq, Eq, Structural)]
pub struct Attachment {
    pub unit: EntityId,
    pub handler: Handler,
}

/// The handlers each mode attaches to every unit; grabbing selects in all.
pub open spec fn mode_handlers(m: InputMode) -> Seq<Handler> {
    match m {
        InputMode::View => seq![Handler::GrabSelects],
        InputMode::Position => seq![Handler::GrabSelects, Handler::DragMoves],
        InputMode::Movement => seq![Handler::GrabSelects, Handler::DragEndDrawsArrow],
    }
}

pub open spec fn key_map() -> Seq<(GlobalAction, KeyCode)> {
    seq![
        (GlobalAction::Exit, KeyCode::Escape),
        (GlobalAction::InputModeView, KeyCode::KeyV),
        (GlobalAction::InputModePosition, KeyCode::KeyB),
        (GlobalAction::InputModeMovement, KeyCode::KeyN),
    ]
}

/// The mode asked for by the mode keys pressed this tick; where several
/// were pressed, the last of view, position, movement wins.
pub open spec fn requested(view: bool, position: bool, movement: bool) -> Option<InputMode> {
    if movement {
        Some(InputMode::Movement)
    } else if position {
        Some(InputMode::Position)
    } else if view {
        Some(InputMode::View)
    } else {
        None
    }
}

impl InputMode {
    /// The mode the board starts in.
    pub fn initial() -> (r: InputMode)
        ensures
            r == InputMode::Position,
    {
        InputMode::Position
    }

    /// The handlers this mode attaches to every unit.
    pub fn handlers(&self) -> (r: Vec<Handler>)
        ensures
            r@ == mode_handlers(*self),
    {
        let r = match self {
            InputMode::View => vec![Handler::GrabSelects],
            InputMode::Position => vec![Handler::GrabSelects, Handler::DragMoves],
            InputMode::Movement => vec![Handler::GrabSelects, Handler::DragEndDrawsArrow],
        };
        assert(r@ =~= mode_handlers(*self));
        r
    }
}

impl GlobalAction {
    /// The key bound to each action.
    pub fn input_map() -> (r: Vec<(GlobalAction, KeyCode)>)
        ensures
            r@ == key_map(),
    {
        let r = vec![
            (GlobalAction::Exit, KeyCode::Escape),
            (GlobalAction::InputModeView, KeyCode::KeyV),
            (GlobalAction::InputModePosition, KeyCode::KeyB),
            (GlobalAction::InputModeMovement, KeyCode::KeyN),
        ];
        assert(r@ =~= key_map());
        r
    }

    /// The action a key stands for.
    pub fn from_key(key: KeyCode) -> (r: GlobalAction)
        ensures
            exists|i: int| 0 <= i < key_map().len() && key_map()[i] == (r, key),
    {
        let r = match key {
            KeyCode::Escape => GlobalAction::Exit,
            KeyCode::KeyV => GlobalAction::InputModeView,
            KeyCode::KeyB => GlobalAction::InputModePosition,
            KeyCode::KeyN => GlobalAction::InputModeMovement,
        };
        proof {
            let i: int = match key {
                KeyCode::Escape => 0,
                KeyCode::KeyV => 1,
                KeyCode::KeyB => 2,
                KeyCode::KeyN => 3,
            };
            assert(key_map()[i] == (r, key));
        }
        r
    }
}

/// The mode the pressed mode keys ask for, if any.
pub fn requested_mode(view: bool, position: bool, movement: bool) -> (r: Option<InputMode>)
    ensures
        r == requested(view, position, movement),
{
    let mut next: Option<InputMode> = None;
    if view {
        next = Some(InputMode::View);
    }
    if position {
        next = Some(InputMode::Position);
    }
    if movement {
        next = Some(InputMode::Movement);
    }
    next
}

} // verus!
