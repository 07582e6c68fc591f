//! Events that reach the popup, and the actions they are turned into.

use vstd::prelude::*;

verus! {

/// A point on the screen or inside the window, in whole logical pixels.
#[derive(Clone, Copy, Debug, PartialEq, Eq)]
pub struct Position {
    pub x: i32,
    pub y: i32,
}

/// What the window system reports about the popup's window.
#[derive(Clone, Copy, Debug, PartialEq, Eq)]
pub enum WindowEvent {
    /// The window gained input focus.
    Focused,
    /// The window lost input focus.
    Unfocused,
    /// The window now sits at this screen position.
    Moved { x: i32, y: i32 },
    /// Any other window event (resize, redraw, close request, file hover).
    Other,
}

/// What the window system reports about the pointer.
#[derive(Clone, Copy, Debug, PartialEq, Eq)]
pub enum MouseEvent {
    /// The pointer moved to this position inside the window. Fractions of a
    /// pixel are cut off before the event is built.
    CursorMoved { x: i32, y: i32 },
    /// Any other pointer event (enter, leave, button, wheel).
    Other,
}

/// A raw event of the windowing layer, by the device it comes from.
#[derive(Clone, Copy, Debug, PartialEq, Eq)]
pub enum Event {
    Keyboard,
    Mouse(MouseEvent),
    Window(WindowEvent),
    Touch,
}

/// A message the popup reacts to.
#[derive(Clone, Debug, PartialEq, Eq)]
pub enum Action {
    /// A browser's button was pressed; the payload is its launch command.
    Open(String),
    HandleWindowEvent(WindowEvent),
    HandleMouseEvent(MouseEvent),
    /// The Cancel button was pressed.
    Cancel,
}

/// The mathematical value of an [`Action`].
pub enum ActionModel {
    Open(Seq<char>),
    HandleWindowEvent(WindowEvent),
    HandleMouseEvent(MouseEvent),
    Cancel,
}

impl View for Action {
    type V = ActionModel;

    open spec fn view(&self) -> ActionModel {
        match *self {
            Action::Open(command) => ActionModel::Open(command@),
            Action::HandleWindowEvent(e) => ActionModel::HandleWindowEvent(e),
            Action::HandleMouseEvent(e) => ActionModel::HandleMouseEvent(e),
            Action::Cancel => ActionModel::Cancel,
        }
    }
}

impl ActionModel {
    /// The window reported a position.
    pub open spec fn is_window_moved(self) -> bool {
        self matches ActionModel::HandleWindowEvent(WindowEvent::Moved { .. })
    }

    /// The pointer reported a position.
    pub open spec fn is_cursor_moved(self) -> bool {
        self matches ActionModel::HandleMouseEvent(MouseEvent::CursorMoved { .. })
    }
}

/// The action that a raw event stands for, if the popup listens to it:
/// every window event and every pointer event is passed on, keyboard and
/// touch events are dropped.
pub open spec fn routed(event: Event) -> Option<ActionModel> {
    match event {
        Event::Window(e) => Some(ActionModel::HandleWindowEvent(e)),
        Event::Mouse(e) => Some(ActionModel::HandleMouseEvent(e)),
        Event::Keyboard | Event::Touch => None,
    }
}

} // verus!
