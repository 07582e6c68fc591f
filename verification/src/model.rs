//! The popup as a state machine over mathematical values.

use vstd::prelude::*;
use crate::effect::EffectModel;
use crate::entry::BrowserModel;
use crate::event::{ActionModel, MouseEvent, Position, WindowEvent};

verus! {

/// Everything the popup remembers.
pub struct PopupState {
    /// The browsers on offer, in the order of their buttons.
    pub entries: Seq<BrowserModel>,
    /// The arguments the popup was started with; a launched browser gets
    /// them unchanged. Empty where nothing is to be handed on.
    pub arguments: Seq<Seq<char>>,
    /// Whether the window has held the focus at least once.
    pub focused_once: bool,
    /// Where the window was when it first reported a position.
    pub window_position: Option<Position>,
    /// Where the pointer was when it first moved over the window.
    pub cursor_position: Option<Position>,
}

/// The state a fresh popup starts in.
pub open spec fn initial_state(
    entries: Seq<BrowserModel>,
    arguments: Seq<Seq<char>>,
) -> PopupState {
    PopupState {
        entries,
        arguments,
        focused_once: false,
        window_position: None,
        cursor_position: None,
    }
}

/// The state after `action` was handled in state `s`.
///
/// Gaining focus is remembered. The first reported window position and the
/// first reported pointer position are remembered; later ones are dropped.
/// Nothing else changes the state.
pub open spec fn next_state(s: PopupState, action: ActionModel) -> PopupState {
    match action {
        ActionModel::HandleWindowEvent(WindowEvent::Focused) => PopupState {
            focused_once: true,
            ..s
        },
        ActionModel::HandleWindowEvent(WindowEvent::Moved { x, y }) => {
            if s.window_position is None {
                PopupState { window_position: Some(Position { x, y }), ..s }
            } else {
                s
            }
        },
        ActionModel::HandleMouseEvent(MouseEvent::CursorMoved { x, y }) => {
            if s.cursor_position is None {
                PopupState { cursor_position: Some(Position { x, y }), ..s }
            } else {
                s
            }
        },
        _ => s,
    }
}

/// The effect that handling `action` in state `s` asks for.
///
/// Picking a browser launches its command with the popup's own arguments;
/// Cancel closes; losing the focus closes once the focus has been held; the
/// first pointer position moves the window one pixel below and right of the
/// pointer, provided the window's own position is already known. Everything
/// else asks for nothing.
pub open spec fn effect_of(s: PopupState, action: ActionModel) -> EffectModel {
    match action {
        ActionModel::Open(command) => EffectModel::Launch { command, arguments: s.arguments },
        ActionModel::Cancel => EffectModel::Close,
        ActionModel::HandleWindowEvent(WindowEvent::Unfocused) => if s.focused_once {
            EffectModel::Close
        } else {
            EffectModel::Idle
        },
        ActionModel::HandleMouseEvent(MouseEvent::CursorMoved { x, y }) => match (
            s.cursor_position,
            s.window_position,
        ) {
            (None, Some(window)) => EffectModel::MoveTo {
                x: x + window.x + 1,
                y: y + window.y + 1,
            },
            _ => EffectModel::Idle,
        },
        _ => EffectModel::Idle,
    }
}

/// The state after a whole run of actions was handled, one after the other,
/// starting in state `s`.
pub open spec fn state_after(s: PopupState, actions: Seq<ActionModel>) -> PopupState
    decreases actions.len(),
{
    if actions.len() == 0 {
        s
    } else {
        next_state(state_after(s, actions.drop_last()), actions.last())
    }
}

/// The effect asked for by the action at index `i` of a run that starts in
/// state `s`.
pub open spec fn effect_at(s: PopupState, actions: Seq<ActionModel>, i: int) -> EffectModel
    recommends
        0 <= i < actions.len(),
{
    effect_of(state_after(s, actions.take(i)), actions[i])
}

} // verus!
