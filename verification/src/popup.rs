//! The popup's state as the program holds it, and its transitions.

use vstd::prelude::*;
use crate::config::{light_palette, Color, Palette};
use crate::effect::{string_models, Effect};
use crate::entry::{browser_models, default_browsers, default_entries, Browser};
use crate::event::{routed, Action, ActionModel, Event, MouseEvent, Position, WindowEvent};
use crate::model::{effect_of, initial_state, next_state, PopupState};
use crate::render::{button_models, new_button, rendered, styled, Button};

verus! {

/// The popup: its list of browsers and what it has observed so far.
#[derive(Clone, Debug, PartialEq, Eq)]
pub struct BrowserList {
    pub list: Vec<Browser>,
    /// The arguments handed on to the browser that is launched.
    pub arguments: Vec<String>,
    pub initially_focused: bool,
    pub initial_window_position: Option<Position>,
    pub initial_cursor_vector: Option<Position>,
}

impl BrowserList {
    /// The mathematical state that this value stands for.
    pub open spec fn state(&self) -> PopupState {
        PopupState {
            entries: browser_models(self.list@),
            arguments: string_models(self.arguments@),
            focused_once: self.initially_focused,
            window_position: self.initial_window_position,
            cursor_position: self.initial_cursor_vector,
        }
    }

    /// A fresh popup: the fixed list of browsers, never focused, no position
    /// seen yet. `arguments` are handed on, unchanged and in order, to the
    /// browser that gets launched; pass an empty list to hand on none.
    pub fn new(arguments: Vec<String>) -> (popup: BrowserList)
        ensures
            popup.state() == initial_state(default_entries(), string_models(arguments@)),
    {
        BrowserList {
            list: default_browsers(),
            arguments,
            initially_focused: false,
            initial_window_position: None,
            initial_cursor_vector: None,
        }
    }

    /// The window's title.
    pub fn title(&self) -> (title: String)
        ensures
            title@ == "Browser Chooser"@,
    {
        "Browser Chooser".to_string()
    }

    /// What the popup shows: one button per browser, in order, and a Cancel
    /// button below them.
    pub fn view(&self) -> (buttons: Vec<Button>)
        ensures
            button_models(buttons@) == rendered(self.state().entries),
    {
        let mut buttons: Vec<Button> = Vec::new();
        let mut i: usize = 0;
        while i < self.list.len()
            invariant
                i <= self.list.len(),
                buttons.len() == i,
                forall|k: int|
                    0 <= k < i ==> (#[trigger] buttons[k])@ == styled(
                        self.list[k].title@,
                        ActionModel::Open(self.list[k].command@),
                    ),
            decreases self.list.len() - i,
        {
            let browser = &self.list[i];
            let action = Action::Open(browser.command.clone());
            buttons.push(new_button(browser.title.as_str(), action));
            i += 1;
        }
        buttons.push(new_button("Cancel", Action::Cancel));
        buttons
    }

    /// Picks the events the popup listens to and turns each into the action
    /// that handles it; `None` for an event the popup ignores.
    pub fn subscription(event: Event) -> (action: Option<Action>)
        ensures
            action is Some <==> routed(event) is Some,
            action is Some ==> action->0@ == routed(event)->0,
    {
        match event {
            Event::Window(e) => Some(Action::HandleWindowEvent(e)),
            Event::Mouse(e) => Some(Action::HandleMouseEvent(e)),
            Event::Keyboard | Event::Touch => None,
        }
    }

    /// The colours the popup is drawn in.
    pub fn theme(&self) -> (palette: Palette)
        ensures
            palette == light_palette(),
            palette.wf(),
    {
        Palette {
            background: Color { red: 100, green: 100, blue: 100 },
            text: Color { red: 0, green: 0, blue: 0 },
            primary: Color { red: 95, green: 95, blue: 95 },
            success: Color { red: 0, green: 100, blue: 0 },
            danger: Color { red: 100, green: 0, blue: 0 },
        }
    }

    /// Handles one action: moves to the next state and returns the one effect
    /// the host has to carry out.
    pub fn update(&mut self, action: Action) -> (effect: Effect)
        ensures
            final(self).state() == next_state(old(self).state(), action@),
            effect@ == effect_of(old(self).state(), action@),
    {
        match action {
            Action::Open(command) => Effect::Launch {
                command,
                arguments: self.arguments.clone(),
            },
            Action::HandleWindowEvent(WindowEvent::Focused) => {
                self.initially_focused = true;
                Effect::Idle
            },
            Action::HandleWindowEvent(WindowEvent::Unfocused) => {
                if self.initially_focused {
                    Effect::Close
                } else {
                    Effect::Idle
                }
            },
            Action::HandleWindowEvent(WindowEvent::Moved { x, y }) => {
                if self.initial_window_position.is_none() {
                    self.initial_window_position = Some(Position { x, y });
                }
                Effect::Idle
            },
            Action::HandleMouseEvent(MouseEvent::CursorMoved { x, y }) => {
                if self.initial_cursor_vector.is_none() {
                    self.initial_cursor_vector = Some(Position { x, y });
                    if let Some(window) = self.initial_window_position {
                        return Effect::MoveTo {
                            x: x as i64 + window.x as i64 + 1,
                            y: y as i64 + window.y as i64 + 1,
                        };
                    }
                }
                Effect::Idle
            },
            Action::Cancel => Effect::Close,
            _ => Effect::Idle,
        }
    }
}

} // verus!
