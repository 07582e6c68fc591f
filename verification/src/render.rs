//! The popup's face: a column of buttons.

use vstd::prelude::*;
use crate::entry::BrowserModel;
use crate::event::{Action, ActionModel};

verus! {

/// How much room a widget takes along one axis.
#[derive(Clone, Copy, Debug, PartialEq, Eq)]
pub enum Length {
    /// As much as is available, shared evenly with its siblings.
    Fill,
    /// As little as its content needs.
    Shrink,
}

/// One button of the popup.
#[derive(Clone, Debug, PartialEq, Eq)]
pub struct Button {
    /// The text on the button.
    pub label: String,
    /// The action that pressing the button sends.
    pub on_press: Action,
    /// Space between the label and the button's edge, in pixels.
    pub padding: u16,
    pub width: Length,
    pub height: Length,
}

/// The mathematical value of a [`Button`].
pub struct ButtonModel {
    pub label: Seq<char>,
    pub on_press: ActionModel,
    pub padding: int,
    pub width: Length,
    pub height: Length,
}

impl View for Button {
    type V = ButtonModel;

    open spec fn view(&self) -> ButtonModel {
        ButtonModel {
            label: self.label@,
            on_press: self.on_press@,
            padding: self.padding as int,
            width: self.width,
            height: self.height,
        }
    }
}

/// The values of a column of buttons, top to bottom.
pub open spec fn button_models(buttons: Seq<Button>) -> Seq<ButtonModel> {
    Seq::new(buttons.len(), |i: int| buttons[i]@)
}

/// The popup's one kind of button: one pixel of padding, filling the width
/// and its share of the height.
pub open spec fn styled(label: Seq<char>, on_press: ActionModel) -> ButtonModel {
    ButtonModel { label, on_press, padding: 1, width: Length::Fill, height: Length::Fill }
}

/// The column shown for a list of browsers: one button per browser, in the
/// list's order, each labelled with the browser's title and opening its
/// command; below them a single Cancel button.
pub open spec fn rendered(entries: Seq<BrowserModel>) -> Seq<ButtonModel> {
    Seq::new(
        entries.len() + 1,
        |i: int|
            if i < entries.len() {
                styled(entries[i].title, ActionModel::Open(entries[i].command))
            } else {
                styled("Cancel"@, ActionModel::Cancel)
            },
    )
}

/// Builds a button in the popup's style.
pub fn new_button(title: &str, action: Action) -> (button: Button)
    ensures
        button@ == styled(title@, action@),
{
    Button {
        label: title.to_string(),
        on_press: action,
        padding: 1,
        width: Length::Fill,
        height: Length::Fill,
    }
}

} // verus!
