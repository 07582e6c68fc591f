//! How the popup's window is set up and coloured.

use vstd::prelude::*;

verus! {

/// The window the popup opens.
#[derive(Clone, Copy, Debug, PartialEq, Eq)]
pub struct Settings {
    /// Width in logical pixels.
    pub width: u32,
    /// Height in logical pixels.
    pub height: u32,
    /// Whether the window has a border and a title bar.
    pub decorations: bool,
    /// Whether the user can resize the window.
    pub resizable: bool,
    /// Whether the window stays above all others.
    pub always_on_top: bool,
    /// Height of the text on the buttons, in logical pixels.
    pub default_text_size: u16,
}

/// A colour; each channel is a percentage of full intensity.
#[derive(Clone, Copy, Debug, PartialEq, Eq)]
pub struct Color {
    pub red: u8,
    pub green: u8,
    pub blue: u8,
}

impl Color {
    /// No channel is above one hundred percent.
    pub open spec fn wf(&self) -> bool {
        self.red <= 100 && self.green <= 100 && self.blue <= 100
    }
}

/// The five colours a theme is built from.
#[derive(Clone, Copy, Debug, PartialEq, Eq)]
pub struct Palette {
    pub background: Color,
    pub text: Color,
    pub primary: Color,
    pub success: Color,
    pub danger: Color,
}

impl Palette {
    /// Every colour of the palette is well formed.
    pub open spec fn wf(&self) -> bool {
        &&& self.background.wf()
        &&& self.text.wf()
        &&& self.primary.wf()
        &&& self.success.wf()
        &&& self.danger.wf()
    }
}

/// The popup's window: 100 by 60, bare, fixed in size, above the others,
/// with text of size 12.
pub open spec fn popup_settings() -> Settings {
    Settings {
        width: 100,
        height: 60,
        decorations: false,
        resizable: false,
        always_on_top: true,
        default_text_size: 12,
    }
}

/// The popup's colours: black text on white, buttons in a very light grey;
/// pure green and pure red are the accents for success and danger.
pub open spec fn light_palette() -> Palette {
    Palette {
        background: Color { red: 100, green: 100, blue: 100 },
        text: Color { red: 0, green: 0, blue: 0 },
        primary: Color { red: 95, green: 95, blue: 95 },
        success: Color { red: 0, green: 100, blue: 0 },
        danger: Color { red: 100, green: 0, blue: 0 },
    }
}

/// The settings the popup's window is created with.
pub fn settings() -> (settings: Settings)
    ensures
        settings == popup_settings(),
{
    Settings {
        width: 100,
        height: 60,
        decorations: false,
        resizable: false,
        always_on_top: true,
        default_text_size: 12,
    }
}

} // verus!
