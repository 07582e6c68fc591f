//! The browsers the popup offers.

use vstd::prelude::*;

verus! {

/// One launchable browser: the text on its button and the command that
/// starts it.
#[derive(Clone, Debug, PartialEq, Eq)]
pub struct Browser {
    pub title: String,
    pub command: String,
}

/// The mathematical value of a [`Browser`].
pub struct BrowserModel {
    pub title: Seq<char>,
    pub command: Seq<char>,
}

impl View for Browser {
    type V = BrowserModel;

    open spec fn view(&self) -> BrowserModel {
        BrowserModel { title: self.title@, command: self.command@ }
    }
}

/// The values of a list of browsers, in the list's order.
pub open spec fn browser_models(list: Seq<Browser>) -> Seq<BrowserModel> {
    Seq::new(list.len(), |i: int| list[i]@)
}

/// The fixed list the popup starts with.
pub open spec fn default_entries() -> Seq<BrowserModel> {
    seq![
        BrowserModel { title: "Mozilla Firefox"@, command: "firefox"@ },
        BrowserModel { title: "Google Chrome"@, command: "chrome"@ },
    ]
}

/// Builds the fixed list the popup starts with: Firefox first, Chrome second.
pub fn default_browsers() -> (list: Vec<Browser>)
    ensures
        browser_models(list@) == default_entries(),
{
    let mut list: Vec<Browser> = Vec::new();
    list.push(Browser { title: "Mozilla Firefox".to_string(), command: "firefox".to_string() });
    list.push(Browser { title: "Google Chrome".to_string(), command: "chrome".to_string() });
    list
}

} // verus!
