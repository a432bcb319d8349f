//! What the menu-bar icon's menu and clicks ask for.
use crate::text::same_text;
use vstd::prelude::*;

verus! {

/// An entry of the icon's menu.
#[derive(Clone, Copy, PartialEq, Eq, Debug, Structural)]
pub enum MenuAction {
    Open,
    Settings,
    Quit,
}

/// The action of the menu entry `id`: `open`, `settings` or `quit`; none for another id.
pub fn menu_action(id: &str) -> (action: Option<MenuAction>)
    ensures
        action == (if id@ == "open"@ {
            Some(MenuAction::Open)
        } else if id@ == "settings"@ {
            Some(MenuAction::Settings)
        } else if id@ == "quit"@ {
            Some(MenuAction::Quit)
        } else {
            None
        }),
{
    if same_text(id, "open") {
        Some(MenuAction::Open)
    } else if same_text(id, "settings") {
        Some(MenuAction::Settings)
    } else if same_text(id, "quit") {
        Some(MenuAction::Quit)
    } else {
        None
    }
}

/// Whether a click on the icon toggles the panel: a left click, on release. The right click
/// opens the menu.
pub fn click_toggles_panel(left_button: bool, released: bool) -> (toggles: bool)
    ensures
        toggles == (left_button && released),
{
    left_button && released
}

} // verus!
