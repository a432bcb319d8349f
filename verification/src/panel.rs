//! The panel under the menu-bar icon: when a click shows it, hides it, or does nothing.
use crate::domain::Instant;
use vstd::prelude::*;

verus! {

/// After the panel hid on losing focus, a click within this time (nanoseconds, 300 ms) does
/// not reopen it: a click on the icon first takes the focus away, then arrives as a click.
pub const REOPEN_GUARD: u64 = 300_000_000;

/// When the panel last hid on losing focus.
#[derive(Clone, Copy, PartialEq, Eq, Debug, Default)]
pub struct PanelFocus {
    blurred_at: Option<Instant>,
}

/// What a click on the icon does to the panel.
#[derive(Clone, Copy, PartialEq, Eq, Debug, Structural)]
pub enum PanelAction {
    Hide,
    Show,
    Nothing,
}

impl PanelFocus {
    /// When the panel last hid on losing focus.
    pub closed spec fn last_blur(&self) -> Option<Instant> {
        self.blurred_at
    }

    /// The panel never lost focus yet.
    pub fn new() -> (focus: PanelFocus)
        ensures
            focus.last_blur() is None,
    {
        PanelFocus { blurred_at: None }
    }

    /// The panel lost focus at `now` and hid.
    pub fn blurred(&mut self, now: Instant)
        ensures
            final(self).last_blur() == Some(now),
    {
        self.blurred_at = Some(now);
    }

    /// Whether the panel hid on losing focus less than `REOPEN_GUARD` before `now`.
    pub fn just_hidden_by_blur(&self, now: Instant) -> (just: bool)
        ensures
            just == (match self.last_blur() {
                Some(at) => (if now.nanos >= at.nanos { now.nanos - at.nanos } else { 0 }) < REOPEN_GUARD,
                None => false,
            }),
    {
        match self.blurred_at {
            Some(at) => now.elapsed_since(at) < REOPEN_GUARD,
            None => false,
        }
    }
}

/// A click on the icon or the shortcut: a visible panel hides; a hidden one shows, unless it
/// has just hidden on losing focus to that very click.
pub fn toggle_action(visible: bool, just_hidden: bool) -> (action: PanelAction)
    ensures
        visible ==> action == PanelAction::Hide,
        !visible && !just_hidden ==> action == PanelAction::Show,
        !visible && just_hidden ==> action == PanelAction::Nothing,
{
    if visible {
        PanelAction::Hide
    } else if !just_hidden {
        PanelAction::Show
    } else {
        PanelAction::Nothing
    }
}

} // verus!
