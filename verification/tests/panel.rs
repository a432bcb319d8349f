use breeze::domain::Instant;
use breeze::panel::{toggle_action, PanelAction, PanelFocus, REOPEN_GUARD};
use breeze::tray::{click_toggles_panel, menu_action, MenuAction};

#[test]
fn a_click_right_after_a_blur_does_not_reopen_the_panel() {
    let mut focus = PanelFocus::new();
    assert!(!focus.just_hidden_by_blur(Instant { nanos: 0 }));
    focus.blurred(Instant { nanos: 1_000 });
    assert!(focus.just_hidden_by_blur(Instant { nanos: 1_000 + REOPEN_GUARD - 1 }));
    assert!(!focus.just_hidden_by_blur(Instant { nanos: 1_000 + REOPEN_GUARD }));
    assert_eq!(toggle_action(false, true), PanelAction::Nothing);
    assert_eq!(toggle_action(false, false), PanelAction::Show);
    assert_eq!(toggle_action(true, true), PanelAction::Hide);
}

#[test]
fn the_menu_entries_and_clicks_map_to_their_actions() {
    assert_eq!(menu_action("open"), Some(MenuAction::Open));
    assert_eq!(menu_action("settings"), Some(MenuAction::Settings));
    assert_eq!(menu_action("quit"), Some(MenuAction::Quit));
    assert_eq!(menu_action("other"), None);
    assert!(click_toggles_panel(true, true));
    assert!(!click_toggles_panel(true, false));
    assert!(!click_toggles_panel(false, true));
}
