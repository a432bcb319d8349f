use breeze::presentation::{
    default_options, frontmost_other_app, gives_front_back, hardcore_options, hold_plan, is_legal,
    join_full_screen_spaces, session_ui_in_front, PresentationOptions, AUTO_HIDE_DOCK,
    AUTO_HIDE_MENU_BAR, DISABLE_APPLE_MENU, DISABLE_FORCE_QUIT, DISABLE_HIDE_APPLICATION,
    DISABLE_PROCESS_SWITCHING, DISABLE_SESSION_TERMINATION, FULL_SCREEN, AUTO_HIDE_TOOLBAR,
    HIDE_DOCK, HIDE_MENU_BAR,
};

fn contains(options: PresentationOptions, flag: u64) -> bool {
    options.0 & flag == flag
}

#[test]
fn a_hardcore_break_hides_the_dock_and_menu_bar_and_disables_switching_and_hiding() {
    let options = hardcore_options();
    assert!(contains(options, HIDE_DOCK));
    assert!(contains(options, HIDE_MENU_BAR));
    assert!(contains(options, DISABLE_PROCESS_SWITCHING));
    assert!(contains(options, DISABLE_HIDE_APPLICATION));
}

#[test]
fn a_hardcore_break_never_disables_force_quit_nor_session_termination() {
    let options = hardcore_options();
    assert!(!contains(options, DISABLE_FORCE_QUIT));
    assert!(!contains(options, DISABLE_SESSION_TERMINATION));
}

#[test]
fn the_hardcore_options_are_a_combination_appkit_accepts() {
    assert!(is_legal(hardcore_options()));
    assert!(is_legal(default_options()));
}

#[test]
fn hiding_the_menu_bar_without_hiding_the_dock_is_refused() {
    assert!(!is_legal(PresentationOptions(HIDE_MENU_BAR)));
    assert!(!is_legal(PresentationOptions(HIDE_MENU_BAR | AUTO_HIDE_DOCK)));
}

#[test]
fn disabling_process_switching_needs_a_hidden_dock() {
    assert!(!is_legal(PresentationOptions(DISABLE_PROCESS_SWITCHING)));
    assert!(is_legal(PresentationOptions(
        DISABLE_PROCESS_SWITCHING | AUTO_HIDE_DOCK
    )));
}

#[test]
fn the_dock_cannot_be_both_hidden_and_auto_hidden() {
    assert!(!is_legal(PresentationOptions(HIDE_DOCK | AUTO_HIDE_DOCK)));
}

#[test]
fn the_menu_bar_cannot_be_both_hidden_and_auto_hidden() {
    assert!(!is_legal(PresentationOptions(
        HIDE_DOCK | HIDE_MENU_BAR | AUTO_HIDE_MENU_BAR
    )));
}

#[test]
fn disabling_the_apple_menu_needs_a_hidden_menu_bar() {
    assert!(!is_legal(PresentationOptions(DISABLE_APPLE_MENU | HIDE_DOCK)));
    assert!(is_legal(PresentationOptions(
        DISABLE_APPLE_MENU | HIDE_DOCK | HIDE_MENU_BAR
    )));
}

#[test]
fn auto_hiding_the_toolbar_needs_full_screen() {
    assert!(!is_legal(PresentationOptions(AUTO_HIDE_TOOLBAR)));
    assert!(is_legal(PresentationOptions(AUTO_HIDE_TOOLBAR | FULL_SCREEN)));
    assert!(!is_legal(PresentationOptions(AUTO_HIDE_MENU_BAR)));
    assert!(is_legal(PresentationOptions(AUTO_HIDE_MENU_BAR | AUTO_HIDE_DOCK)));
}

#[test]
fn the_hardcore_options_have_appkits_bit_values() {
    assert_eq!(hardcore_options().0, 2 | 8 | 32 | 256);
}

#[test]
fn joining_full_screen_spaces_keeps_every_other_flag() {
    // CanJoinAllSpaces (1) and FullScreenPrimary (128) and FullScreenNone (512).
    assert_eq!(join_full_screen_spaces(1 | 128 | 512), 1 | 256);
    assert_eq!(join_full_screen_spaces(0), 256);
}

#[test]
fn a_poll_reapplies_changed_options_and_brings_the_host_forward_when_it_lost_the_front() {
    let plan = hold_plan(hardcore_options(), true, true, false);
    assert!(!plan.reapply_options);
    assert!(!plan.bring_forward);
    let plan = hold_plan(default_options(), false, true, false);
    assert!(plan.reapply_options);
    assert!(plan.bring_forward);
    let plan = hold_plan(hardcore_options(), false, false, true);
    assert!(!plan.bring_forward);
    let plan = hold_plan(hardcore_options(), true, false, false);
    assert!(plan.bring_forward);
}

#[test]
fn the_session_ui_is_recognised_by_its_bundle() {
    assert!(session_ui_in_front(Some("com.apple.loginwindow")));
    assert!(!session_ui_in_front(Some("com.apple.Safari")));
    assert!(!session_ui_in_front(None));
}

#[test]
fn the_front_goes_back_only_to_another_running_app() {
    assert_eq!(frontmost_other_app(Some(42), Some(7)), Some(42));
    assert_eq!(frontmost_other_app(Some(7), Some(7)), None);
    assert_eq!(frontmost_other_app(None, Some(7)), None);
    assert_eq!(frontmost_other_app(Some(42), None), None);
    assert!(gives_front_back(true, true));
    assert!(!gives_front_back(false, true));
    assert!(!gives_front_back(true, false));
}
