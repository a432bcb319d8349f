//! The presentation options of a Hardcore break, AppKit's rules for combining them, and the
//! decisions taken around them while a break holds the screen.
use crate::ports::WindowId;
use crate::text::same_text;
use vstd::prelude::*;

verus! {

/// AppKit's `NSApplicationPresentationAutoHideDock`.
pub const AUTO_HIDE_DOCK: u64 = 1;
/// AppKit's `NSApplicationPresentationHideDock`.
pub const HIDE_DOCK: u64 = 2;
/// AppKit's `NSApplicationPresentationAutoHideMenuBar`.
pub const AUTO_HIDE_MENU_BAR: u64 = 4;
/// AppKit's `NSApplicationPresentationHideMenuBar`.
pub const HIDE_MENU_BAR: u64 = 8;
/// AppKit's `NSApplicationPresentationDisableAppleMenu`.
pub const DISABLE_APPLE_MENU: u64 = 16;
/// AppKit's `NSApplicationPresentationDisableProcessSwitching`.
pub const DISABLE_PROCESS_SWITCHING: u64 = 32;
/// AppKit's `NSApplicationPresentationDisableForceQuit`.
pub const DISABLE_FORCE_QUIT: u64 = 64;
/// AppKit's `NSApplicationPresentationDisableSessionTermination`.
pub const DISABLE_SESSION_TERMINATION: u64 = 128;
/// AppKit's `NSApplicationPresentationDisableHideApplication`.
pub const DISABLE_HIDE_APPLICATION: u64 = 256;
/// AppKit's `NSApplicationPresentationFullScreen`.
pub const FULL_SCREEN: u64 = 1024;
/// AppKit's `NSApplicationPresentationAutoHideToolbar`.
pub const AUTO_HIDE_TOOLBAR: u64 = 2048;

/// AppKit's `NSWindowCollectionBehaviorFullScreenPrimary`.
pub const FULL_SCREEN_PRIMARY: u64 = 128;
/// AppKit's `NSWindowCollectionBehaviorFullScreenAuxiliary`.
pub const FULL_SCREEN_AUXILIARY: u64 = 256;
/// AppKit's `NSWindowCollectionBehaviorFullScreenNone`.
pub const FULL_SCREEN_NONE: u64 = 512;

/// The bundle identifier of the session UI (Force Quit, shutdown dialog), never overridden.
pub const SESSION_UI: &'static str = "com.apple.loginwindow";

/// The AppKit window number of a window, to order a veil just above it; none where the
/// number does not fit an `isize`.
pub fn window_number(target: WindowId) -> (number: Option<isize>)
    ensures
        match number {
            Some(n) => n as int == target.0 as int,
            None => target.0 as int > isize::MAX as int,
        },
{
    if target.0 as u64 <= isize::MAX as u64 {
        Some(target.0 as isize)
    } else {
        None
    }
}

/// A set of presentation options, as AppKit's bit mask.
#[derive(Clone, Copy, PartialEq, Eq, Debug, Structural)]
pub struct PresentationOptions(pub u64);

/// Whether `options` holds at least one of the options of `set`.
pub open spec fn intersects(options: u64, set: u64) -> bool {
    options & set != 0
}

/// Whether `options` holds every option of `set`.
pub open spec fn holds_all(options: u64, set: u64) -> bool {
    options & set == set
}

/// AppKit's rules: an option on the left needs one on the right, and the two options of an
/// exclusive pair never come together.
pub open spec fn legal(options: u64) -> bool {
    &&& (intersects(options, HIDE_MENU_BAR) ==> intersects(options, HIDE_DOCK))
    &&& (intersects(
        options,
        AUTO_HIDE_MENU_BAR | DISABLE_PROCESS_SWITCHING | DISABLE_FORCE_QUIT | DISABLE_SESSION_TERMINATION,
    ) ==> intersects(options, HIDE_DOCK | AUTO_HIDE_DOCK))
    &&& (intersects(options, DISABLE_APPLE_MENU) ==> intersects(options, HIDE_MENU_BAR | AUTO_HIDE_MENU_BAR))
    &&& (intersects(options, AUTO_HIDE_TOOLBAR) ==> intersects(options, FULL_SCREEN))
    &&& !holds_all(options, HIDE_DOCK | AUTO_HIDE_DOCK)
    &&& !holds_all(options, HIDE_MENU_BAR | AUTO_HIDE_MENU_BAR)
}

/// Dock and menu bar hidden, process switching and hiding disabled.
pub open spec fn hardcore_bits() -> u64 {
    HIDE_DOCK | HIDE_MENU_BAR | DISABLE_PROCESS_SWITCHING | DISABLE_HIDE_APPLICATION
}

/// The options of a Hardcore break: Dock and menu bar hidden, process switching and
/// "Hide" disabled. Force Quit and session termination are never disabled, and the
/// combination is one AppKit accepts.
pub fn hardcore_options() -> (options: PresentationOptions)
    ensures
        options.0 == hardcore_bits(),
        holds_all(options.0, HIDE_DOCK),
        holds_all(options.0, HIDE_MENU_BAR),
        holds_all(options.0, DISABLE_PROCESS_SWITCHING),
        holds_all(options.0, DISABLE_HIDE_APPLICATION),
        !intersects(options.0, DISABLE_FORCE_QUIT),
        !intersects(options.0, DISABLE_SESSION_TERMINATION),
        legal(options.0),
{
    let bits: u64 = HIDE_DOCK | HIDE_MENU_BAR | DISABLE_PROCESS_SWITCHING | DISABLE_HIDE_APPLICATION;
    assert(bits == 298) by (bit_vector)
        requires
            bits == 2u64 | 8u64 | 32u64 | 256u64,
    ;
    assert(298u64 & 2u64 == 2u64 && 298u64 & 8u64 == 8u64 && 298u64 & 32u64 == 32u64
        && 298u64 & 256u64 == 256u64 && 298u64 & 64u64 == 0 && 298u64 & 128u64 == 0
        && 298u64 & (4u64 | 32u64 | 64u64 | 128u64) != 0 && 298u64 & (2u64 | 1u64) != 0
        && 298u64 & 16u64 == 0 && 298u64 & 2048u64 == 0
        && 298u64 & (2u64 | 1u64) != (2u64 | 1u64) && 298u64 & (8u64 | 4u64) != (8u64 | 4u64))
        by (bit_vector);
    PresentationOptions(bits)
}

/// The default presentation: nothing hidden, nothing disabled.
pub fn default_options() -> (options: PresentationOptions)
    ensures
        options.0 == 0,
        legal(options.0),
{
    assert(0u64 & 8u64 == 0 && 0u64 & (4u64 | 32u64 | 64u64 | 128u64) == 0 && 0u64 & 16u64 == 0
        && 0u64 & 2048u64 == 0 && 0u64 & (2u64 | 1u64) != (2u64 | 1u64)
        && 0u64 & (8u64 | 4u64) != (8u64 | 4u64)) by (bit_vector);
    PresentationOptions(0)
}

/// Whether AppKit accepts `options`: it raises an exception on a refused combination, so
/// the host checks before applying.
pub fn is_legal(options: PresentationOptions) -> (accepted: bool)
    ensures
        accepted == legal(options.0),
{
    let o: u64 = options.0;
    let menu_bar_needs_dock = (o & HIDE_MENU_BAR) == 0 || (o & HIDE_DOCK) != 0;
    let locks_need_dock = (o & (AUTO_HIDE_MENU_BAR | DISABLE_PROCESS_SWITCHING | DISABLE_FORCE_QUIT
        | DISABLE_SESSION_TERMINATION)) == 0 || (o & (HIDE_DOCK | AUTO_HIDE_DOCK)) != 0;
    let apple_menu_needs_menu_bar = (o & DISABLE_APPLE_MENU) == 0 || (o & (HIDE_MENU_BAR
        | AUTO_HIDE_MENU_BAR)) != 0;
    let toolbar_needs_full_screen = (o & AUTO_HIDE_TOOLBAR) == 0 || (o & FULL_SCREEN) != 0;
    let dock_exclusive = (o & (HIDE_DOCK | AUTO_HIDE_DOCK)) != (HIDE_DOCK | AUTO_HIDE_DOCK);
    let menu_bar_exclusive = (o & (HIDE_MENU_BAR | AUTO_HIDE_MENU_BAR)) != (HIDE_MENU_BAR
        | AUTO_HIDE_MENU_BAR);
    menu_bar_needs_dock && locks_need_dock && apple_menu_needs_menu_bar && toolbar_needs_full_screen
        && dock_exclusive && menu_bar_exclusive
}

/// A window's collection behaviour with the full-screen flags rewritten: it joins the space
/// of an app in native full screen as an auxiliary, and keeps every other flag.
pub open spec fn auxiliary_behavior(behavior: u64) -> u64 {
    (behavior & !FULL_SCREEN_PRIMARY & !FULL_SCREEN_NONE) | FULL_SCREEN_AUXILIARY
}

/// AppKit admits one full-screen flag only: the two others are removed, the auxiliary set.
pub fn join_full_screen_spaces(behavior: u64) -> (joined: u64)
    ensures
        joined == auxiliary_behavior(behavior),
{
    (behavior & !FULL_SCREEN_PRIMARY & !FULL_SCREEN_NONE) | FULL_SCREEN_AUXILIARY
}

/// What to do at a poll during a Hardcore break.
#[derive(Clone, Copy, PartialEq, Eq, Debug, Structural)]
pub struct HoldPlan {
    /// The Hardcore options are to be applied again.
    pub reapply_options: bool,
    /// The host and its shields are to be brought back forward.
    pub bring_forward: bool,
}

/// At each poll: the Hardcore options are applied again if something changed them; nothing
/// is brought forward while the host is active with a shield as key window, nor while the
/// session UI has the front; otherwise the host and its shields come back forward.
pub fn hold_plan(current: PresentationOptions, active: bool, key_is_shield: bool, session_ui_in_front: bool) -> (plan: HoldPlan)
    ensures
        plan.reapply_options == (current.0 != hardcore_bits()),
        plan.bring_forward == !((active && key_is_shield) || session_ui_in_front),
{
    let hardcore = hardcore_options();
    HoldPlan {
        reapply_options: current.0 != hardcore.0,
        bring_forward: !((active && key_is_shield) || session_ui_in_front),
    }
}

/// Whether the front application is the session UI, which the host never takes the front from.
pub fn session_ui_in_front(front_bundle: Option<&str>) -> (in_front: bool)
    ensures
        in_front == (match front_bundle {
            Some(bundle) => bundle@ == SESSION_UI@,
            None => false,
        }),
{
    match front_bundle {
        Some(bundle) => same_text(bundle, SESSION_UI),
        None => false,
    }
}

/// The front application to give the front back to after the break: none if it is the host
/// itself, or if either process identifier is unknown.
pub fn frontmost_other_app(front: Option<i32>, own: Option<i32>) -> (other: Option<i32>)
    ensures
        other == (match (front, own) {
            (Some(pid), Some(me)) => if pid != me { Some(pid) } else { None },
            _ => None,
        }),
{
    match (front, own) {
        (Some(pid), Some(me)) => if pid != me {
            Some(pid)
        } else {
            None
        },
        _ => None,
    }
}

/// At the end of a break, the front goes back to the previous application only if the host
/// still has it and that application still runs.
pub fn gives_front_back(host_active: bool, previous_running: bool) -> (gives: bool)
    ensures
        gives == (host_active && previous_running),
{
    host_active && previous_running
}

} // verus!
