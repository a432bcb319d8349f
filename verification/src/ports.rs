//! The values exchanged with the platform adapters, and the capabilities they offer.
use crate::domain::Severity;
use vstd::prelude::*;

verus! {

/// Whether the platform has granted the accessibility permission.
#[derive(Clone, Copy, PartialEq, Eq, Debug, Structural)]
pub enum PermissionStatus {
    Granted,
    Denied,
    Unknown,
}

/// How reliably break surfaces stay above everything else.
#[derive(Clone, Copy, PartialEq, Eq, Debug, Structural)]
pub enum OverlayCapability {
    Layered,
    BestEffort,
    PlainFullscreen,
}

/// The identifier of a screen, stable for a given screen at a given place.
#[derive(Clone, Copy, PartialEq, Eq, Debug, Hash, Structural)]
pub struct DisplayId(pub u32);

/// A rectangle in the global screen space: origin, then size.
#[derive(Clone, Copy, PartialEq, Eq, Debug, Structural)]
pub struct Rect {
    pub x: i32,
    pub y: i32,
    pub width: u32,
    pub height: u32,
}

/// A screen and where it lies.
#[derive(Clone, Copy, PartialEq, Eq, Debug, Structural)]
pub struct Display {
    pub id: DisplayId,
    pub bounds: Rect,
}

/// The number the system gives a window, stable while the window exists.
#[derive(Clone, Copy, PartialEq, Eq, PartialOrd, Ord, Debug, Hash, Structural)]
pub struct WindowId(pub u32);

/// The identifier of a break surface, issued by the overlay.
#[derive(Clone, Copy, PartialEq, Eq, Debug, Hash, Structural)]
pub struct SurfaceId(pub u64);

/// A full-screen break surface: an opaque Hardcore shield, or a Simple veil.
#[derive(Clone, Copy, PartialEq, Eq, Debug, Structural)]
pub enum SurfaceKind {
    Hardcore,
    Veil,
}

/// The session does not expose window frames, or reading them failed.
#[derive(Clone, Copy, PartialEq, Eq, Debug, Structural)]
pub struct FramesUnobservable;

/// A failed read or write of the store, with its message.
#[derive(Clone, PartialEq, Eq, Debug)]
pub struct PersistenceError(pub String);

/// The journal's totals for one local day.
#[derive(Clone, PartialEq, Eq, Debug, Default)]
pub struct LedgerDay {
    pub local_date: String,
    pub served: u32,
    pub interrupted: u32,
    pub validated: u32,
    pub served_seconds: u64,
    pub emergency_exits: u32,
    pub emergency_unserved_seconds: u64,
}

impl LedgerDay {
    /// A field-for-field copy of this day.
    pub fn duplicate(&self) -> (copy: LedgerDay)
        ensures
            copy == *self,
    {
        LedgerDay {
            local_date: self.local_date.clone(),
            served: self.served,
            interrupted: self.interrupted,
            validated: self.validated,
            served_seconds: self.served_seconds,
            emergency_exits: self.emergency_exits,
            emergency_unserved_seconds: self.emergency_unserved_seconds,
        }
    }
}

/// The state the host writes to its store: chosen rhythm and severity, counters, dated debt.
#[derive(Clone, Copy, PartialEq, Eq, Debug, Structural)]
pub struct PersistedState {
    pub work_minutes: u16,
    pub pause_minutes: u16,
    pub severity: Severity,
    pub served_breaks: u32,
    pub debt_seconds: u32,
    pub debt_recorded_at_unix: u64,
    pub active_days: u8,
    pub schedule_start: Option<u16>,
    pub schedule_end: Option<u16>,
}

/// The platform's accessibility permission.
pub trait AccessibilityPermissionPort {
    fn status(&self) -> PermissionStatus;

    /// Opens the system prompt; neither blocks nor guarantees the grant.
    fn request(&self);
}

/// The screens currently attached.
pub trait DisplayEnumerationPort {
    fn displays(&self) -> Vec<Display>;
}

/// The surfaces that cover screens and windows during a break.
pub trait OverlaySurfacesPort {
    fn cover_display(&mut self, display: DisplayId, kind: SurfaceKind) -> SurfaceId;

    /// A veil over one window, at the given frame (points, global space).
    fn cover_window(&mut self, window: WindowId, frame: Rect) -> SurfaceId;

    /// Follows a moved or resized window without recreating its surface.
    fn reframe(&mut self, surface: SurfaceId, frame: Rect);

    fn dismiss(&mut self, surface: SurfaceId);

    fn dismiss_all(&mut self);

    fn capability(&self) -> OverlayCapability;
}

/// What the platform takes away around the surfaces of a Hardcore break.
pub trait PresentationLockPort {
    /// Entering the break: removes what can be removed and brings the host forward.
    fn lock(&mut self);

    /// At each poll during the break: the host is brought back forward if it lost the front.
    fn hold(&mut self);

    /// Leaving the break, once: the presentation is given back as it was.
    fn release(&mut self);
}

} // verus!
