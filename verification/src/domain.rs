//! The values of the break cycle that the host reads: phases, severities, calendar days and
//! clock readings, as plain data.
use vstd::prelude::*;

verus! {

/// How strictly a break is held.
#[derive(Clone, Copy, PartialEq, Eq, Debug, Structural)]
pub enum Severity {
    Simple,
    Hardcore,
}

/// What an application's windows go through during a break.
#[derive(Clone, Copy, PartialEq, Eq, Debug, Structural)]
pub enum AppStatus {
    Blocked,
    Spared,
    Ignored,
}

/// The phase the break cycle is in.
#[derive(Clone, Copy, PartialEq, Eq, Debug, Structural)]
pub enum CyclePhase {
    Inactive,
    Working,
    Notice,
    Break,
    Returning,
    Suspended,
}

/// Why a countdown stands still.
#[derive(Clone, Copy, PartialEq, Eq, Debug, Structural)]
pub enum FreezeReason {
    Idle,
    IgnoredApp,
}

/// How a Simple break covers the screen.
#[derive(Clone, Copy, PartialEq, Eq, Debug, Structural)]
pub enum VeilMode {
    Windows,
    FullScreen,
}

/// Why the cycle rests at this moment of the week.
#[derive(Clone, Copy, PartialEq, Eq, Debug, Structural)]
pub enum OffHours {
    InactiveDay,
    OutsideSchedule,
}

/// A day of the week.
#[derive(Clone, Copy, PartialEq, Eq, Debug, Structural)]
pub enum Weekday {
    Monday,
    Tuesday,
    Wednesday,
    Thursday,
    Friday,
    Saturday,
    Sunday,
}

/// When the cycle starts again: in how many days, on which weekday, at which minute.
#[derive(Clone, Copy, PartialEq, Eq, Debug, Structural)]
pub struct NextStart {
    pub days_ahead: u8,
    pub weekday: Weekday,
    pub minute_of_day: u16,
}

/// Why the cycle refused a command.
#[derive(Clone, Copy, PartialEq, Eq, Debug, Structural)]
pub enum CommandError {
    BreakDue,
    NotSuspendable,
    NotSuspended,
    NotInterruptible,
    LockedApp,
}

/// A reading of the monotonic clock, in nanoseconds since its origin.
#[derive(Clone, Copy, PartialEq, Eq, Debug, Structural)]
pub struct Instant {
    pub nanos: u64,
}

/// A reading of the wall clock, in nanoseconds since the Unix epoch.
#[derive(Clone, Copy, PartialEq, Eq, Debug, Structural)]
pub struct WallClock {
    pub nanos: u64,
}

/// Nanoseconds in a second.
pub const NANOS_PER_SECOND: u64 = 1_000_000_000;

/// Seconds in a minute.
pub const SECONDS_PER_MINUTE: u64 = 60;

/// Minutes in a day.
pub const MINUTES_PER_DAY: u64 = 1440;

impl Instant {
    /// The time from `earlier` to this reading, zero if `earlier` is not before it.
    pub fn elapsed_since(self, earlier: Instant) -> (nanos: u64)
        ensures
            nanos == (if self.nanos >= earlier.nanos { self.nanos - earlier.nanos } else { 0 }),
    {
        self.nanos.saturating_sub(earlier.nanos)
    }
}

impl WallClock {
    /// The wall time from `earlier` to this reading, zero if the clock went back.
    pub fn saturating_duration_since(self, earlier: WallClock) -> (nanos: u64)
        ensures
            nanos == (if self.nanos >= earlier.nanos { self.nanos - earlier.nanos } else { 0 }),
    {
        self.nanos.saturating_sub(earlier.nanos)
    }
}

} // verus!
