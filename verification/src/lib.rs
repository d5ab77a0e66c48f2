//! A small time-representation and conversion library.
//!
//! Two time sources — the local system clock and a network-time-protocol
//! reading — produce immutable time values counted in whole seconds and
//! subsecond milliseconds since 1601-01-01T00:00:00Z, the epoch shared with
//! Windows file times.  The values convert to and from several historical
//! epochs (Unix 1970, Mac OS 1904, Mac OS Absolute 2001, SAS 1960, NTP 1900),
//! support flat second arithmetic, comparison, and timezone retagging, and
//! format through the `chrono` crate.

use vstd::prelude::*;

pub mod chrono_api;
pub mod epoch;
pub mod ntp;
pub mod strings;
pub mod system;
pub mod time;
pub mod timezones;

pub use ntp::Ntp;
pub use system::System;
pub use time::{ImplsDuration, IntTime, StrTime, Time, TimeDiff};
pub use timezones::Tz;

verus! {

/// Offset between the NTP reference epoch (1900-01-01) and the Unix epoch
/// (1970-01-01), in seconds.
pub const REF_TIME_1970: u64 = 2208988800;

/// Offset between the library's native epoch (1601-01-01) and the Unix epoch
/// (1970-01-01), in seconds.
pub const OFFSET_1601: u64 = 11644473600;

/// Offset between the SAS 4GL epoch (1960-01-01) and the Unix epoch, in
/// seconds.
pub const MAGIC_SAS_4GL: i64 = 315619200;

/// Offset between the Mac OS epoch (1904-01-01) and the Unix epoch, in
/// seconds.
pub const MAGIC_MAC_OS: i64 = 2082844800;

/// Offset between the Mac OS Absolute epoch (2001-01-01) and the Unix epoch,
/// in seconds.
pub const MAGIC_MAC_OS_CFA: i64 = 978307200;

/// Returns the current time in seconds since the Unix epoch, read from the
/// system clock.
pub fn now() -> (r: i64)
    ensures
        -(OFFSET_1601 as int) <= r <= chrono_api::CHRONO_MAX_UNIX_SECS,
{
    System::now().unix()
}

/// Whether a time lies in the past, the present or the future, relative to
/// another time.
#[derive(Debug, Clone, Copy, PartialEq, Eq, Structural)]
pub enum RelativeTime {
    Past,
    Present,
    Future,
}

impl RelativeTime {
    /// The lower-case English word for this variant.
    pub fn name(&self) -> (r: &'static str)
        ensures
            self is Past ==> r@ == "past"@,
            self is Present ==> r@ == "present"@,
            self is Future ==> r@ == "future"@,
    {
        match self {
            RelativeTime::Past => "past",
            RelativeTime::Present => "present",
            RelativeTime::Future => "future",
        }
    }
}

/// The mathematical model of a time value: whole seconds since
/// 1601-01-01T00:00:00Z in UTC, subsecond milliseconds, and the UTC offset
/// (in seconds east) the value is tagged to be displayed in.
pub ghost struct TimeView {
    pub secs: int,
    pub ms: int,
    pub offset: int,
}

impl TimeView {
    /// The raw combined millisecond count since 1601, the sole basis for
    /// equality, ordering and difference between time values.
    pub open spec fn raw_ms(self) -> int {
        self.secs * 1000 + self.ms
    }

    /// Seconds since the Unix epoch (1970-01-01T00:00:00Z); negative for
    /// earlier instants.
    pub open spec fn unix_secs(self) -> int {
        self.secs - OFFSET_1601
    }

    /// Milliseconds since the Unix epoch.
    pub open spec fn unix_ms(self) -> int {
        self.raw_ms() - OFFSET_1601 * 1000
    }

    /// The Unix-relative second count shifted into the value's display
    /// timezone; this is what formatting renders as a wall-clock date.
    pub open spec fn display_unix_secs(self) -> int {
        self.unix_secs() + self.offset
    }

    /// Every time value keeps its milliseconds under one second, its offset
    /// under a day, and its raw count within a machine word.
    pub open spec fn wf(self) -> bool {
        &&& 0 <= self.secs
        &&& 0 <= self.ms < 1000
        &&& -86400 < self.offset < 86400
        &&& self.raw_ms() <= u64::MAX
    }
}

/// How two raw millisecond counts compare: the first is in the past, present
/// or future of the second.
pub open spec fn relative_order(a: int, b: int) -> RelativeTime {
    if a < b {
        RelativeTime::Past
    } else if a > b {
        RelativeTime::Future
    } else {
        RelativeTime::Present
    }
}

/// The comparison of two time values is antisymmetric: one sees the other in
/// its past exactly when the other sees it in its future, and they see each
/// other in the present exactly when their raw counts are equal.
pub proof fn lemma_relative_order_antisymmetric(a: int, b: int)
    ensures
        relative_order(a, b) is Past <==> relative_order(b, a) is Future,
        relative_order(a, b) is Present <==> a == b,
{
}

/// Unix milliseconds round-trip: taking a value's Unix millisecond count and
/// rebasing it onto the 1601 epoch recovers the raw millisecond count
/// exactly, for every well-formed value.
pub proof fn lemma_unix_ms_round_trip(v: TimeView)
    requires
        v.wf(),
    ensures
        v.unix_ms() + OFFSET_1601 * 1000 == v.raw_ms(),
{
}

/// Unix seconds round-trip: taking a value's Unix second count and rebuilding
/// a value from it (as `IntTime::unix` does, scaling the rebased count to
/// milliseconds) recovers the raw millisecond count exactly, for every
/// well-formed value on a whole second.  A value with a nonzero millisecond
/// part loses it here, since the second count cannot carry it.
pub proof fn lemma_unix_secs_round_trip(v: TimeView)
    requires
        v.wf(),
        v.ms == 0,
    ensures
        (v.unix_secs() + OFFSET_1601) * 1000 == v.raw_ms(),
{
}

/// Retagging a value's timezone twice leaves the raw instant unchanged, and
/// retagging back to the original offset restores the original value
/// entirely: the round trip through another timezone is lossless.  Since the
/// raw count is the sole basis of comparison, a retagged value and the
/// original stand in each other's present.
pub proof fn lemma_change_tz_round_trip(v: TimeView, first: int, second: int)
    ensures
        (TimeView { offset: second, ..(TimeView { offset: first, ..v }) }).raw_ms() == v.raw_ms(),
        (TimeView { offset: v.offset, ..(TimeView { offset: first, ..v }) }) == v,
        relative_order((TimeView { offset: first, ..v }).raw_ms(), v.raw_ms()) is Present,
{
}

} // verus!
