//! The library's narrow face onto the `chrono` crate: parsing formatted
//! date/time strings, rendering timestamps through `strftime`-style formats,
//! and reading the clocks.  Each function here is trusted; everything that
//! decides or computes on the returned plain values is verified elsewhere.

use vstd::prelude::*;
use core::fmt::Write;

verus! {

/// The smallest Unix second count `chrono` can hold in a `DateTime` (the year
/// -262143).
pub const CHRONO_MIN_UNIX_SECS: i64 = -8334601228800;

/// The largest Unix second count `chrono` can hold in a `DateTime` (the year
/// 262142).
pub const CHRONO_MAX_UNIX_SECS: i64 = 8210266876799;

/// What `chrono::DateTime::parse_from_str` yields on a text and format: the
/// parsed instant's Unix second count, its subsecond milliseconds and its UTC
/// offset in seconds, or `None` when the text does not match the format.
/// The result depends on the two strings alone.
pub uninterp spec fn parse_datetime(s: Seq<char>, fmt: Seq<char>) -> Option<(int, int, int)>;

/// What `chrono`'s `strftime`-style formatting renders for an instant (a Unix
/// second count) under a format string.  The result depends on the two
/// arguments alone.
pub uninterp spec fn format_of(unix_secs: int, fmt: Seq<char>) -> Seq<char>;

/// Whether a format string renders successfully for every in-range instant
/// (a format with only supported, offset-free specifiers does; one with an
/// unsupported or offset-demanding specifier does not).
pub uninterp spec fn strftime_ok(fmt: Seq<char>) -> bool;

/// Relies on `chrono::DateTime::parse_from_str`: parses text against a
/// `strftime`-style format into an instant with a fixed UTC offset.  The
/// subsecond milliseconds come from `timestamp_subsec_millis`, which exceeds
/// 999 only during a leap second; the offset of a parsed `FixedOffset` is
/// strictly below one day; and the instant lies within a day of `chrono`'s
/// representable datetime range.
#[verifier::external_body]
pub(crate) fn parse_with_format(s: &str, fmt: &str) -> (r: Option<(i64, u32, i32)>)
    ensures
        r is Some <==> parse_datetime(s@, fmt@) is Some,
        r matches Some(p) ==> parse_datetime(s@, fmt@) == Some(
            (p.0 as int, p.1 as int, p.2 as int),
        ),
        r matches Some(p) ==> CHRONO_MIN_UNIX_SECS - 86400 <= p.0 <= CHRONO_MAX_UNIX_SECS + 86400
            && p.1 < 2000 && -86400 < p.2 < 86400,
{
    match chrono::DateTime::parse_from_str(s, fmt) {
        Ok(dt) => Some((dt.timestamp(), dt.timestamp_subsec_millis(), dt.offset().local_minus_utc())),
        Err(_) => None,
    }
}

/// Relies on `chrono::DateTime::from_timestamp` and `chrono`'s `strftime`
/// formatting of the naive datetime: `from_timestamp` returns a datetime
/// exactly for second counts within `chrono`'s range, and a format whose
/// specifiers are all supported renders every such datetime.  A failed render
/// leaves nothing behind.
#[verifier::external_body]
pub(crate) fn format_unix_timestamp(secs: i64, fmt: &str) -> (r: Option<String>)
    ensures
        r matches Some(out) ==> out@ == format_of(secs as int, fmt@),
        r is Some ==> CHRONO_MIN_UNIX_SECS <= secs <= CHRONO_MAX_UNIX_SECS,
        (CHRONO_MIN_UNIX_SECS <= secs <= CHRONO_MAX_UNIX_SECS && strftime_ok(fmt@)) ==> r is Some,
{
    let dt = match chrono::DateTime::from_timestamp(secs, 0) {
        Some(d) => d,
        None => return None,
    };
    let mut out = String::new();
    match write!(out, "{}", dt.naive_utc().format(fmt)) {
        Ok(()) => Some(out),
        Err(_) => None,
    }
}

#[verifier::external_type_specification]
#[verifier::external_body]
pub struct ExTimeDelta(chrono::TimeDelta);

/// Relies on `chrono::TimeDelta::num_seconds`: the duration's length in whole
/// seconds.
#[verifier::external_body]
fn time_delta_whole_seconds(d: &chrono::TimeDelta) -> i64 {
    chrono::TimeDelta::num_seconds(d)
}

impl crate::time::ImplsDuration for chrono::TimeDelta {
    fn num_seconds(&self) -> i64 {
        time_delta_whole_seconds(self)
    }
}

pub assume_specification [ core::time::Duration::as_secs ] (d: &core::time::Duration) -> u64;

impl crate::time::ImplsDuration for core::time::Duration {
    /// The duration's length in whole seconds, saturated into the signed
    /// range.
    fn num_seconds(&self) -> i64 {
        let s = self.as_secs();
        if s > (i64::MAX as u64) {
            i64::MAX
        } else {
            s as i64
        }
    }
}

/// Relies on `chrono::Utc::now`: reads the system clock as UTC.  Any returned
/// instant lies within `chrono`'s representable range, and the subsecond
/// milliseconds exceed 999 only during a leap second.  A platform clock
/// outside that range fails the read inside `chrono` and aborts: a platform
/// clock read failure is the one unrecoverable condition of the clock
/// sources.
#[verifier::external_body]
pub(crate) fn utc_now_parts() -> (r: (i64, u32))
    ensures
        CHRONO_MIN_UNIX_SECS <= r.0 <= CHRONO_MAX_UNIX_SECS,
        r.1 < 2000,
{
    let now = chrono::Utc::now();
    (now.timestamp(), now.timestamp_subsec_millis())
}

/// Relies on `chrono::Local::now`: reads the system clock together with the
/// configured local UTC offset.  The instant lies within `chrono`'s
/// representable range, the subsecond milliseconds exceed 999 only during a
/// leap second, and a `FixedOffset` is strictly below one day.  A platform
/// clock outside the range fails the read inside `chrono` and aborts, the one
/// unrecoverable condition of the clock sources.
#[verifier::external_body]
pub(crate) fn local_now_parts() -> (r: (i64, u32, i32))
    ensures
        CHRONO_MIN_UNIX_SECS <= r.0 <= CHRONO_MAX_UNIX_SECS,
        r.1 < 2000,
        -86400 < r.2 < 86400,
{
    let now = chrono::Local::now();
    (now.timestamp(), now.timestamp_subsec_millis(), now.offset().local_minus_utc())
}

} // verus!
