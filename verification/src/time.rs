//! The shared capability set of the library's time sources, together with the
//! parsing, arithmetic, comparison and conversion contracts every source
//! satisfies.

use vstd::prelude::*;
use vstd::pervasive::unreached;
use vstd::arithmetic::div_mod::lemma_fundamental_div_mod_converse;

use crate::{RelativeTime, TimeView, relative_order};
use crate::{MAGIC_MAC_OS, MAGIC_MAC_OS_CFA, MAGIC_SAS_4GL, OFFSET_1601};
use crate::chrono_api::{
    format_unix_timestamp, format_of, parse_datetime, parse_with_format, strftime_ok,
    local_now_parts, CHRONO_MAX_UNIX_SECS, CHRONO_MIN_UNIX_SECS,
};
use crate::strings::{
    contains_substring, dec_seq, has_substring, offset_str_seq, offset_string, parse_offset,
    parse_offset_seq, u64_dec_string, valid_offset_str,
};
use crate::timezones::Tz;

verus! {

/// What parsing a text under a format yields once the automatic retry is
/// taken into account: the direct parse where it succeeds; otherwise, for a
/// format without an explicit UTC-offset field, the parse of the text with
/// `" +0000"` appended against the format with `"%z"` appended; otherwise
/// nothing.
pub open spec fn strptime_result(s: Seq<char>, fmt: Seq<char>) -> Option<(int, int, int)> {
    if parse_datetime(s, fmt) is Some {
        parse_datetime(s, fmt)
    } else if !has_substring(fmt, "%z"@) {
        parse_datetime(s + " +0000"@, fmt + "%z"@)
    } else {
        None
    }
}

/// Whether a text parses under a format, counting the automatic offset
/// retry.  Parsing an input for which this does not hold is a fatal error.
pub open spec fn can_strptime(s: Seq<char>, fmt: Seq<char>) -> bool {
    strptime_result(s, fmt) is Some
}

/// The time value built from a parsed instant: the Unix second count is
/// rebased onto the 1601 epoch, instants before 1601 clamp to the epoch
/// start, and a leap-second millisecond count clamps to 999.
pub open spec fn view_from_parts(ts: int, ms: int, off: int) -> TimeView {
    if ts + OFFSET_1601 < 0 {
        TimeView { secs: 0, ms: 0, offset: off }
    } else {
        TimeView {
            secs: ts + OFFSET_1601,
            ms: if ms > 999 {
                999
            } else {
                ms
            },
            offset: off,
        }
    }
}

/// The time value that parsing a text under a format produces, where
/// `can_strptime` holds.
pub open spec fn strptime_view(s: Seq<char>, fmt: Seq<char>) -> TimeView {
    let (ts, ms, off) = strptime_result(s, fmt)->0;
    view_from_parts(ts, ms, off)
}

/// The absolute difference of two counts.
pub open spec fn abs_diff(a: int, b: int) -> int {
    if a >= b {
        a - b
    } else {
        b - a
    }
}

/// Adding a flat number of seconds to a value and then taking the difference
/// in seconds against the original yields exactly the number added, whichever
/// way round the difference is taken.
pub proof fn lemma_add_then_diff(v: TimeView, s: int)
    ensures
        abs_diff(v.raw_ms() + s * 1000, v.raw_ms()) / 1000 == abs_diff(s, 0),
        abs_diff(v.raw_ms(), v.raw_ms() + s * 1000) / 1000 == abs_diff(s, 0),
{
    let m = abs_diff(s, 0);
    assert(abs_diff(v.raw_ms() + s * 1000, v.raw_ms()) == m * 1000);
    assert(abs_diff(v.raw_ms(), v.raw_ms() + s * 1000) == m * 1000);
    lemma_fundamental_div_mod_converse(m * 1000, 1000, m, 0);
}

/// Splitting a well-formed view's raw millisecond count back into seconds and
/// milliseconds recovers its fields.
pub proof fn lemma_raw_ms_split(v: TimeView)
    requires
        0 <= v.ms < 1000,
        0 <= v.secs,
    ensures
        v.raw_ms() / 1000 == v.secs,
        v.raw_ms() % 1000 == v.ms,
{
    lemma_fundamental_div_mod_converse(v.raw_ms(), 1000, v.secs, v.ms);
}

/// Shifting a count by a whole number of seconds keeps its millisecond
/// remainder.
pub proof fn lemma_ms_shift_keeps_remainder(raw: int, s: int)
    ensures
        (raw + 1000 * s) % 1000 == raw % 1000,
{
    vstd::arithmetic::div_mod::lemma_mod_multiples_vanish(s, raw, 1000);
}

/// Clamps and rebases one reading — a Unix second count, subsecond
/// milliseconds and a UTC offset, as a clock or the parser hands them out —
/// into the fields of a time value, exactly as [`view_from_parts`] states.
pub(crate) fn normalize_reading(ts: i64, ms: u32, off: i32) -> (r: (u64, u32, i32))
    requires
        ts + OFFSET_1601 <= i64::MAX,
    ensures
        (TimeView { secs: r.0 as int, ms: r.1 as int, offset: r.2 as int }) == view_from_parts(
            ts as int,
            ms as int,
            off as int,
        ),
        r.1 < 1000,
        r.2 == off,
{
    let base: i64 = ts + OFFSET_1601 as i64;
    if base < 0 {
        (0u64, 0u32, off)
    } else {
        let m: u32 = if ms > 999 {
            999
        } else {
            ms
        };
        (base as u64, m, off)
    }
}

/// Resolves a text and format to the parsed parts of a time value, applying
/// the automatic `" +0000"` retry for formats without an offset field: the
/// seconds since 1601, the subsecond milliseconds, and the parsed UTC offset.
pub(crate) fn strptime_parts(s: &str, format: &str) -> (r: (u64, u32, i32))
    requires
        can_strptime(s@, format@),
    ensures
        (TimeView { secs: r.0 as int, ms: r.1 as int, offset: r.2 as int }) == strptime_view(
            s@,
            format@,
        ),
        r.1 < 1000,
        -86400 < r.2 < 86400,
        r.0 <= CHRONO_MAX_UNIX_SECS + 86400 + OFFSET_1601,
{
    let parsed: (i64, u32, i32) = match parse_with_format(s, format) {
        Some(p) => p,
        None => {
            if contains_substring(format, "%z") {
                return unreached();
            }
            let s2 = String::from_str(s).concat(" +0000");
            let f2 = String::from_str(format).concat("%z");
            match parse_with_format(s2.as_str(), f2.as_str()) {
                Some(p) => p,
                None => {
                    return unreached();
                },
            }
        },
    };
    normalize_reading(parsed.0, parsed.1, parsed.2)
}

/// A duration-like value that knows its length in whole seconds; implemented
/// for the duration types of `chrono` and of the standard library so either
/// can be added to a time value.
pub trait ImplsDuration {
    fn num_seconds(&self) -> i64;
}

/// The uniform contract of the library's time sources.  A time value is
/// immutable: every operation returns a fresh value.  Its model is a
/// [`TimeView`]: whole seconds since 1601-01-01T00:00:00Z, subsecond
/// milliseconds, and the UTC offset the value is displayed in.  The raw
/// millisecond count is independent of the display offset and is the sole
/// basis for equality, ordering and difference.
pub trait Time: Sized {
    /// The mathematical value of this time.
    spec fn tv(&self) -> TimeView;

    /// A fresh reading from this source's origin.
    fn now() -> (r: Self)
        ensures
            r.tv().wf(),
            r.tv().secs <= CHRONO_MAX_UNIX_SECS + OFFSET_1601,
    ;

    /// Parses a formatted date/time string.  A format without an explicit
    /// UTC-offset field is retried once with `" +0000"` appended to the text
    /// and `"%z"` to the format; an input that still does not parse is left
    /// out by the precondition, and calling on it anyway is a fatal error.
    /// [`Time::try_strptime`] is the total variant.
    fn strptime(s: &str, format: &str) -> (r: Self)
        requires
            can_strptime(s@, format@),
        ensures
            r.tv() == strptime_view(s@, format@),
            r.tv().wf(),
    ;

    /// The value with the given raw millisecond count since 1601, displayed
    /// in UTC.
    fn from_epoch(timestamp: u64) -> (r: Self)
        ensures
            r.tv() == (TimeView {
                secs: timestamp as int / 1000,
                ms: timestamp as int % 1000,
                offset: 0,
            }),
            r.tv().raw_ms() == timestamp,
            r.tv().wf(),
    ;

    /// The value with the given raw millisecond count since 1601, displayed
    /// in the given UTC offset.
    fn from_epoch_offset(timestamp: u64, offset: i32) -> (r: Self)
        requires
            -86400 < offset < 86400,
        ensures
            r.tv() == (TimeView {
                secs: timestamp as int / 1000,
                ms: timestamp as int % 1000,
                offset: offset as int,
            }),
            r.tv().raw_ms() == timestamp,
            r.tv().wf(),
    ;

    /// The raw millisecond count since 1601.
    fn raw(&self) -> (r: u64)
        requires
            self.tv().wf(),
        ensures
            r as int == self.tv().raw_ms(),
    ;

    /// The UTC offset, in seconds east, this value is displayed in.
    fn utc_offset(&self) -> (r: i32)
        ensures
            r as int == self.tv().offset,
    ;

    /// Parses a formatted date/time string, with the same automatic retry as
    /// [`Time::strptime`], returning `None` instead of failing fatally on an
    /// input that does not parse.
    fn try_strptime(s: &str, format: &str) -> (r: Option<Self>)
        ensures
            r is Some <==> can_strptime(s@, format@),
            r matches Some(v) ==> v.tv() == strptime_view(s@, format@) && v.tv().wf(),
    {
        let direct = parse_with_format(s, format);
        if direct.is_some() {
            Some(Self::strptime(s, format))
        } else if !contains_substring(format, "%z") {
            let s2 = String::from_str(s).concat(" +0000");
            let f2 = String::from_str(format).concat("%z");
            let retry = parse_with_format(s2.as_str(), f2.as_str());
            if retry.is_some() {
                Some(Self::strptime(s, format))
            } else {
                None
            }
        } else {
            None
        }
    }

    /// Seconds since the Unix epoch (1970-01-01T00:00:00Z); negative before
    /// it.
    fn unix(&self) -> (r: i64)
        requires
            self.tv().wf(),
            self.tv().secs <= i64::MAX,
        ensures
            r == self.tv().unix_secs(),
    {
        let rs = self.raw() / 1000;
        proof {
            lemma_raw_ms_split(self.tv());
        }
        (rs as i64) - (OFFSET_1601 as i64)
    }

    /// Milliseconds since the Unix epoch.
    fn unix_ms(&self) -> (r: i64)
        requires
            self.tv().wf(),
            self.tv().raw_ms() <= i64::MAX,
        ensures
            r == self.tv().unix_ms(),
    {
        (self.raw() as i64) - (OFFSET_1601 as i64) * 1000
    }

    /// The raw millisecond count since 1601 as a signed value; the native
    /// epoch shared with Windows file times.
    fn epoch(&self) -> (r: i64)
        requires
            self.tv().wf(),
            self.tv().raw_ms() <= i64::MAX,
        ensures
            r == self.tv().raw_ms(),
    {
        self.unix_ms() + (OFFSET_1601 as i64) * 1000
    }

    /// 100-nanosecond ticks since 1601, the Windows file time unit: the raw
    /// millisecond count scaled by ten thousand.
    fn windows_ns(&self) -> (r: i64)
        requires
            self.tv().wf(),
            self.tv().raw_ms() * 10000 <= i64::MAX,
        ensures
            r == self.tv().raw_ms() * 10000,
    {
        self.epoch() * 10000
    }

    /// Microseconds since 1601, the WebKit timestamp unit: the raw
    /// millisecond count scaled by a thousand.
    fn webkit(&self) -> (r: i64)
        requires
            self.tv().wf(),
            self.tv().raw_ms() * 1000 <= i64::MAX,
        ensures
            r == self.tv().raw_ms() * 1000,
    {
        self.epoch() * 1000
    }

    /// Seconds since the Mac OS epoch (1904-01-01T00:00:00Z).
    fn mac_os(&self) -> (r: i64)
        requires
            self.tv().wf(),
            self.tv().secs <= i64::MAX,
        ensures
            r == self.tv().unix_secs() + MAGIC_MAC_OS,
    {
        self.unix() + MAGIC_MAC_OS
    }

    /// Seconds since the Mac OS Absolute epoch (2001-01-01T00:00:00Z);
    /// negative before it.
    fn mac_os_cfa(&self) -> (r: i64)
        requires
            self.tv().wf(),
            self.tv().secs <= i64::MAX,
        ensures
            r == self.tv().unix_secs() - MAGIC_MAC_OS_CFA,
    {
        self.unix() - MAGIC_MAC_OS_CFA
    }

    /// Seconds since the SAS 4GL epoch (1960-01-01T00:00:00Z).
    fn sas_4gl(&self) -> (r: i64)
        requires
            self.tv().wf(),
            self.tv().secs <= i64::MAX,
        ensures
            r == self.tv().unix_secs() + MAGIC_SAS_4GL,
    {
        self.unix() + MAGIC_SAS_4GL
    }

    /// Renders the value through a `strftime`-style format, shifted into its
    /// display offset.  A format with an unsupported specifier yields the
    /// empty string; any other format yields exactly the external rendering.
    fn strftime(&self, format: &str) -> (r: String)
        requires
            self.tv().wf(),
            CHRONO_MIN_UNIX_SECS <= self.tv().display_unix_secs() <= CHRONO_MAX_UNIX_SECS,
        ensures
            strftime_ok(format@) ==> r@ == format_of(self.tv().display_unix_secs(), format@),
            r@ == format_of(self.tv().display_unix_secs(), format@) || r@ == Seq::<char>::empty(),
    {
        let rs = self.raw() / 1000;
        proof {
            lemma_raw_ms_split(self.tv());
        }
        let off = self.utc_offset();
        let display: i64 = (rs as i64) - (OFFSET_1601 as i64) + (off as i64);
        match format_unix_timestamp(display, format) {
            Some(out) => out,
            None => String::new(),
        }
    }

    /// The value rendered as `YYYY-MM-DD HH:MM:SS` in its display offset.
    fn pretty(&self) -> (r: String)
        requires
            self.tv().wf(),
            CHRONO_MIN_UNIX_SECS <= self.tv().display_unix_secs() <= CHRONO_MAX_UNIX_SECS,
        ensures
            strftime_ok("%Y-%m-%d %H:%M:%S"@) ==> r@ == format_of(
                self.tv().display_unix_secs(),
                "%Y-%m-%d %H:%M:%S"@,
            ),
            r@ == format_of(self.tv().display_unix_secs(), "%Y-%m-%d %H:%M:%S"@) || r@
                == Seq::<char>::empty(),
    {
        self.strftime("%Y-%m-%d %H:%M:%S")
    }

    /// The value rendered in an ISO-8601-like form: the date and time down to
    /// seconds, a dot, and the raw subsecond millisecond count.
    fn iso8601(&self) -> (r: String)
        requires
            self.tv().wf(),
            CHRONO_MIN_UNIX_SECS <= self.tv().display_unix_secs() <= CHRONO_MAX_UNIX_SECS,
        ensures
            strftime_ok("%Y-%m-%d %H:%M:%S."@) ==> r@ == format_of(
                self.tv().display_unix_secs(),
                "%Y-%m-%d %H:%M:%S."@,
            ) + dec_seq(self.tv().ms as nat),
            r@ == format_of(self.tv().display_unix_secs(), "%Y-%m-%d %H:%M:%S."@) + dec_seq(
                self.tv().ms as nat,
            ) || r@ == dec_seq(self.tv().ms as nat),
    {
        let head = self.strftime("%Y-%m-%d %H:%M:%S.");
        let ms = self.raw() % 1000;
        proof {
            lemma_raw_ms_split(self.tv());
        }
        let tail = u64_dec_string(ms);
        head.concat(tail.as_str())
    }

    /// The value rendered in an RFC-3339-like form: as [`Time::iso8601`] with
    /// a `T` separator and a trailing `Z`.
    fn rfc3339(&self) -> (r: String)
        requires
            self.tv().wf(),
            CHRONO_MIN_UNIX_SECS <= self.tv().display_unix_secs() <= CHRONO_MAX_UNIX_SECS,
        ensures
            strftime_ok("%Y-%m-%dT%H:%M:%S."@) ==> r@ == format_of(
                self.tv().display_unix_secs(),
                "%Y-%m-%dT%H:%M:%S."@,
            ) + dec_seq(self.tv().ms as nat) + "Z"@,
            r@ == format_of(self.tv().display_unix_secs(), "%Y-%m-%dT%H:%M:%S."@) + dec_seq(
                self.tv().ms as nat,
            ) + "Z"@ || r@ == dec_seq(self.tv().ms as nat) + "Z"@,
    {
        let head = self.strftime("%Y-%m-%dT%H:%M:%S.");
        let ms = self.raw() % 1000;
        proof {
            lemma_raw_ms_split(self.tv());
        }
        let tail = u64_dec_string(ms);
        head.concat(tail.as_str()).concat("Z")
    }

    /// The display offset rendered as `"+HH:MM"` / `"-HH:MM"`.
    fn tz_offset(&self) -> (r: String)
        requires
            self.tv().wf(),
        ensures
            r@ == offset_str_seq(self.tv().offset),
    {
        offset_string(self.utc_offset())
    }

    /// The display offset as a named timezone of the static table, where the
    /// table has one with that offset.
    fn tz_enum(&self) -> (r: Option<Tz>)
        requires
            self.tv().wf(),
        ensures
            r == Tz::spec_from_offset(self.tv().offset),
    {
        Tz::from_offset(self.utc_offset())
    }

    /// Retags the value with the offset named by a `"+HH:MM"` / `"-HH:MM"`
    /// string: the raw instant is unchanged and only the display offset
    /// moves.  A malformed offset string is left out by the precondition;
    /// passing one anyway is a fatal error.
    fn change_tz(&self, offset: &str) -> (r: Self)
        requires
            self.tv().wf(),
            valid_offset_str(offset@),
        ensures
            r.tv() == (TimeView { offset: parse_offset_seq(offset@), ..self.tv() }),
            r.tv().wf(),
    {
        let off = parse_offset(offset);
        let r = Self::from_epoch_offset(self.raw(), off);
        proof {
            lemma_raw_ms_split(self.tv());
        }
        r
    }

    /// Retags the value with the machine's current local UTC offset; the raw
    /// instant is unchanged.
    fn local(&self) -> (r: Self)
        requires
            self.tv().wf(),
        ensures
            r.tv().secs == self.tv().secs,
            r.tv().ms == self.tv().ms,
            r.tv().wf(),
    {
        let parts = local_now_parts();
        let r = Self::from_epoch_offset(self.raw(), parts.2);
        proof {
            lemma_raw_ms_split(self.tv());
        }
        r
    }

    /// The value a flat number of seconds later (or earlier, for a negative
    /// amount), displayed in UTC.
    fn add_seconds(&self, duration: i64) -> (r: Self)
        requires
            self.tv().wf(),
            -i64::MAX <= duration * 1000 <= i64::MAX,
            0 <= self.tv().raw_ms() + duration * 1000 <= u64::MAX,
        ensures
            r.tv().raw_ms() == self.tv().raw_ms() + duration * 1000,
            r.tv().offset == 0,
            r.tv().wf(),
    {
        let dm: i64 = duration * 1000;
        let raw = self.raw();
        if dm >= 0 {
            Self::from_epoch(raw + (dm as u64))
        } else {
            Self::from_epoch(raw - ((-dm) as u64))
        }
    }

    /// The value a flat number of minutes later or earlier, displayed in UTC.
    fn add_minutes(&self, minutes: i64) -> (r: Self)
        requires
            self.tv().wf(),
            -i64::MAX <= minutes * 60000 <= i64::MAX,
            0 <= self.tv().raw_ms() + minutes * 60000 <= u64::MAX,
        ensures
            r.tv().raw_ms() == self.tv().raw_ms() + minutes * 60000,
            r.tv().offset == 0,
            r.tv().wf(),
    {
        self.add_seconds(minutes * 60)
    }

    /// The value a flat number of hours later or earlier, displayed in UTC.
    fn add_hours(&self, hours: i64) -> (r: Self)
        requires
            self.tv().wf(),
            -i64::MAX <= hours * 3600000 <= i64::MAX,
            0 <= self.tv().raw_ms() + hours * 3600000 <= u64::MAX,
        ensures
            r.tv().raw_ms() == self.tv().raw_ms() + hours * 3600000,
            r.tv().offset == 0,
            r.tv().wf(),
    {
        self.add_seconds(hours * 3600)
    }

    /// The value a flat number of days (86400 seconds each) later or earlier,
    /// displayed in UTC.
    fn add_days(&self, days: i64) -> (r: Self)
        requires
            self.tv().wf(),
            -i64::MAX <= days * 86400000 <= i64::MAX,
            0 <= self.tv().raw_ms() + days * 86400000 <= u64::MAX,
        ensures
            r.tv().raw_ms() == self.tv().raw_ms() + days * 86400000,
            r.tv().offset == 0,
            r.tv().wf(),
    {
        self.add_seconds(days * 86400)
    }

    /// The value a flat number of weeks (604800 seconds each) later or
    /// earlier, displayed in UTC.
    fn add_weeks(&self, weeks: i64) -> (r: Self)
        requires
            self.tv().wf(),
            -i64::MAX <= weeks * 604800000 <= i64::MAX,
            0 <= self.tv().raw_ms() + weeks * 604800000 <= u64::MAX,
        ensures
            r.tv().raw_ms() == self.tv().raw_ms() + weeks * 604800000,
            r.tv().offset == 0,
            r.tv().wf(),
    {
        self.add_seconds(weeks * 604800)
    }

    /// The value later by a duration's whole seconds, displayed in UTC.  The
    /// shift is a whole number of seconds, so the subsecond milliseconds are
    /// kept; a shift that would leave the representable range leaves the raw
    /// count unchanged instead.
    fn add_duration<T: ImplsDuration>(&self, duration: T) -> (r: Self)
        requires
            self.tv().wf(),
        ensures
            r.tv().offset == 0,
            r.tv().ms == self.tv().ms,
            r.tv().wf(),
    {
        let ghost v = self.tv();
        let secs = duration.num_seconds();
        let raw = self.raw();
        proof {
            lemma_raw_ms_split(v);
        }
        if -9223372036854775 <= secs && secs <= 9223372036854775 {
            let dm: i64 = secs * 1000;
            if dm >= 0 {
                if (dm as u64) <= u64::MAX - raw {
                    let r = self.add_seconds(secs);
                    proof {
                        lemma_raw_ms_split(r.tv());
                        lemma_ms_shift_keeps_remainder(v.raw_ms(), secs as int);
                    }
                    return r;
                }
            } else {
                if ((-dm) as u64) <= raw {
                    let r = self.add_seconds(secs);
                    proof {
                        lemma_raw_ms_split(r.tv());
                        lemma_ms_shift_keeps_remainder(v.raw_ms(), secs as int);
                    }
                    return r;
                }
            }
        }
        Self::from_epoch(raw)
    }

}

/// Operations that relate a time value to another, possibly of the other
/// source's type: differences, ordering, and carrying an instant across
/// sources.  (They live beside [`Time`] rather than in it because a trait
/// method of `Time` cannot itself be generic over `Time`.)
pub trait TimeDiff: Time {
    /// Whether this value lies in the past, present or future of another,
    /// comparing raw millisecond counts; equal counts yield `Present`.
    fn past_future<T: Time>(&self, other: &T) -> (r: RelativeTime)
        requires
            self.tv().wf(),
            other.tv().wf(),
        ensures
            r == relative_order(self.tv().raw_ms(), other.tv().raw_ms()),
    {
        let a = self.raw();
        let b = other.raw();
        if a < b {
            RelativeTime::Past
        } else if a > b {
            RelativeTime::Future
        } else {
            RelativeTime::Present
        }
    }

    /// The same raw instant carried into another time source's type,
    /// displayed in UTC.
    fn cast<T: Time>(&self) -> (r: T)
        requires
            self.tv().wf(),
        ensures
            r.tv() == (TimeView { secs: self.tv().secs, ms: self.tv().ms, offset: 0 }),
            r.tv().wf(),
    {
        let r = T::from_epoch(self.raw());
        proof {
            lemma_raw_ms_split(self.tv());
        }
        r
    }

    /// The absolute difference in whole seconds.
    fn diff<T: Time>(&self, other: &T) -> (r: u64)
        requires
            self.tv().wf(),
            other.tv().wf(),
        ensures
            r as int == abs_diff(self.tv().raw_ms(), other.tv().raw_ms()) / 1000,
    {
        self.diff_ms(other) / 1000
    }

    /// The absolute difference in milliseconds.
    fn diff_ms<T: Time>(&self, other: &T) -> (r: u64)
        requires
            self.tv().wf(),
            other.tv().wf(),
        ensures
            r as int == abs_diff(self.tv().raw_ms(), other.tv().raw_ms()),
    {
        let a = self.raw();
        let b = other.raw();
        if a >= b {
            a - b
        } else {
            b - a
        }
    }
}

/// Parsing strings into time values directly from string types.
pub trait StrTime {
    /// The characters of this text.
    spec fn sview(&self) -> Seq<char>;

    /// This text as a string slice.
    fn as_text(&self) -> (r: &str)
        ensures
            r@ == self.sview(),
    ;

    /// Parses this text into a time value of the chosen source, with the
    /// automatic offset retry of [`Time::strptime`]; an input that does not
    /// parse is left out by the precondition.
    fn parse_time<T: Time>(&self, format: &str) -> (r: T)
        requires
            can_strptime(self.sview(), format@),
        ensures
            r.tv() == strptime_view(self.sview(), format@),
            r.tv().wf(),
    {
        T::strptime(self.as_text(), format)
    }

    /// Parses this text like [`StrTime::parse_time`], returning `None`
    /// instead of failing fatally on an input that does not parse.
    fn try_parse_time<T: Time>(&self, format: &str) -> (r: Option<T>)
        ensures
            r is Some <==> can_strptime(self.sview(), format@),
            r matches Some(v) ==> v.tv() == strptime_view(self.sview(), format@) && v.tv().wf(),
    {
        T::try_strptime(self.as_text(), format)
    }

    /// Parses this text with the ISO-8601-like format the library renders.
    fn strp_iso8601<T: Time>(&self) -> (r: T)
        requires
            can_strptime(self.sview(), "%Y-%m-%dT%H:%M:%S.%f"@),
        ensures
            r.tv() == strptime_view(self.sview(), "%Y-%m-%dT%H:%M:%S.%f"@),
            r.tv().wf(),
    {
        T::strptime(self.as_text(), "%Y-%m-%dT%H:%M:%S.%f")
    }

    /// Parses this text with the RFC-3339-like format the library renders.
    fn strp_rf3339<T: Time>(&self) -> (r: T)
        requires
            can_strptime(self.sview(), "%Y-%m-%dT%H:%M:%S.%fZ"@),
        ensures
            r.tv() == strptime_view(self.sview(), "%Y-%m-%dT%H:%M:%S.%fZ"@),
            r.tv().wf(),
    {
        T::strptime(self.as_text(), "%Y-%m-%dT%H:%M:%S.%fZ")
    }
}

/// The `"Xw Xd Xh Xm Xs"` rendering of a non-negative second count, each
/// larger unit a fixed multiple of seconds (no calendar awareness).
pub open spec fn ts_print_seq(n: int) -> Seq<char> {
    dec_seq((n / 604800) as nat) + "w "@ + dec_seq((n / 86400 % 7) as nat) + "d "@ + dec_seq(
        (n / 3600 % 24) as nat,
    ) + "h "@ + dec_seq((n / 60 % 60) as nat) + "m "@ + dec_seq((n % 60) as nat) + "s"@
}

/// Building time values out of unsigned integer timestamps, and rendering
/// integer durations; implemented for the unsigned integer types that fit a
/// 64-bit count.  Negative timestamps have no representation here.
pub trait IntTime: Sized {
    /// The integer's value.
    spec fn as_int(&self) -> int;

    /// The value widened to 64 bits.
    fn into_u64(self) -> (r: u64)
        ensures
            r as int == self.as_int(),
    ;

    /// Reads the integer as seconds since the Unix epoch.
    fn unix<T: Time>(self) -> (r: T)
        requires
            (self.as_int() + OFFSET_1601) * 1000 <= u64::MAX,
        ensures
            r.tv() == (TimeView { secs: self.as_int() + OFFSET_1601, ms: 0, offset: 0 }),
            r.tv().wf(),
    {
        let u = self.into_u64();
        let ghost n = u as int;
        let t = (u + OFFSET_1601) * 1000;
        let r = T::from_epoch(t);
        proof {
            lemma_fundamental_div_mod_converse((n + OFFSET_1601) * 1000, 1000, n + OFFSET_1601, 0);
        }
        r
    }

    /// Reads the integer as a Windows file time: 100-nanosecond ticks since
    /// 1601.
    fn windows_ns<T: Time>(self) -> (r: T)
        ensures
            r.tv().raw_ms() == self.as_int() / 10000,
            r.tv().offset == 0,
            r.tv().wf(),
    {
        T::from_epoch(self.into_u64() / 10000)
    }

    /// Reads the integer as a WebKit timestamp: microseconds since 1601.
    fn webkit<T: Time>(self) -> (r: T)
        ensures
            r.tv().raw_ms() == self.as_int() / 1000,
            r.tv().offset == 0,
            r.tv().wf(),
    {
        T::from_epoch(self.into_u64() / 1000)
    }

    /// Reads the integer as seconds since the Mac OS epoch (1904).
    fn mac_os<T: Time>(self) -> (r: T)
        requires
            (self.as_int() - MAGIC_MAC_OS + OFFSET_1601) * 1000 <= u64::MAX,
        ensures
            r.tv() == (TimeView {
                secs: self.as_int() - MAGIC_MAC_OS + OFFSET_1601,
                ms: 0,
                offset: 0,
            }),
            r.tv().wf(),
    {
        let u = self.into_u64();
        let ghost n = u as int;
        let unix: i64 = (u as i64) - MAGIC_MAC_OS;
        let t = ((unix + OFFSET_1601 as i64) as u64) * 1000;
        let r = T::from_epoch(t);
        proof {
            lemma_fundamental_div_mod_converse(
                (n - MAGIC_MAC_OS + OFFSET_1601) * 1000,
                1000,
                n - MAGIC_MAC_OS + OFFSET_1601,
                0,
            );
        }
        r
    }

    /// Reads the integer as seconds since the Mac OS Absolute epoch (2001).
    fn mac_os_cfa<T: Time>(self) -> (r: T)
        requires
            (self.as_int() + MAGIC_MAC_OS_CFA + OFFSET_1601) * 1000 <= u64::MAX,
        ensures
            r.tv() == (TimeView {
                secs: self.as_int() + MAGIC_MAC_OS_CFA + OFFSET_1601,
                ms: 0,
                offset: 0,
            }),
            r.tv().wf(),
    {
        let u = self.into_u64();
        let ghost n = u as int;
        let t = (u + (MAGIC_MAC_OS_CFA as u64) + OFFSET_1601) * 1000;
        let r = T::from_epoch(t);
        proof {
            lemma_fundamental_div_mod_converse(
                (n + MAGIC_MAC_OS_CFA + OFFSET_1601) * 1000,
                1000,
                n + MAGIC_MAC_OS_CFA + OFFSET_1601,
                0,
            );
        }
        r
    }

    /// Reads the integer as seconds since the SAS 4GL epoch (1960).
    fn sas_4gl<T: Time>(self) -> (r: T)
        requires
            (self.as_int() - MAGIC_SAS_4GL + OFFSET_1601) * 1000 <= u64::MAX,
        ensures
            r.tv() == (TimeView {
                secs: self.as_int() - MAGIC_SAS_4GL + OFFSET_1601,
                ms: 0,
                offset: 0,
            }),
            r.tv().wf(),
    {
        let u = self.into_u64();
        let ghost n = u as int;
        let unix: i64 = (u as i64) - MAGIC_SAS_4GL;
        let t = ((unix + OFFSET_1601 as i64) as u64) * 1000;
        let r = T::from_epoch(t);
        proof {
            lemma_fundamental_div_mod_converse(
                (n - MAGIC_SAS_4GL + OFFSET_1601) * 1000,
                1000,
                n - MAGIC_SAS_4GL + OFFSET_1601,
                0,
            );
        }
        r
    }

    /// Renders the integer as a duration, `"Xw Xd Xh Xm Xs"`; weeks are the
    /// largest unit, since anything larger is not a fixed number of seconds.
    fn ts_print(self) -> (r: String)
        ensures
            r@ == ts_print_seq(self.as_int()),
    {
        let n = self.into_u64();
        let mut s = u64_dec_string(n / 604800);
        s.append("w ");
        let d = u64_dec_string((n / 86400) % 7);
        s.append(d.as_str());
        s.append("d ");
        let h = u64_dec_string((n / 3600) % 24);
        s.append(h.as_str());
        s.append("h ");
        let m = u64_dec_string((n / 60) % 60);
        s.append(m.as_str());
        s.append("m ");
        let sec = u64_dec_string(n % 60);
        s.append(sec.as_str());
        s.append("s");
        proof {
            assert(s@ =~= ts_print_seq(self.as_int()));
        }
        s
    }
}

impl IntTime for u8 {
    open spec fn as_int(&self) -> int {
        *self as int
    }

    fn into_u64(self) -> u64 {
        self as u64
    }
}

impl IntTime for u16 {
    open spec fn as_int(&self) -> int {
        *self as int
    }

    fn into_u64(self) -> u64 {
        self as u64
    }
}

impl IntTime for u32 {
    open spec fn as_int(&self) -> int {
        *self as int
    }

    fn into_u64(self) -> u64 {
        self as u64
    }
}

impl IntTime for u64 {
    open spec fn as_int(&self) -> int {
        *self as int
    }

    fn into_u64(self) -> u64 {
        self
    }
}

impl StrTime for str {
    open spec fn sview(&self) -> Seq<char> {
        self@
    }

    fn as_text(&self) -> &str {
        self
    }
}

impl StrTime for String {
    open spec fn sview(&self) -> Seq<char> {
        self@
    }

    fn as_text(&self) -> &str {
        self.as_str()
    }
}

} // verus!
