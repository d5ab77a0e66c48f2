//! The NTP time source: values obtained from a network time server's
//! response, with the local clock as the failure fallback.
//!
//! The library builds the 48-byte client request and parses the transmit
//! timestamp out of a response; the single UDP exchange itself is I/O and
//! lives with the caller, which hands the raw response bytes (or nothing, on
//! any network failure) back to [`Ntp::from_response`] and
//! [`Ntp::or_system_fallback`].

use vstd::prelude::*;
use vstd::arithmetic::div_mod::lemma_fundamental_div_mod;

use crate::TimeView;
use crate::{OFFSET_1601, REF_TIME_1970};
use crate::chrono_api::{utc_now_parts, CHRONO_MAX_UNIX_SECS};
use crate::strings::str_equal;
use crate::time::{normalize_reading, strptime_parts, Time, TimeDiff};

verus! {

/// A time value from a network time server (or its local fallback): whole
/// seconds and subsecond milliseconds since 1601-01-01T00:00:00Z, the UTC
/// offset the value is displayed in, and the provenance tag naming where the
/// reading came from.
#[derive(Debug, Clone)]
pub struct Ntp {
    inner_secs: u64,
    inner_milliseconds: u64,
    server: String,
    utc_offset: i32,
}

/// The big-endian 32-bit integer held by four bytes.
pub open spec fn be32(b0: u8, b1: u8, b2: u8, b3: u8) -> int {
    b0 * 0x1000000 + b1 * 0x10000 + b2 * 0x100 + b3
}

/// What an NTP response yields: the transmit-timestamp seconds at byte
/// offset 40, rebased from the 1900 reference epoch to Unix seconds; or
/// nothing for a response too short to hold the field or one carrying an
/// instant before 1970.
pub open spec fn spec_parse_response(buf: Seq<u8>) -> Option<int> {
    if buf.len() >= 44 && be32(buf[40], buf[41], buf[42], buf[43]) >= REF_TIME_1970 {
        Some(be32(buf[40], buf[41], buf[42], buf[43]) - REF_TIME_1970)
    } else {
        None
    }
}

/// The subsecond estimate the source keeps from the local round-trip time:
/// the millisecond remainder of a non-negative elapsed time, and zero
/// otherwise.  This approximates precision from latency; it does not read the
/// server's fractional field.
pub open spec fn spec_millis_estimate(elapsed_ms: int) -> int {
    if elapsed_ms >= 0 {
        elapsed_ms % 1000
    } else {
        0
    }
}

impl Ntp {
    /// The provenance tag of this value.
    pub closed spec fn spec_server(&self) -> Seq<char> {
        self.server@
    }

    /// Whether the value came from a real network exchange rather than the
    /// local clock fallback or string parsing.
    pub open spec fn spec_valid_server(&self) -> bool {
        self.spec_server() != "chrono::Utc"@ && self.spec_server() != "strptime"@
    }

    /// Returns the server address the time was fetched from, or the tag of
    /// the non-network path that produced the value.
    pub fn server(&self) -> (r: String)
        ensures
            r@ == self.spec_server(),
    {
        self.server.clone()
    }

    /// Returns whether the data was fetched from a valid server (not the
    /// local clock fallback, and not string parsing).
    pub fn valid_server(&self) -> (r: bool)
        ensures
            r == self.spec_valid_server(),
    {
        !(str_equal(self.server.as_str(), "chrono::Utc") || str_equal(
            self.server.as_str(),
            "strptime",
        ))
    }

    /// The 48-octet NTP client request: the first octet signals client mode,
    /// the remainder is zero-filled.
    pub fn request_packet() -> (r: Vec<u8>)
        ensures
            r@.len() == 48,
            r@[0] == 0x1b,
            forall|i: int| 1 <= i < 48 ==> r@[i] == 0,
    {
        let mut v: Vec<u8> = Vec::new();
        v.push(0x1b);
        let mut i: usize = 1;
        while i < 48
            invariant
                1 <= i <= 48,
                v@.len() == i,
                v@[0] == 0x1b,
                forall|k: int| 1 <= k < i ==> v@[k] == 0,
            decreases 48 - i,
        {
            v.push(0);
            i += 1;
        }
        v
    }

    /// Reads the transmit-timestamp field out of a response buffer: `None`
    /// for a buffer too short to hold it or for an instant before 1970,
    /// otherwise the server's Unix second count.
    pub fn parse_response(buf: &Vec<u8>) -> (r: Option<u64>)
        ensures
            r is Some <==> spec_parse_response(buf@) is Some,
            r matches Some(t) ==> Some(t as int) == spec_parse_response(buf@),
            r matches Some(t) ==> t <= 0xffffffff,
    {
        if buf.len() < 44 {
            return None;
        }
        let t: u64 = (buf[40] as u64) * 0x1000000 + (buf[41] as u64) * 0x10000 + (buf[42] as u64)
            * 0x100 + (buf[43] as u64);
        if t >= REF_TIME_1970 {
            Some(t - REF_TIME_1970)
        } else {
            None
        }
    }

    /// The millisecond estimate from a local round-trip time.
    pub fn millis_estimate(elapsed_ms: i64) -> (r: u64)
        ensures
            r as int == spec_millis_estimate(elapsed_ms as int),
            r < 1000,
    {
        if elapsed_ms >= 0 {
            (elapsed_ms % 1000) as u64
        } else {
            0
        }
    }

    /// The time value an NTP exchange produces: the response's transmit
    /// timestamp rebased onto the 1601 epoch, subseconds estimated from the
    /// round trip, tagged with the server's address and displayed in UTC; or
    /// `None` when the response does not parse.
    pub fn from_response(server: &str, buf: &Vec<u8>, elapsed_ms: i64) -> (r: Option<Ntp>)
        ensures
            r is Some <==> spec_parse_response(buf@) is Some,
            r matches Some(v) ==> v.tv() == (TimeView {
                secs: spec_parse_response(buf@)->0 + OFFSET_1601,
                ms: spec_millis_estimate(elapsed_ms as int),
                offset: 0,
            }),
            r matches Some(v) ==> v.tv().wf() && v.spec_server() == server@,
    {
        match Ntp::parse_response(buf) {
            Some(t) => Some(
                Ntp {
                    inner_secs: t + OFFSET_1601,
                    inner_milliseconds: Ntp::millis_estimate(elapsed_ms),
                    server: String::from_str(server),
                    utc_offset: 0,
                },
            ),
            None => None,
        }
    }

    /// Rebuilds a value from its stored parts (seconds since 1601, subsecond
    /// milliseconds, provenance tag, display offset), or `None` when the
    /// parts violate a time value's invariants.
    pub fn from_parts(secs: u64, milliseconds: u64, server: &str, utc_offset: i32) -> (r: Option<
        Ntp,
    >)
        ensures
            r is Some <==> (milliseconds < 1000 && -86400 < utc_offset < 86400 && secs * 1000
                + milliseconds <= u64::MAX),
            r matches Some(v) ==> v.tv() == (TimeView {
                secs: secs as int,
                ms: milliseconds as int,
                offset: utc_offset as int,
            }),
            r matches Some(v) ==> v.tv().wf() && v.spec_server() == server@,
    {
        if milliseconds < 1000 && -86400 < utc_offset && utc_offset < 86400 && secs <= (u64::MAX
            - milliseconds) / 1000 {
            proof {
                lemma_fundamental_div_mod((u64::MAX - milliseconds) as int, 1000);
            }
            Some(
                Ntp {
                    inner_secs: secs,
                    inner_milliseconds: milliseconds,
                    server: String::from_str(server),
                    utc_offset,
                },
            )
        } else {
            proof {
                if milliseconds < 1000 && secs as int * 1000 + milliseconds <= u64::MAX {
                    lemma_fundamental_div_mod((u64::MAX - milliseconds) as int, 1000);
                }
            }
            None
        }
    }

    /// The reading `now` falls back to when the network cannot be reached: a
    /// UTC wall-clock reading tagged `"chrono::Utc"`, so that the degraded
    /// provenance stays observable.  An instant before 1601 clamps to the
    /// epoch start, and a leap-second millisecond count clamps to 999.
    pub fn clock_fallback() -> (r: Ntp)
        ensures
            r.tv().wf(),
            r.tv().offset == 0,
            r.tv().secs <= CHRONO_MAX_UNIX_SECS + OFFSET_1601,
            r.spec_server() == "chrono::Utc"@,
            !r.spec_valid_server(),
    {
        let parts = utc_now_parts();
        let n = normalize_reading(parts.0, parts.1, 0);
        Ntp {
            inner_secs: n.0,
            inner_milliseconds: n.1 as u64,
            server: String::from_str("chrono::Utc"),
            utc_offset: n.2,
        }
    }

    /// Resolves the outcome of a network exchange: a parsed reading passes
    /// through unchanged, and any failure (no response, a short response, an
    /// out-of-range instant) falls back to the local clock — the caller
    /// always receives a value, never an error.
    pub fn or_system_fallback(outcome: Option<Ntp>) -> (r: Ntp)
        requires
            outcome matches Some(v) ==> v.tv().wf(),
        ensures
            outcome matches Some(v) ==> r == v,
            outcome is None ==> r.spec_server() == "chrono::Utc"@ && !r.spec_valid_server()
                && r.tv().offset == 0,
            r.tv().wf(),
    {
        match outcome {
            Some(v) => v,
            None => Ntp::clock_fallback(),
        }
    }
}

impl TimeDiff for Ntp {

}

impl Time for Ntp {
    closed spec fn tv(&self) -> TimeView {
        TimeView {
            secs: self.inner_secs as int,
            ms: self.inner_milliseconds as int,
            offset: self.utc_offset as int,
        }
    }

    /// A fresh reading.  The library itself performs no network I/O, so this
    /// is the local clock fallback reading, tagged `"chrono::Utc"`; a caller
    /// that runs the UDP exchange resolves it through
    /// [`Ntp::or_system_fallback`] instead.
    fn now() -> (r: Self)
        ensures
            r.spec_server() == "chrono::Utc"@,
            !r.spec_valid_server(),
            r.tv().offset == 0,
    {
        Ntp::clock_fallback()
    }

    fn strptime(s: &str, format: &str) -> (r: Self)
        ensures
            r.spec_server() == "strptime"@,
            !r.spec_valid_server(),
    {
        let p = strptime_parts(s, format);
        Ntp {
            inner_secs: p.0,
            inner_milliseconds: p.1 as u64,
            server: String::from_str("strptime"),
            utc_offset: p.2,
        }
    }

    fn from_epoch(timestamp: u64) -> (r: Self)
        ensures
            r.spec_server() == "from_epoch"@,
            r.spec_valid_server(),
    {
        proof {
            lemma_fundamental_div_mod(timestamp as int, 1000);
            reveal_strlit("from_epoch");
            reveal_strlit("chrono::Utc");
            reveal_strlit("strptime");
            assert("from_epoch"@.len() == 10 && "chrono::Utc"@.len() == 11 && "strptime"@.len()
                == 8);
        }
        Ntp {
            inner_secs: timestamp / 1000,
            inner_milliseconds: timestamp % 1000,
            server: String::from_str("from_epoch"),
            utc_offset: 0,
        }
    }

    fn from_epoch_offset(timestamp: u64, offset: i32) -> (r: Self)
        ensures
            r.spec_server() == "from_epoch_offset"@,
            r.spec_valid_server(),
    {
        proof {
            lemma_fundamental_div_mod(timestamp as int, 1000);
            reveal_strlit("from_epoch_offset");
            reveal_strlit("chrono::Utc");
            reveal_strlit("strptime");
            assert("from_epoch_offset"@.len() == 17 && "chrono::Utc"@.len() == 11
                && "strptime"@.len() == 8);
        }
        Ntp {
            inner_secs: timestamp / 1000,
            inner_milliseconds: timestamp % 1000,
            server: String::from_str("from_epoch_offset"),
            utc_offset: offset,
        }
    }

    fn raw(&self) -> (r: u64) {
        (self.inner_secs * 1000) + self.inner_milliseconds
    }

    fn utc_offset(&self) -> (r: i32) {
        self.utc_offset
    }
}

} // verus!
