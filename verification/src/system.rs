//! The system time source: values read from the local wall clock, tagged
//! with the machine's configured UTC offset.

use vstd::prelude::*;
use vstd::arithmetic::div_mod::lemma_fundamental_div_mod;

use crate::TimeView;
use crate::chrono_api::local_now_parts;
use crate::time::{normalize_reading, strptime_parts, Time, TimeDiff};

verus! {

/// A time value read from the local system clock (or built by parsing or
/// epoch conversion): whole seconds and subsecond milliseconds since
/// 1601-01-01T00:00:00Z, and the UTC offset the value is displayed in.
#[derive(Debug, Clone)]
pub struct System {
    inner_secs: u64,
    inner_milliseconds: u64,
    /// The UTC offset, in seconds east, this value is displayed in.
    pub utc_offset: i32,
}

impl TimeDiff for System {

}

impl Time for System {
    closed spec fn tv(&self) -> TimeView {
        TimeView {
            secs: self.inner_secs as int,
            ms: self.inner_milliseconds as int,
            offset: self.utc_offset as int,
        }
    }

    /// Reads the wall clock and the machine's current local UTC offset and
    /// stores both.  An instant before 1601 (an absurd clock) clamps to the
    /// epoch start, and a leap-second millisecond count clamps to 999.
    fn now() -> (r: Self) {
        let parts = local_now_parts();
        let n = normalize_reading(parts.0, parts.1, parts.2);
        System { inner_secs: n.0, inner_milliseconds: n.1 as u64, utc_offset: n.2 }
    }

    fn strptime(s: &str, format: &str) -> (r: Self) {
        let p = strptime_parts(s, format);
        System { inner_secs: p.0, inner_milliseconds: p.1 as u64, utc_offset: p.2 }
    }

    fn from_epoch(timestamp: u64) -> (r: Self) {
        proof {
            lemma_fundamental_div_mod(timestamp as int, 1000);
        }
        System {
            inner_secs: timestamp / 1000,
            inner_milliseconds: timestamp % 1000,
            utc_offset: 0,
        }
    }

    fn from_epoch_offset(timestamp: u64, offset: i32) -> (r: Self) {
        proof {
            lemma_fundamental_div_mod(timestamp as int, 1000);
        }
        System {
            inner_secs: timestamp / 1000,
            inner_milliseconds: timestamp % 1000,
            utc_offset: offset,
        }
    }

    fn raw(&self) -> (r: u64) {
        (self.inner_secs * 1000) + self.inner_milliseconds
    }

    fn utc_offset(&self) -> (r: i32) {
        self.utc_offset
    }
}

} // verus!
