//! The calendar instants of the supported epochs, written as the
//! `YYYY-MM-DD HH:MM:SS` strings the library's formats use.

use vstd::prelude::*;

verus! {

/// The Unix epoch.
pub const UNIX: &'static str = "1970-01-01 00:00:00";

/// The Windows NT epoch, the library's native one.
pub const WINDOWS_NT: &'static str = "1601-01-01 00:00:00";

/// The WebKit epoch, shared with Windows NT.
pub const WEBKIT: &'static str = "1601-01-01 00:00:00";

/// The Mac OS epoch.
pub const MAC_OS: &'static str = "1904-01-01 00:00:00";

/// The Mac OS Absolute (Core Foundation) epoch.
pub const MAC_OS_CFA: &'static str = "2001-01-01 00:00:00";

/// The SAS 4GL epoch.
pub const SAS_4GL: &'static str = "1960-01-01 00:00:00";

} // verus!
