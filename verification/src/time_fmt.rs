//! Timestamp formatting through the `chrono` crate.
//!
//! The text that comes back depends on the clock or on the machine's local
//! time zone, so nothing is stated about its characters. Whether text comes
//! back at all, though, is deterministic: chrono accepts or rejects a format
//! pattern on the pattern text alone, and accepts or rejects an epoch
//! instant on its value alone. The two names below stand for those
//! acceptance tests, and each wrapper owes `Some` exactly on acceptance.

use vstd::prelude::*;

verus! {

/// Whether chrono can format a complete local date-time with the pattern
/// `fmt`: its strftime parser yields no error item for `fmt`, and every item
/// is one its formatter supports. A function of the pattern text alone.
pub uninterp spec fn chrono_pattern_ok(fmt: Seq<char>) -> bool;

/// Whether chrono's `DateTime::from_timestamp` accepts the instant `secs`
/// seconds and `nsecs` nanoseconds after the Unix epoch: the instant lies in
/// chrono's representable date range. A function of the pair alone.
pub uninterp spec fn timestamp_in_range(secs: i64, nsecs: u32) -> bool;

/// Relies on chrono's `Local::now`, `DateTime::format` and
/// `DelayedFormat::write_to`: formats the current local time with `fmt`.
/// For a complete date-time, `write_to` fails exactly when the pattern holds
/// an invalid or format-unsupported specifier, so `Some` comes back if and
/// only if chrono accepts the pattern; the text itself depends on the clock
/// and the machine's time zone and is left unstated.
#[verifier::external_body]
pub(crate) fn format_local_now(fmt: &str) -> (r: Option<String>)
    ensures
        r is Some <==> chrono_pattern_ok(fmt@),
{
    let mut s = String::new();
    match chrono::Local::now().format(fmt).write_to(&mut s) {
        Ok(()) => Some(s),
        Err(_) => None,
    }
}

/// Relies on chrono's `DateTime::from_timestamp`, `with_timezone` and
/// `DelayedFormat::write_to`: formats the instant `secs` seconds and `nsecs`
/// nanoseconds after the Unix epoch, in the machine's local time zone, with
/// `fmt`. `from_timestamp` yields `None` exactly on an instant outside
/// chrono's range, and `write_to` fails exactly on a pattern chrono cannot
/// format a complete date-time with, so `Some` comes back if and only if
/// both are accepted; the text depends on the machine's time zone and is
/// left unstated.
#[verifier::external_body]
pub(crate) fn format_timestamp(secs: i64, nsecs: u32, fmt: &str) -> (r: Option<String>)
    ensures
        r is Some <==> (chrono_pattern_ok(fmt@) && timestamp_in_range(secs, nsecs)),
{
    let utc = match chrono::DateTime::from_timestamp(secs, nsecs) {
        Some(u) => u,
        None => return None,
    };
    let local = utc.with_timezone(&chrono::Local);
    let mut s = String::new();
    match local.format(fmt).write_to(&mut s) {
        Ok(()) => Some(s),
        Err(_) => None,
    }
}

} // verus!
