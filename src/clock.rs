//! Rendering of Unix instants as text, through chrono.

use chrono::{DateTime, Local};
use vstd::prelude::*;

verus! {

/// The largest Unix second that the library renders as a date: well inside
/// the calendar range that chrono supports.
pub const MAX_UNIX: i64 = 4_000_000_000_000;

/// The compact UTC rendering `YYYYMMDDTHHMMSSZ` of a Unix second.
pub uninterp spec fn utc_stamp_of(unix: i64) -> Seq<char>;

/// Relies on chrono's `DateTime::from_timestamp`, which succeeds for every
/// second in this range, and on its `format` with `%Y%m%dT%H%M%SZ`, whose
/// output depends on the instant alone.
#[verifier::external_body]
pub(crate) fn compact_utc_stamp(unix: i64) -> (r: String)
    requires
        0 <= unix <= MAX_UNIX,
    ensures
        r@ == utc_stamp_of(unix),
{
    DateTime::from_timestamp(unix, 0).map(|t| t.format("%Y%m%dT%H%M%SZ").to_string()).unwrap_or_default()
}

/// Relies on chrono's `DateTime::with_timezone(&Local)` and `format` with
/// `%Y-%m-%d %H:%M:%S %Z`. The text depends on the machine's time zone, so
/// nothing is stated of it.
#[verifier::external_body]
pub(crate) fn local_stamp(unix: i64) -> (r: String)
    requires
        0 <= unix <= MAX_UNIX,
{
    DateTime::from_timestamp(unix, 0)
        .map(|t| t.with_timezone(&Local).format("%Y-%m-%d %H:%M:%S %Z").to_string())
        .unwrap_or_default()
}

} // verus!
