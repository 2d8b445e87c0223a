use vstd::prelude::*;

use chrono::TimeZone;

verus! {

/// The UTC instant (Unix seconds) of midnight at the start of the local day
/// `days` after the local day of `now`, in the brokerage's operating time
/// zone (US Eastern, with daylight saving), if the time zone database gives
/// one.
pub uninterp spec fn eastern_midnight(now: i64, days: i64) -> Option<i64>;

/// The instants (Unix seconds) that the time zone arithmetic accepts: well
/// inside chrono's range, so that local times near its ends never overflow.
pub const EARLIEST_INSTANT: i64 = -8_000_000_000_000;
pub const LATEST_INSTANT: i64 = 8_000_000_000_000;

pub open spec fn in_clock_range(t: i64) -> bool {
    EARLIEST_INSTANT <= t <= LATEST_INSTANT
}

/// The current instant, in Unix seconds.
///
/// Relies on chrono::Utc::now, read through `timestamp`.
#[verifier::external_body]
pub fn now_eastern() -> (r: i64) {
    chrono::Utc::now().timestamp()
}

/// Relies on chrono and chrono_tz's `EST5EDT`: the local date of `now`, moved
/// by `days`, at 00:00:00 local time, as a UTC instant. `None` where the
/// instant or the date is out of chrono's range or the local midnight does
/// not exist or is ambiguous. chrono panics when the local time of an instant
/// falls outside its range, which `in_clock_range` rules out.
#[verifier::external_body]
pub(crate) fn eastern_midnight_after(now: i64, days: i64) -> (r: Option<i64>)
    requires
        in_clock_range(now),
    ensures
        r == eastern_midnight(now, days),
{
    let local = chrono_tz::EST5EDT.timestamp_opt(now, 0).single()?;
    let day = local.date_naive().checked_add_signed(chrono::Duration::try_days(days)?)?;
    let midnight = chrono_tz::EST5EDT.from_local_datetime(&day.and_hms_opt(0, 0, 0)?).single()?;
    Some(midnight.timestamp())
}

/// Midnight in the operating time zone, `days` local days after the day of
/// `now`; `None` for an instant outside the clock's range.
pub fn midnight_eastern_at(now: i64, days: i64) -> (r: Option<i64>)
    ensures
        r == (if in_clock_range(now) { eastern_midnight(now, days) } else { None }),
{
    if EARLIEST_INSTANT <= now && now <= LATEST_INSTANT {
        eastern_midnight_after(now, days)
    } else {
        None
    }
}

/// Midnight in the operating time zone, `days` local days after today.
pub fn midnight_eastern(days: i64) -> (r: Option<i64>)
    ensures
        exists|now: i64| r == (if in_clock_range(now) { eastern_midnight(now, days) } else { None }),
{
    let now = now_eastern();
    midnight_eastern_at(now, days)
}

} // verus!
