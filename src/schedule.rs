use vstd::prelude::*;

verus! {

/// Seconds in an hour.
pub const HOUR_SECS: u64 = 3600;

/// Relies on chrono's `From<SystemTime> for DateTime<Utc>`, which also takes a
/// clock set before 1970, for the current UTC time, and on
/// chrono::Timelike::minute and chrono::Timelike::second, each documented to
/// return a number from 0 to 59.
#[verifier::external_body]
fn utc_minute_second() -> (r: (u64, u64))
    ensures
        r.0 < 60,
        r.1 < 60,
{
    let now = chrono::DateTime::<chrono::Utc>::from(std::time::SystemTime::now());
    (chrono::Timelike::minute(&now) as u64, chrono::Timelike::second(&now) as u64)
}

/// Seconds from `minute:second` past the hour to the start of the next hour.
pub fn seconds_to_next_hour(minute: u64, second: u64) -> (r: u64)
    requires
        minute < 60,
        second < 60,
    ensures
        r == HOUR_SECS - (minute * 60 + second),
        1 <= r <= HOUR_SECS,
{
    HOUR_SECS - (minute * 60 + second)
}

/// Seconds from now to the start of the next wall-clock hour.
pub fn seconds_until_next_hour() -> (r: u64)
    ensures
        1 <= r <= HOUR_SECS,
{
    let (minute, second) = utc_minute_second();
    seconds_to_next_hour(minute, second)
}

} // verus!
