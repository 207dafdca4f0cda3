//! The wall clock, reached through chrono and read out as plain values: a day
//! number matching [`crate::calendar`]'s counting, the hour and minute of the
//! day, and the epoch second. Nothing is promised of what the clock reads
//! beyond the documented ranges, so callers validate the values and fall back
//! to a fixed date when the clock is absurd.

use vstd::prelude::*;
use crate::calendar::MAX_DAY_NUMBER;

verus! {

/// Relies on `chrono::Utc::now` and `chrono::Datelike::num_days_from_ce`: the
/// day number of today's date, with January 1 of year 1 as day 1.
#[verifier::external_body]
pub(crate) fn clock_days_from_ce() -> i32 {
    chrono::Datelike::num_days_from_ce(&chrono::Utc::now())
}

/// Relies on `chrono::Utc::now` and `chrono::Timelike::hour`: the current
/// hour, documented to lie in 0..=23.
#[verifier::external_body]
pub(crate) fn clock_hour() -> (h: u32)
    ensures
        h < 24,
{
    chrono::Timelike::hour(&chrono::Utc::now())
}

/// Relies on `chrono::Utc::now` and `chrono::Timelike::minute`: the current
/// minute, documented to lie in 0..=59.
#[verifier::external_body]
pub(crate) fn clock_minute() -> (m: u32)
    ensures
        m < 60,
{
    chrono::Timelike::minute(&chrono::Utc::now())
}

/// Relies on `chrono::Utc::now` and `chrono::DateTime::timestamp`: seconds
/// since the Unix epoch.
#[verifier::external_body]
pub(crate) fn clock_timestamp() -> i64 {
    chrono::Utc::now().timestamp()
}

/// Day number of January 1, 1970.
pub const EPOCH_DAY_NUMBER: u32 = 719163;

/// Day number used when the clock reads an absurd date: January 1, 2025.
pub const FALLBACK_DAY_NUMBER: u32 = 739252;

/// The day number of today's date, guarded: a reading before the Unix epoch
/// or unreasonably far in the future is replaced by a fixed fallback date, so
/// the result always lies in the range the calendar converts.
pub fn today_day_number() -> (d: u32)
    ensures
        EPOCH_DAY_NUMBER <= d <= MAX_DAY_NUMBER,
{
    let raw = clock_days_from_ce();
    if raw >= EPOCH_DAY_NUMBER as i32 && raw <= MAX_DAY_NUMBER as i32 {
        raw as u32
    } else {
        FALLBACK_DAY_NUMBER
    }
}

/// The current epoch second, guarded: a reading before the epoch is replaced
/// by zero.
pub fn now_epoch_seconds() -> u64 {
    let raw = clock_timestamp();
    if raw >= 0 {
        raw as u64
    } else {
        0
    }
}

} // verus!
