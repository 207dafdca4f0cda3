//! Proleptic Gregorian calendar arithmetic over day numbers counted from the
//! common era: day 1 is January 1 of year 1. The counting matches chrono's
//! `num_days_from_ce`, so a day number obtained from the clock can be turned
//! into a calendar date, and dates in the past are reached by subtracting a
//! number of days.

use vstd::prelude::*;
use crate::strfmt::{dec_digits, zero_pad, u64_to_dec_pad};

verus! {

/// Gregorian leap-year rule.
pub open spec fn is_leap_year(y: int) -> bool {
    (y % 4 == 0 && y % 100 != 0) || y % 400 == 0
}

/// Number of days in year `y`.
pub open spec fn days_in_year(y: int) -> int {
    if is_leap_year(y) {
        366
    } else {
        365
    }
}

/// Number of days in month `m` of year `y`.
pub open spec fn days_in_month(y: int, m: int) -> int {
    if m == 2 {
        if is_leap_year(y) {
            29
        } else {
            28
        }
    } else if m == 4 || m == 6 || m == 9 || m == 11 {
        30
    } else {
        31
    }
}

/// Number of days in all years before year `y` (counted from year 1).
pub open spec fn days_before_year(y: int) -> int
    decreases y,
{
    if y <= 1 {
        0
    } else {
        days_before_year(y - 1) + days_in_year(y - 1)
    }
}

/// Number of days in the months of year `y` before month `m`.
pub open spec fn days_before_month(y: int, m: int) -> int
    decreases m,
{
    if m <= 1 {
        0
    } else {
        days_before_month(y, m - 1) + days_in_month(y, m - 1)
    }
}

/// The day number of the date `y`-`m`-`d`, with January 1 of year 1 as day 1.
pub open spec fn days_from_ce(y: int, m: int, d: int) -> int {
    days_before_year(y) + days_before_month(y, m) + d
}

/// Whether `y`-`m`-`d` is a well-formed calendar date.
pub open spec fn valid_ymd(y: int, m: int, d: int) -> bool {
    1 <= y && 1 <= m <= 12 && 1 <= d <= days_in_month(y, m)
}

/// Every year contributes at least 365 days to the count before year `y`.
proof fn lemma_days_before_year_lower(y: int)
    requires
        y >= 1,
    ensures
        days_before_year(y) >= 365 * (y - 1),
    decreases y,
{
    if y > 1 {
        lemma_days_before_year_lower(y - 1);
    }
}

/// Leap-year test.
pub fn leap_year(y: u32) -> (b: bool)
    ensures
        b == is_leap_year(y as int),
{
    (y % 4 == 0 && y % 100 != 0) || y % 400 == 0
}

/// Number of days in year `y`.
pub fn year_length(y: u32) -> (n: u32)
    ensures
        n == days_in_year(y as int),
{
    if leap_year(y) {
        366
    } else {
        365
    }
}

/// Number of days in month `m` of year `y`.
pub fn month_length(y: u32, m: u32) -> (n: u32)
    requires
        1 <= m <= 12,
    ensures
        n == days_in_month(y as int, m as int),
{
    if m == 2 {
        if leap_year(y) {
            29
        } else {
            28
        }
    } else if m == 4 || m == 6 || m == 9 || m == 11 {
        30
    } else {
        31
    }
}

/// Largest day number this module converts: far past year 9000, and small
/// enough that every reachable year still renders in four digits.
pub const MAX_DAY_NUMBER: u32 = 3649270;

/// Converts a day number to the calendar date holding it.
pub fn civil_from_days(days: u32) -> (r: (u32, u32, u32))
    requires
        1 <= days <= MAX_DAY_NUMBER,
    ensures
        valid_ymd(r.0 as int, r.1 as int, r.2 as int),
        days_from_ce(r.0 as int, r.1 as int, r.2 as int) == days,
        r.0 <= 9999,
{
    let mut y: u32 = 1;
    let mut rem: u32 = days;
    while rem > year_length(y)
        invariant
            1 <= y,
            1 <= rem,
            days_before_year(y as int) + rem == days,
            days <= MAX_DAY_NUMBER,
            y <= days,
        decreases rem,
    {
        rem = rem - year_length(y);
        y = y + 1;
        proof {
            lemma_days_before_year_lower(y as int);
        }
    }
    proof {
        lemma_days_before_year_lower(y as int);
        assert(365 * (y as int - 1) <= MAX_DAY_NUMBER);
        assert(y <= 9999) by (nonlinear_arith)
            requires
                365 * (y as int - 1) <= 3649270int,
        ;
    }
    let mut m: u32 = 1;
    while m < 12 && rem > month_length(y, m)
        invariant
            1 <= y <= 9999,
            1 <= m <= 12,
            1 <= rem,
            days_before_year(y as int) + days_before_month(y as int, m as int) + rem == days,
            rem <= days_in_year(y as int) - days_before_month(y as int, m as int),
        decreases 12 - m,
    {
        rem = rem - month_length(y, m);
        m = m + 1;
    }
    proof {
        if m == 12 {
            reveal_with_fuel(days_before_month, 13);
            assert(days_in_year(y as int) - days_before_month(y as int, 12) == 31);
        }
    }
    (y, m, rem)
}

/// The `YYYY-MM-DD` rendering of a date.
pub open spec fn date_dashed_str(y: int, m: int, d: int) -> Seq<char>
    recommends
        0 <= y && 0 <= m && 0 <= d,
{
    zero_pad(dec_digits(y as nat), 4) + seq!['-'] + zero_pad(dec_digits(m as nat), 2) + seq!['-']
        + zero_pad(dec_digits(d as nat), 2)
}

/// The `YYYYMMDD` rendering of a date.
pub open spec fn date8_str(y: int, m: int, d: int) -> Seq<char>
    recommends
        0 <= y && 0 <= m && 0 <= d,
{
    zero_pad(dec_digits(y as nat), 4) + zero_pad(dec_digits(m as nat), 2) + zero_pad(
        dec_digits(d as nat),
        2,
    )
}

/// The `YYMMDD` rendering of a date.
pub open spec fn date6_str(y: int, m: int, d: int) -> Seq<char>
    recommends
        0 <= y && 0 <= m && 0 <= d,
{
    zero_pad(dec_digits((y % 100) as nat), 2) + zero_pad(dec_digits(m as nat), 2) + zero_pad(
        dec_digits(d as nat),
        2,
    )
}

/// Renders a date as `YYYY-MM-DD`.
pub fn format_date_dashed(y: u32, m: u32, d: u32) -> (s: String)
    requires
        y <= 9999,
        m <= 99,
        d <= 99,
    ensures
        s@ == date_dashed_str(y as int, m as int, d as int),
{
    let mut s = u64_to_dec_pad(y as u64, 4);
    crate::strfmt::push_char(&mut s, '-');
    s.append(u64_to_dec_pad(m as u64, 2).as_str());
    crate::strfmt::push_char(&mut s, '-');
    s.append(u64_to_dec_pad(d as u64, 2).as_str());
    assert(s@ =~= date_dashed_str(y as int, m as int, d as int));
    s
}

/// Renders a date as `YYYYMMDD`.
pub fn format_date8(y: u32, m: u32, d: u32) -> (s: String)
    requires
        y <= 9999,
        m <= 99,
        d <= 99,
    ensures
        s@ == date8_str(y as int, m as int, d as int),
{
    let mut s = u64_to_dec_pad(y as u64, 4);
    s.append(u64_to_dec_pad(m as u64, 2).as_str());
    s.append(u64_to_dec_pad(d as u64, 2).as_str());
    assert(s@ =~= date8_str(y as int, m as int, d as int));
    s
}

/// Renders a date as `YYMMDD`.
pub fn format_date6(y: u32, m: u32, d: u32) -> (s: String)
    requires
        m <= 99,
        d <= 99,
    ensures
        s@ == date6_str(y as int, m as int, d as int),
{
    let mut s = u64_to_dec_pad((y % 100) as u64, 2);
    s.append(u64_to_dec_pad(m as u64, 2).as_str());
    s.append(u64_to_dec_pad(d as u64, 2).as_str());
    assert(s@ =~= date6_str(y as int, m as int, d as int));
    s
}

/// Whether `s` is the `YYYY-MM-DD` rendering of the date whose day number is
/// `days`.
pub open spec fn is_date_string_for(s: Seq<char>, days: int) -> bool {
    exists|y: int, m: int, d: int|
        valid_ymd(y, m, d) && days_from_ce(y, m, d) == days && s == date_dashed_str(y, m, d)
}

/// Renders the date with day number `days` as `YYYY-MM-DD`.
pub fn date_string_of_days(days: u32) -> (s: String)
    requires
        1 <= days <= MAX_DAY_NUMBER,
    ensures
        is_date_string_for(s@, days as int),
{
    let (y, m, d) = civil_from_days(days);
    let s = format_date_dashed(y, m, d);
    assert(valid_ymd(y as int, m as int, d as int) && days_from_ce(y as int, m as int, d as int)
        == days as int && s@ == date_dashed_str(y as int, m as int, d as int));
    s
}

} // verus!
