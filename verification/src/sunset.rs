//! Calendar arithmetic for the sunset calculation: leap years and the day of the year.
use vstd::prelude::*;

verus! {

/// Time of day of the sunset in UTC.
#[derive(Clone, Copy, Debug, PartialEq, Eq, Structural)]
pub struct SunsetResult {
    pub hour: u8,
    pub min: u8,
    pub sec: u8,
}

impl Default for SunsetResult {
    fn default() -> (r: Self)
        ensures
            r == (SunsetResult { hour: 0, min: 0, sec: 0 }),
    {
        SunsetResult { hour: 0, min: 0, sec: 0 }
    }
}

/// Gregorian leap years: divisible by 4 but not by 100, or divisible by 400.
pub open spec fn spec_is_leap_year(year: int) -> bool {
    (year % 4 == 0 && year % 100 != 0) || year % 400 == 0
}

/// The number of days of a month (1 to 12).
pub open spec fn month_length(leap: bool, month: int) -> int {
    if month == 2 {
        if leap { 29 } else { 28 }
    } else if month == 4 || month == 6 || month == 9 || month == 11 {
        30
    } else {
        31
    }
}

/// The number of days in the months before `month`.
pub open spec fn days_before(leap: bool, month: int) -> int
    decreases month,
{
    if month <= 1 {
        0
    } else {
        days_before(leap, month - 1) + month_length(leap, month - 1)
    }
}

/// The day of the year (1 for the first of January) of a date, none for a date that does not
/// exist.
pub open spec fn spec_day_of_year(year: u16, month: u8, day: u8) -> Option<u16> {
    let leap = spec_is_leap_year(year as int);
    if 1 <= month <= 12 && 1 <= day <= month_length(leap, month as int) {
        Some((days_before(leap, month as int) + day) as u16)
    } else {
        None
    }
}

pub fn is_leap_year(year: u16) -> (r: bool)
    ensures
        r == spec_is_leap_year(year as int),
{
    (year % 4 == 0 && year % 100 != 0) || year % 400 == 0
}

proof fn lemma_days_before_bound(leap: bool, month: int)
    requires
        1 <= month <= 12,
    ensures
        0 <= days_before(leap, month) <= 31 * (month - 1),
    decreases month,
{
    if month > 1 {
        lemma_days_before_bound(leap, month - 1);
    }
}

/// The day of the year of a date; none for a month outside 1 to 12 or a day that the month
/// does not have.
pub fn day_of_year(year: u16, month: u8, day: u8) -> (r: Option<u16>)
    ensures
        r == spec_day_of_year(year, month, day),
{
    let leap = is_leap_year(year);
    let month_lengths: [u16; 12] = if leap {
        [31, 29, 31, 30, 31, 30, 31, 31, 30, 31, 30, 31]
    } else {
        [31, 28, 31, 30, 31, 30, 31, 31, 30, 31, 30, 31]
    };
    assert(forall|m: int| 1 <= m <= 12 ==> month_lengths@[m - 1] == month_length(leap, m));
    if month == 0 || month > 12 {
        return None;
    }
    let month_idx = (month - 1) as usize;
    let max_day = month_lengths[month_idx] as u8;
    if day == 0 || day > max_day {
        return None;
    }
    let mut days_before_month: u16 = 0;
    let mut i: usize = 0;
    while i < month_idx
        invariant
            month_idx < 12,
            i <= month_idx,
            forall|m: int| 1 <= m <= 12 ==> month_lengths@[m - 1] == month_length(leap, m),
            days_before_month == days_before(leap, i as int + 1),
            days_before_month <= 31 * i,
        decreases month_idx - i,
    {
        assert(month_lengths@[(i as int + 1) - 1] == month_length(leap, i as int + 1));
        days_before_month = days_before_month + month_lengths[i];
        i += 1;
    }
    proof { lemma_days_before_bound(leap, month as int); }
    Some(days_before_month + day as u16)
}

/// A date that exists is a day from 1 to 365 of its year, to 366 in a leap year, and the last
/// of December is the last day of the year.
pub proof fn lemma_day_of_year_range(year: u16, month: u8, day: u8)
    ensures
        spec_day_of_year(year, month, day) matches Some(n) ==> 1 <= n <= (if spec_is_leap_year(
            year as int,
        ) {
            366int
        } else {
            365int
        }),
        spec_day_of_year(year, 12, 31) == Some(if spec_is_leap_year(year as int) { 366u16 } else { 365u16 }),
{
    let leap = spec_is_leap_year(year as int);
    reveal_with_fuel(days_before, 13);
    assert(days_before(leap, 12) == if leap { 335int } else { 334int });
    if 1 <= month <= 12 {
        lemma_days_before_month(leap, month as int);
    }
}

/// The days before a month and in it are at most those before January of the next year.
proof fn lemma_days_before_month(leap: bool, month: int)
    requires
        1 <= month <= 12,
    ensures
        days_before(leap, month) + month_length(leap, month) <= days_before(leap, 12) + 31,
    decreases 12 - month,
{
    if month < 12 {
        lemma_days_before_month(leap, month + 1);
    }
}

/// The time of day of a number of seconds, taken modulo a day (also for negative numbers).
pub open spec fn spec_hms(total_seconds: int) -> SunsetResult {
    let t = total_seconds % 86400;
    SunsetResult { hour: (t / 3600) as u8, min: ((t % 3600) / 60) as u8, sec: (t % 60) as u8 }
}

/// The time of day of a number of seconds (the rounded hours of the sunset times 3600), taken
/// modulo a day.
pub fn seconds_to_hms(total_seconds: i32) -> (r: SunsetResult)
    ensures
        r == spec_hms(total_seconds as int),
        r.hour < 24 && r.min < 60 && r.sec < 60,
{
    let wide = total_seconds as i64;
    let t: i64 = if wide >= 0 {
        wide % 86400
    } else {
        let back = (-wide) % 86400;
        if back == 0 { 0 } else { 86400 - back }
    };
    assert(t == total_seconds as int % 86400) by {
        if wide < 0 {
            let back = (-wide) % 86400;
            assert(-wide == 86400 * ((-wide) / 86400) + back);
        }
    }
    let hour = (t / 3600) as u8;
    let min = ((t % 3600) / 60) as u8;
    let sec = (t % 60) as u8;
    SunsetResult { hour, min, sec }
}

/// The ASCII digit of a value below 10.
pub open spec fn digit(n: u8) -> u8 {
    (48 + n) as u8
}

/// The time as `HH:MM`, hours and minutes each with two digits.
pub fn format_hhmm(result: SunsetResult) -> (r: [u8; 5])
    requires
        result.hour < 100,
        result.min < 100,
    ensures
        r@ == seq![
            digit(result.hour / 10),
            digit(result.hour % 10),
            58u8,
            digit(result.min / 10),
            digit(result.min % 10),
        ],
{
    let r = [48 + result.hour / 10, 48 + result.hour % 10, 58, 48 + result.min / 10, 48 + result.min % 10];
    assert(r@ =~= seq![
        digit(result.hour / 10),
        digit(result.hour % 10),
        58u8,
        digit(result.min / 10),
        digit(result.min % 10),
    ]);
    r
}

} // verus!
