//! The proleptic Gregorian calendar, counted from the Unix epoch.

use chrono::{DateTime, Datelike, NaiveDate, NaiveDateTime, NaiveTime, TimeZone, Timelike, Utc};
use vstd::prelude::*;

verus! {

/// Whether `year` has a 29th of February.
pub open spec fn is_leap_year(year: int) -> bool {
    year % 4 == 0 && (year % 100 != 0 || year % 400 == 0)
}

/// The number of days of month `month` (1 to 12) in `year`.
pub open spec fn days_in_month(year: int, month: int) -> int {
    if month == 2 {
        if is_leap_year(year) {
            29
        } else {
            28
        }
    } else if month == 4 || month == 6 || month == 9 || month == 11 {
        30
    } else {
        31
    }
}

/// Whether `year`-`month`-`day` names a day of the calendar.
pub open spec fn valid_date(year: int, month: int, day: int) -> bool {
    1 <= month <= 12 && 1 <= day <= days_in_month(year, month)
}

/// Whether `hour`:`minute`:`second` names a second of a day (no leap second).
pub open spec fn valid_time(hour: int, minute: int, second: int) -> bool {
    0 <= hour < 24 && 0 <= minute < 60 && 0 <= second < 60
}

/// Whether the six numbers name a second of a day of the calendar.
pub open spec fn valid_civil(
    year: int,
    month: int,
    day: int,
    hour: int,
    minute: int,
    second: int,
) -> bool {
    valid_date(year, month, day) && valid_time(hour, minute, second)
}

/// The number of leap years among the years 1 to `year - 1`.
pub open spec fn leap_years_before(year: int) -> int {
    (year - 1) / 4 - (year - 1) / 100 + (year - 1) / 400
}

/// The number of days from 1970-01-01 to the first of January of `year`.
pub open spec fn days_before_year(year: int) -> int {
    365 * (year - 1970) + leap_years_before(year) - leap_years_before(1970)
}

/// The number of days of `year`.
pub open spec fn days_in_year(year: int) -> int {
    if is_leap_year(year) {
        366
    } else {
        365
    }
}

/// The number of days of `year` that lie before the first of `month`.
pub open spec fn days_before_month(year: int, month: int) -> int
    decreases month,
{
    if month <= 1 {
        0
    } else {
        days_before_month(year, month - 1) + days_in_month(year, month - 1)
    }
}

/// The number of days from 1970-01-01 to `year`-`month`-`day`.
pub open spec fn epoch_days(year: int, month: int, day: int) -> int {
    days_before_year(year) + days_before_month(year, month) + day - 1
}

/// The number of seconds, leap seconds not counted, from 1970-01-01T00:00:00Z
/// to the given second of the given day.
pub open spec fn epoch_seconds(
    year: int,
    month: int,
    day: int,
    hour: int,
    minute: int,
    second: int,
) -> int {
    epoch_days(year, month, day) * 86400 + hour * 3600 + minute * 60 + second
}

/// Builds the UTC date and time with chrono (`NaiveDate::from_ymd_opt`,
/// `NaiveTime::from_hms_opt`, `NaiveDateTime::new`, `TimeZone::from_utc_datetime`
/// for `Utc`) and reads its `DateTime::timestamp`.
///
/// Trusted: for a year from 1970 to 9999 chrono accepts exactly the days of
/// the Gregorian calendar and the seconds 00:00:00 to 23:59:59, and the
/// timestamp is the count of seconds since the epoch.
#[verifier::external_body]
pub(crate) fn utc_timestamp(
    year: i32,
    month: u32,
    day: u32,
    hour: u32,
    minute: u32,
    second: u32,
) -> (r: Option<i64>)
    requires
        1970 <= year <= 9999,
    ensures
        match r {
            Some(t) => valid_civil(year as int, month as int, day as int, hour as int, minute as int, second as int)
                && t == epoch_seconds(year as int, month as int, day as int, hour as int, minute as int, second as int),
            None => !valid_civil(year as int, month as int, day as int, hour as int, minute as int, second as int),
        },
{
    let date = NaiveDate::from_ymd_opt(year, month, day)?;
    let time = NaiveTime::from_hms_opt(hour, minute, second)?;
    Some(Utc.from_utc_datetime(&NaiveDateTime::new(date, time)).timestamp())
}

/// The first millisecond of the year 1, counted from the epoch.
pub const CIVIL_START_MILLIS: i64 = -62135596800000;

/// The first millisecond after the year 65535, counted from the epoch.
pub const CIVIL_END_MILLIS: i64 = 2005949145600000;

/// An instant of the years 1 to 65535, the years that sixteen bits hold, as
/// calendar and clock show it in UTC.
#[derive(Clone, Copy, Debug, PartialEq, Eq, Structural)]
pub struct CivilTime {
    pub year: i32,
    pub month: u32,
    pub day: u32,
    pub hour: u32,
    pub minute: u32,
    pub second: u32,
    pub millisecond: u32,
}

impl CivilTime {
    /// Whether the numbers name a millisecond of a day of the years 1 to 65535.
    pub open spec fn wf(&self) -> bool {
        1 <= self.year <= 65535 && valid_civil(
            self.year as int,
            self.month as int,
            self.day as int,
            self.hour as int,
            self.minute as int,
            self.second as int,
        ) && self.millisecond < 1000
    }

    /// The milliseconds from the epoch to this instant.
    pub open spec fn epoch_millis(&self) -> int {
        epoch_seconds(
            self.year as int,
            self.month as int,
            self.day as int,
            self.hour as int,
            self.minute as int,
            self.second as int,
        ) * 1000 + self.millisecond
    }
}

/// Reads calendar and clock of an instant off chrono: `DateTime::from_timestamp_millis`,
/// then `year`, `month`, `day`, `hour`, `minute`, `second` and
/// `timestamp_subsec_millis` of the `DateTime<Utc>`.
///
/// Trusted: for an instant of the years 1 to 65535 chrono returns a date
/// and time, they are a day of the proleptic Gregorian calendar and a
/// millisecond of that day, and they lie as many milliseconds after the epoch
/// (before it, for a negative count) as were given.
#[verifier::external_body]
pub(crate) fn utc_civil(millis: i64) -> (r: Option<CivilTime>)
    requires
        CIVIL_START_MILLIS <= millis < CIVIL_END_MILLIS,
    ensures
        match r {
            Some(civil) => civil.wf() && civil.epoch_millis() == millis,
            None => false,
        },
{
    let t = DateTime::from_timestamp_millis(millis)?;
    Some(
        CivilTime {
            year: t.year(),
            month: t.month(),
            day: t.day(),
            hour: t.hour(),
            minute: t.minute(),
            second: t.second(),
            millisecond: t.timestamp_subsec_millis(),
        },
    )
}

/// A day's offset within its year is less than the year's length.
pub proof fn lemma_days_before_month_bounds(year: int, month: int)
    requires
        1 <= month <= 12,
    ensures
        0 <= days_before_month(year, month) <= 335,
        days_before_month(year, month) + days_in_month(year, month) <= 366,
{
    reveal_with_fuel(days_before_month, 13);
}

/// The bounds of the day count over the years 1970 to 9999.
pub proof fn lemma_epoch_days_bounds(year: int, month: int, day: int)
    requires
        1970 <= year <= 9999,
        valid_date(year, month, day),
    ensures
        0 <= epoch_days(year, month, day) <= 2932897,
{
    lemma_days_before_month_bounds(year, month);
}

/// A year begins when the year before it has run out.
pub proof fn lemma_year_follows_year(year: int)
    requires
        1 <= year,
    ensures
        days_before_year(year + 1) == days_before_year(year) + days_in_year(year),
{
}

/// A later year begins no earlier than an earlier one ends.
pub proof fn lemma_years_do_not_overlap(earlier: int, later: int)
    requires
        1 <= earlier < later,
    ensures
        days_before_year(earlier) + days_in_year(earlier) <= days_before_year(later),
    decreases later - earlier,
{
    lemma_year_follows_year(earlier);
    if earlier + 1 < later {
        lemma_years_do_not_overlap(earlier + 1, later);
    }
}

/// A day lies within its year.
pub proof fn lemma_day_lies_in_its_year(year: int, month: int, day: int)
    requires
        valid_date(year, month, day),
    ensures
        0 <= days_before_month(year, month) + day - 1 < days_in_year(year),
{
    reveal_with_fuel(days_before_month, 13);
}

/// A later day of a year lies later in it.
pub proof fn lemma_days_of_a_year_are_ordered(
    year: int,
    month1: int,
    day1: int,
    month2: int,
    day2: int,
)
    requires
        valid_date(year, month1, day1),
        valid_date(year, month2, day2),
        month1 < month2 || (month1 == month2 && day1 < day2),
    ensures
        days_before_month(year, month1) + day1 < days_before_month(year, month2) + day2,
{
    reveal_with_fuel(days_before_month, 13);
}

/// Two days that lie equally far from the epoch are one day.
pub proof fn lemma_epoch_days_tell_days_apart(
    year1: int,
    month1: int,
    day1: int,
    year2: int,
    month2: int,
    day2: int,
)
    requires
        1 <= year1,
        1 <= year2,
        valid_date(year1, month1, day1),
        valid_date(year2, month2, day2),
        epoch_days(year1, month1, day1) == epoch_days(year2, month2, day2),
    ensures
        year1 == year2,
        month1 == month2,
        day1 == day2,
{
    lemma_day_lies_in_its_year(year1, month1, day1);
    lemma_day_lies_in_its_year(year2, month2, day2);
    if year1 < year2 {
        lemma_years_do_not_overlap(year1, year2);
    } else if year2 < year1 {
        lemma_years_do_not_overlap(year2, year1);
    } else if month1 < month2 || (month1 == month2 && day1 < day2) {
        lemma_days_of_a_year_are_ordered(year1, month1, day1, month2, day2);
    } else if month2 < month1 || (month1 == month2 && day2 < day1) {
        lemma_days_of_a_year_are_ordered(year1, month2, day2, month1, day1);
    }
}

/// A count splits in one way into whole thousands and a rest below a thousand.
proof fn lemma_thousands_split_once(whole1: int, rest1: int, whole2: int, rest2: int)
    requires
        0 <= rest1 < 1000,
        0 <= rest2 < 1000,
        whole1 * 1000 + rest1 == whole2 * 1000 + rest2,
    ensures
        whole1 == whole2,
        rest1 == rest2,
{
}

/// A count of seconds splits in one way into whole days and a second of the day.
proof fn lemma_days_split_once(days1: int, second1: int, days2: int, second2: int)
    requires
        0 <= second1 < 86400,
        0 <= second2 < 86400,
        days1 * 86400 + second1 == days2 * 86400 + second2,
    ensures
        days1 == days2,
        second1 == second2,
{
}

/// A second of the day splits in one way into hour, minute and second.
proof fn lemma_clock_splits_once(
    hour1: int,
    minute1: int,
    second1: int,
    hour2: int,
    minute2: int,
    second2: int,
)
    requires
        0 <= minute1 < 60,
        0 <= minute2 < 60,
        0 <= second1 < 60,
        0 <= second2 < 60,
        hour1 * 3600 + minute1 * 60 + second1 == hour2 * 3600 + minute2 * 60 + second2,
    ensures
        hour1 == hour2,
        minute1 == minute2,
        second1 == second2,
{
}

/// Calendar and clock name each instant once: two civil times that lie
/// equally far from the epoch agree in every number.
pub proof fn lemma_civil_time_is_unique(a: CivilTime, b: CivilTime)
    requires
        a.wf(),
        b.wf(),
        a.epoch_millis() == b.epoch_millis(),
    ensures
        a == b,
{
    let a_clock = a.hour * 3600 + a.minute * 60 + a.second;
    let b_clock = b.hour * 3600 + b.minute * 60 + b.second;
    let a_days = epoch_days(a.year as int, a.month as int, a.day as int);
    let b_days = epoch_days(b.year as int, b.month as int, b.day as int);
    lemma_thousands_split_once(
        a_days * 86400 + a_clock,
        a.millisecond as int,
        b_days * 86400 + b_clock,
        b.millisecond as int,
    );
    lemma_days_split_once(a_days, a_clock, b_days, b_clock);
    lemma_clock_splits_once(
        a.hour as int,
        a.minute as int,
        a.second as int,
        b.hour as int,
        b.minute as int,
        b.second as int,
    );
    lemma_epoch_days_tell_days_apart(
        a.year as int,
        a.month as int,
        a.day as int,
        b.year as int,
        b.month as int,
        b.day as int,
    );
}

} // verus!
