//! The Gregorian calendar on day numbers.
//!
//! A day number counts days from 1970-01-01.  The calendar itself is stated
//! directly by [`days_from_civil`]: the days before a year, plus the days
//! before a month within it, plus the day of the month.  A date determines
//! its day number by that sum alone, and [`lemma_civil_unique`] shows the
//! converse: no two dates share a day number.  [`civil_from_days`] inverts
//! the sum, verified: it returns exactly [`civil_of`] of its argument.

use vstd::prelude::*;

verus! {

/// Whether a year is a Gregorian leap year.
pub open spec fn is_leap(y: int) -> bool {
    (y % 4 == 0 && y % 100 != 0) || y % 400 == 0
}

/// Days in a year.
pub open spec fn year_len(y: int) -> int {
    if is_leap(y) {
        366
    } else {
        365
    }
}

/// Days in a month (1 to 12) of a year.
pub open spec fn month_len(y: int, m: int) -> int {
    if m == 2 {
        if is_leap(y) {
            29
        } else {
            28
        }
    } else if m == 4 || m == 6 || m == 9 || m == 11 {
        30
    } else {
        31
    }
}

/// Days from 1970-01-01 to the first day of year `y`.
pub open spec fn days_before_year(y: int) -> int
    decreases y - 1970,
{
    if y <= 1970 {
        0
    } else {
        days_before_year(y - 1) + year_len(y - 1)
    }
}

/// Days from the first day of year `y` to the first day of its month `m`.
pub open spec fn days_before_month(y: int, m: int) -> int
    decreases m,
{
    if m <= 1 {
        0
    } else {
        days_before_month(y, m - 1) + month_len(y, m - 1)
    }
}

/// The day number of the date `y-m-d`: the calendar, stated directly.
pub open spec fn days_from_civil(y: int, m: int, d: int) -> int {
    days_before_year(y) + days_before_month(y, m) + d - 1
}

/// Whether `y-m-d` names a day of the supported calendar, which starts at
/// 1970.
pub open spec fn valid_civil(y: int, m: int, d: int) -> bool {
    1970 <= y && 1 <= m <= 12 && 1 <= d <= month_len(y, m)
}

/// The date a day number falls on: the one valid date whose day count it
/// is.
pub open spec fn civil_of(days: int) -> (int, int, int) {
    choose|ymd: (int, int, int)|
        valid_civil(ymd.0, ymd.1, ymd.2) && days_from_civil(ymd.0, ymd.1, ymd.2) == days
}

/// The last day number the calendar helpers accept; day 47846 is
/// 2100-12-31.
pub const MAX_EPOCH_DAY: u64 = 47846;

proof fn lemma_days_before_month_mono(y: int, m1: int, m2: int)
    requires
        m1 <= m2,
    ensures
        days_before_month(y, m1) <= days_before_month(y, m2),
    decreases m2 - m1,
{
    if m1 < m2 {
        lemma_days_before_month_mono(y, m1, m2 - 1);
    }
}

proof fn lemma_days_before_year_mono(y1: int, y2: int)
    requires
        y1 <= y2,
    ensures
        days_before_year(y1) <= days_before_year(y2),
    decreases y2 - y1,
{
    if y1 < y2 {
        lemma_days_before_year_mono(y1, y2 - 1);
    }
}

proof fn lemma_year_end(y: int)
    ensures
        days_before_month(y, 13) == year_len(y),
{
    reveal_with_fuel(days_before_month, 14);
}

/// A valid date's day of the year lies within its year.
proof fn lemma_day_of_year_range(y: int, m: int, d: int)
    requires
        valid_civil(y, m, d),
    ensures
        0 <= days_before_month(y, m) + d - 1 < year_len(y),
{
    lemma_days_before_month_mono(y, 1, m);
    lemma_days_before_month_mono(y, m + 1, 13);
    lemma_year_end(y);
    assert(days_before_month(y, m + 1) == days_before_month(y, m) + month_len(y, m));
}

/// No two valid dates share a day number.
pub proof fn lemma_civil_unique(y1: int, m1: int, d1: int, y2: int, m2: int, d2: int)
    requires
        valid_civil(y1, m1, d1),
        valid_civil(y2, m2, d2),
        days_from_civil(y1, m1, d1) == days_from_civil(y2, m2, d2),
    ensures
        y1 == y2 && m1 == m2 && d1 == d2,
{
    lemma_day_of_year_range(y1, m1, d1);
    lemma_day_of_year_range(y2, m2, d2);
    if y1 < y2 {
        lemma_days_before_year_mono(y1 + 1, y2);
        assert(days_before_year(y1 + 1) == days_before_year(y1) + year_len(y1));
        assert(false);
    }
    if y2 < y1 {
        lemma_days_before_year_mono(y2 + 1, y1);
        assert(days_before_year(y2 + 1) == days_before_year(y2) + year_len(y2));
        assert(false);
    }
    if m1 < m2 {
        lemma_days_before_month_mono(y1, m1 + 1, m2);
        assert(days_before_month(y1, m1 + 1) == days_before_month(y1, m1) + month_len(y1, m1));
        assert(false);
    }
    if m2 < m1 {
        lemma_days_before_month_mono(y1, m2 + 1, m1);
        assert(days_before_month(y1, m2 + 1) == days_before_month(y1, m2) + month_len(y1, m2));
        assert(false);
    }
}

proof fn lemma_days_before_year_2100()
    ensures
        days_before_year(2100) == 47482,
{
    reveal_with_fuel(days_before_year, 12);
    assert(days_before_year(1980) == 3652);
    assert(days_before_year(1990) == 7305);
    assert(days_before_year(2000) == 10957);
    assert(days_before_year(2010) == 14610);
    assert(days_before_year(2020) == 18262);
    assert(days_before_year(2030) == 21915);
    assert(days_before_year(2040) == 25567);
    assert(days_before_year(2050) == 29220);
    assert(days_before_year(2060) == 32872);
    assert(days_before_year(2070) == 36525);
    assert(days_before_year(2080) == 40177);
    assert(days_before_year(2090) == 43830);
    assert(days_before_year(2100) == 47482);
}

fn is_leap_exec(y: u64) -> (r: bool)
    ensures
        r == is_leap(y as int),
{
    (y % 4 == 0 && y % 100 != 0) || y % 400 == 0
}

fn year_len_exec(y: u64) -> (r: u64)
    ensures
        r == year_len(y as int),
{
    if is_leap_exec(y) {
        366
    } else {
        365
    }
}

fn month_len_exec(y: u64, m: u64) -> (r: u64)
    requires
        1 <= m <= 12,
    ensures
        r == month_len(y as int, m as int),
{
    if m == 2 {
        if is_leap_exec(y) {
            29
        } else {
            28
        }
    } else if m == 4 || m == 6 || m == 9 || m == 11 {
        30
    } else {
        31
    }
}

/// The date a day number falls on: valid, counting back to exactly the
/// given day number, with the year within the supported span.
pub fn civil_from_days(days: u64) -> (ymd: (u64, u8, u8))
    requires
        days <= MAX_EPOCH_DAY,
    ensures
        (ymd.0 as int, ymd.1 as int, ymd.2 as int) == civil_of(days as int),
        valid_civil(ymd.0 as int, ymd.1 as int, ymd.2 as int),
        days_from_civil(ymd.0 as int, ymd.1 as int, ymd.2 as int) == days,
        1970 <= ymd.0 <= 2100,
{
    let mut y: u64 = 1970;
    let mut rem: u64 = days;
    while rem >= year_len_exec(y)
        invariant
            1970 <= y <= 2100,
            days <= MAX_EPOCH_DAY,
            days_before_year(y as int) + rem == days,
        decreases rem,
    {
        proof {
            if y == 2100 {
                lemma_days_before_year_2100();
                assert(false);
            }
        }
        rem = rem - year_len_exec(y);
        y = y + 1;
    }
    // rem is now the day of the year; walk the months the same way.
    let mut m: u64 = 1;
    let ghost day_of_year = rem as int;
    while rem >= month_len_exec(y, m)
        invariant
            1 <= m <= 12,
            1970 <= y <= 2100,
            day_of_year < year_len(y as int),
            days_before_month(y as int, m as int) + rem == day_of_year,
        decreases 12 - m,
    {
        proof {
            if m == 12 {
                lemma_year_end(y as int);
                assert(false);
            }
        }
        rem = rem - month_len_exec(y, m);
        m = m + 1;
    }
    let ymd = (y, m as u8, (rem + 1) as u8);
    proof {
        let wy = ymd.0 as int;
        let wm = ymd.1 as int;
        let wd = ymd.2 as int;
        assert(valid_civil(wy, wm, wd) && days_from_civil(wy, wm, wd) == days);
        let c = civil_of(days as int);
        assert(valid_civil(c.0, c.1, c.2) && days_from_civil(c.0, c.1, c.2) == days) by {
            assert(valid_civil(wy, wm, wd) && days_from_civil(wy, wm, wd) == days);
        }
        lemma_civil_unique(wy, wm, wd, c.0, c.1, c.2);
    }
    ymd
}

} // verus!
