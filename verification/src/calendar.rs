//! The Gregorian calendar, carried back and forward without limit, counted in
//! days from 1970-01-01.

use vstd::prelude::*;

verus! {

/// Whether year `y` has a 29th of February.
pub open spec fn is_leap(y: int) -> bool {
    y % 4 == 0 && (y % 100 != 0 || y % 400 == 0)
}

/// How many days month `m` of year `y` has.
pub open spec fn days_in_month(y: int, m: int) -> int {
    if m == 2 {
        if is_leap(y) {
            29
        } else {
            28
        }
    } else if m == 4 || m == 6 || m == 9 || m == 11 {
        30
    } else {
        31
    }
}

/// How many days of year `y` come before the first of month `m`.
pub open spec fn days_before_month(y: int, m: int) -> int
    decreases m,
{
    if m <= 1 {
        0
    } else {
        days_before_month(y, m - 1) + days_in_month(y, m - 1)
    }
}

/// How many of the years 1 to `y - 1` are leap years (and, below year 1, the
/// same count carried on).
pub open spec fn leap_years_before(y: int) -> int {
    (y - 1) / 4 - (y - 1) / 100 + (y - 1) / 400
}

/// How many days lie from 1970-01-01 to the first of January of year `y`.
pub open spec fn days_before_year(y: int) -> int {
    365 * (y - 1970) + leap_years_before(y) - leap_years_before(1970)
}

/// Whether `y`-`m`-`d` is a day of the calendar.
pub open spec fn is_civil_date(y: int, m: int, d: int) -> bool {
    1 <= m <= 12 && 1 <= d <= days_in_month(y, m)
}

/// How many days lie from 1970-01-01 to `y`-`m`-`d`.
pub open spec fn days_from_civil(y: int, m: int, d: int) -> int {
    days_before_year(y) + days_before_month(y, m) + (d - 1)
}

/// The day of the calendar that lies `days` days from 1970-01-01, as year,
/// month and day of the month.
pub open spec fn civil_from_days(days: int) -> (int, int, int) {
    choose|date: (int, int, int)|
        is_civil_date(date.0, date.1, date.2) && days_from_civil(date.0, date.1, date.2) == days
}

/// The count of days starts at 1970-01-01, and each year adds its 365 or 366 days.
pub proof fn lemma_years_add_their_days(y: int)
    ensures
        days_before_year(1970) == 0,
        days_before_year(y + 1) - days_before_year(y) == if is_leap(y) {
            366int
        } else {
            365int
        },
        days_before_month(y, 13) == days_before_year(y + 1) - days_before_year(y),
{
    reveal_with_fuel(days_before_month, 14);
}

/// A later day of the calendar has the greater count: no two days share one.
pub proof fn lemma_days_from_civil_increases(y1: int, m1: int, d1: int, y2: int, m2: int, d2: int)
    requires
        is_civil_date(y1, m1, d1),
        is_civil_date(y2, m2, d2),
        y1 < y2 || (y1 == y2 && (m1 < m2 || (m1 == m2 && d1 < d2))),
    ensures
        days_from_civil(y1, m1, d1) < days_from_civil(y2, m2, d2),
{
    lemma_day_within_year(y1, m1, d1);
    lemma_day_within_year(y2, m2, d2);
    if y1 < y2 {
        lemma_years_increase(y1 + 1, y2);
        lemma_years_add_their_days(y1);
    } else if m1 < m2 {
        lemma_months_increase(y1, m1 + 1, m2);
        reveal_with_fuel(days_before_month, 2);
    }
}

/// The day that a count of days names is the only one: two days of the
/// calendar with the same count are the same day.
pub proof fn lemma_civil_date_is_unique(y1: int, m1: int, d1: int, y2: int, m2: int, d2: int)
    requires
        is_civil_date(y1, m1, d1),
        is_civil_date(y2, m2, d2),
        days_from_civil(y1, m1, d1) == days_from_civil(y2, m2, d2),
    ensures
        y1 == y2 && m1 == m2 && d1 == d2,
{
    if y1 < y2 || (y1 == y2 && (m1 < m2 || (m1 == m2 && d1 < d2))) {
        lemma_days_from_civil_increases(y1, m1, d1, y2, m2, d2);
    } else if y2 < y1 || (y1 == y2 && (m2 < m1 || (m1 == m2 && d2 < d1))) {
        lemma_days_from_civil_increases(y2, m2, d2, y1, m1, d1);
    }
}

proof fn lemma_day_within_year(y: int, m: int, d: int)
    requires
        is_civil_date(y, m, d),
    ensures
        0 <= days_before_month(y, m) + (d - 1) < days_before_month(y, 13),
        days_before_month(y, m) + days_in_month(y, m) <= days_before_month(y, 13),
{
    reveal_with_fuel(days_before_month, 14);
}

proof fn lemma_months_increase(y: int, a: int, b: int)
    requires
        1 <= a <= b <= 13,
    ensures
        days_before_month(y, a) <= days_before_month(y, b),
    decreases b - a,
{
    if a < b {
        lemma_months_increase(y, a, b - 1);
    }
}

proof fn lemma_years_increase(a: int, b: int)
    requires
        a <= b,
    ensures
        days_before_year(a) <= days_before_year(b),
    decreases b - a,
{
    if a < b {
        lemma_years_increase(a, b - 1);
        lemma_years_add_their_days(b - 1);
    }
}

/// The year, counted from 0, of a cycle of 400 years in which day `doe` of the
/// cycle falls. The cycle starts on a first of March.
#[verifier::opaque]
spec fn year_of_era(doe: int) -> int {
    (doe - doe / 1_460 + doe / 36_524 - doe / 146_096) / 365
}

/// How many days lie from the start of a cycle to the first of March of its year `yoe`.
#[verifier::opaque]
spec fn days_before_year_of_era(yoe: int) -> int {
    365 * yoe + yoe / 4 - yoe / 100
}

/// The month, counted from March as 0, in which day `yd` of such a year falls.
#[verifier::opaque]
spec fn month_from_march(yd: int) -> int {
    (5 * yd + 2) / 153
}

/// How many days lie from the first of March to the first of month `mp`.
#[verifier::opaque]
spec fn days_before_month_from_march(mp: int) -> int {
    (153 * mp + 2) / 5
}

/// How many days lie from 0000-03-01 to the first of March of year `y`.
#[verifier::opaque]
spec fn days_before_march(y: int) -> int {
    365 * y + y / 4 - y / 100 + y / 400
}

spec fn month_number(mp: int) -> int {
    if mp < 10 {
        mp + 3
    } else {
        mp - 9
    }
}

proof fn lemma_year_of_era(doe: int)
    requires
        0 <= doe <= 146_096,
    ensures
        0 <= year_of_era(doe) <= 399,
        0 <= doe - days_before_year_of_era(year_of_era(doe)) <= if is_leap(year_of_era(doe) + 1) {
            365int
        } else {
            364int
        },
{
    reveal(year_of_era);
    reveal(days_before_year_of_era);
    lemma_cycle_splits_into_years(doe);
}

proof fn lemma_cycle_splits_into_years(doe: int)
    requires
        0 <= doe <= 146_096,
    ensures
        ({
            let yoe = (doe - doe / 1_460 + doe / 36_524 - doe / 146_096) / 365;
            let yd = doe - (365 * yoe + yoe / 4 - yoe / 100);
            &&& 0 <= yoe <= 399
            &&& 0 <= yd
            &&& yd <= if is_leap(yoe + 1) {
                365int
            } else {
                364int
            }
        }),
{
    if doe < 36_524 {
        lemma_century_splits_into_years(doe, 0);
    } else if doe < 73_048 {
        lemma_century_splits_into_years(doe, 1);
    } else if doe < 109_572 {
        lemma_century_splits_into_years(doe, 2);
    } else if doe < 146_096 {
        lemma_century_splits_into_years(doe, 3);
    } else {
        assert(doe / 1_460 == 100 && doe / 36_524 == 4 && doe / 146_096 == 1);
    }
}

/// The same for the days of one century `c` of the cycle, the last day of the
/// cycle left out.
#[verifier::rlimit(60)]
proof fn lemma_century_splits_into_years(doe: int, c: int)
    requires
        0 <= c <= 3,
        36_524 * c <= doe < 36_524 * (c + 1),
    ensures
        doe / 36_524 == c,
        doe / 146_096 == 0,
        ({
            let yoe = (doe - doe / 1_460 + c) / 365;
            let yd = doe - (365 * yoe + yoe / 4 - yoe / 100);
            &&& 100 * c <= yoe <= 100 * c + 99
            &&& 0 <= yd
            &&& yd <= if is_leap(yoe + 1) {
                365int
            } else {
                364int
            }
        }),
{
    let q = doe / 1_460;
    let yoe = (doe - q + c) / 365;
    assert(25 * c <= q <= 25 * c + 25);
    assert(100 * c <= yoe <= 100 * c + 99);
    assert(yoe / 100 == c);
}

proof fn lemma_month_from_march(y: int, yd: int)
    requires
        0 <= yd <= if is_leap(y + 1) {
            365int
        } else {
            364int
        },
    ensures
        ({
            let mp = month_from_march(yd);
            let m = month_number(mp);
            let d = yd - days_before_month_from_march(mp) + 1;
            let year = if m <= 2 {
                y + 1
            } else {
                y
            };
            &&& 0 <= mp <= 11
            &&& is_civil_date(year, m, d)
            &&& days_before_month(year, m) + (d - 1) == if m <= 2 {
                yd - 306
            } else {
                yd + 59 + if is_leap(y) {
                    1int
                } else {
                    0int
                }
            }
        }),
{
    reveal(month_from_march);
    reveal(days_before_month_from_march);
    reveal_with_fuel(days_before_month, 14);
}

proof fn lemma_first_of_march(y: int)
    ensures
        days_before_year(y) + 59 + (if is_leap(y) {
            1int
        } else {
            0int
        }) == days_before_march(y) - 719_468,
        days_before_year(y + 1) == days_before_march(y) - 719_468 + 306,
{
    reveal(days_before_march);
}

proof fn lemma_cycle_of_400(era: int, yoe: int)
    requires
        0 <= yoe <= 399,
    ensures
        is_leap(400 * era + yoe + 1) == is_leap(yoe + 1),
        days_before_march(400 * era + yoe) == era * 146_097 + days_before_year_of_era(yoe),
{
    reveal(days_before_march);
    reveal(days_before_year_of_era);
}

/// The day on which day `doe` of the cycle of 400 years numbered `era` falls,
/// the cycles starting on the first of March of the years that 400 divides.
proof fn lemma_day_of_era(era: int, doe: int)
    requires
        0 <= doe <= 146_096,
    ensures
        ({
            let yoe = year_of_era(doe);
            let yd = doe - days_before_year_of_era(yoe);
            let mp = month_from_march(yd);
            let m = month_number(mp);
            let d = yd - days_before_month_from_march(mp) + 1;
            let y = if m <= 2 {
                400 * era + yoe + 1
            } else {
                400 * era + yoe
            };
            &&& 0 <= yoe <= 399
            &&& 0 <= yd <= 365
            &&& 0 <= mp <= 11
            &&& is_civil_date(y, m, d)
            &&& days_from_civil(y, m, d) == era * 146_097 + doe - 719_468
        }),
{
    let yoe = year_of_era(doe);
    let yd = doe - days_before_year_of_era(yoe);
    lemma_year_of_era(doe);
    lemma_cycle_of_400(era, yoe);
    lemma_month_from_march(400 * era + yoe, yd);
    lemma_first_of_march(400 * era + yoe);
}

/// The day of the calendar that lies `days_since_unix_epoch` days from
/// 1970-01-01, as year, month and day of the month.
///
/// Every count of days names a day, before 1970 as well as after.
pub fn civil_from_days_utc(days_since_unix_epoch: i64) -> (date: (i64, u32, u32))
    ensures
        is_civil_date(date.0 as int, date.1 as int, date.2 as int),
        days_from_civil(date.0 as int, date.1 as int, date.2 as int) == days_since_unix_epoch,
        (date.0 as int, date.1 as int, date.2 as int) == civil_from_days(
            days_since_unix_epoch as int,
        ),
        days_since_unix_epoch >= 0 ==> date.0 >= 1970,
{
    let z: i128 = days_since_unix_epoch as i128 + 719_468;
    let era: i128 = if z >= 0 {
        z / 146_097
    } else {
        -((146_096 - z) / 146_097)
    };
    let doe: i128 = z - era * 146_097;
    proof {
        lemma_day_of_era(era as int, doe as int);
        reveal(year_of_era);
        reveal(days_before_year_of_era);
        reveal(month_from_march);
        reveal(days_before_month_from_march);
    }
    let yoe: i128 = (doe - doe / 1_460 + doe / 36_524 - doe / 146_096) / 365;
    let yd: i128 = doe - (365 * yoe + yoe / 4 - yoe / 100);
    let mp: i128 = (5 * yd + 2) / 153;
    let d: i128 = yd - (153 * mp + 2) / 5 + 1;
    let m: i128 = if mp < 10 {
        mp + 3
    } else {
        mp - 9
    };
    let y: i128 = if m <= 2 {
        400 * era + yoe + 1
    } else {
        400 * era + yoe
    };
    proof {
        lemma_civil_from_days_is(days_since_unix_epoch as int, y as int, m as int, d as int);
    }
    (y as i64, m as u32, d as u32)
}

/// The day that a count of days names is the day with that count.
pub proof fn lemma_civil_from_days_is(days: int, y: int, m: int, d: int)
    requires
        is_civil_date(y, m, d),
        days_from_civil(y, m, d) == days,
    ensures
        civil_from_days(days) == (y, m, d),
{
    let found = civil_from_days(days);
    let witness = (y, m, d);
    assert(is_civil_date(witness.0, witness.1, witness.2) && days_from_civil(
        witness.0,
        witness.1,
        witness.2,
    ) == days);
    lemma_civil_date_is_unique(found.0, found.1, found.2, y, m, d);
}

} // verus!
