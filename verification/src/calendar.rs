use vstd::prelude::*;

verus! {

/// Gregorian leap-year rule.
pub open spec fn is_leap_year(year: int) -> bool {
    (year % 4 == 0 && year % 100 != 0) || year % 400 == 0
}

/// Length of a month in a common year; a month number outside
/// January..December has no days.
pub open spec fn month_length(month: int) -> int {
    if month == 2 {
        28
    } else if month == 4 || month == 6 || month == 9 || month == 11 {
        30
    } else if 1 <= month <= 12 {
        31
    } else {
        0
    }
}

/// Days in the months strictly before `month` (counting from January),
/// with the leap day added once February has been passed in a leap year.
pub open spec fn days_before_month(month: int, leap: bool) -> int
    decreases month,
{
    if month <= 1 {
        0
    } else {
        days_before_month(month - 1, leap) + month_length(month - 1) + if month - 1 == 2 && leap {
            1int
        } else {
            0int
        }
    }
}

/// Day of the year used by the virtual gnomon.  A month past December
/// counts the months January..November before it, like December does;
/// the day is clamped to the month's common-year length (so February 29
/// reads as February 28, also in a leap year), and a month outside
/// January..December contributes no days of its own.
pub open spec fn day_of_year(month: int, day: int, year: int) -> int {
    days_before_month(if month < 12 { month } else { 12 }, is_leap_year(year)) + if day
        < month_length(month) {
        day
    } else {
        month_length(month)
    }
}


/// Whether `year` is a Gregorian leap year.
pub fn leap_year(year: i32) -> (leap: bool)
    ensures
        leap == is_leap_year(year as int),
{
    (year % 4 == 0 && year % 100 != 0) || year % 400 == 0
}

/// Common-year length of `month`, zero outside January..December.
pub fn days_in_month(month: u32) -> (days: u32)
    ensures
        days == month_length(month as int),
{
    if month == 2 {
        28
    } else if month == 4 || month == 6 || month == 9 || month == 11 {
        30
    } else if 1 <= month && month <= 12 {
        31
    } else {
        0
    }
}

proof fn lemma_days_before_month_step(month: int, leap: bool)
    requires
        1 <= month,
    ensures
        days_before_month(month + 1, leap) == days_before_month(month, leap) + month_length(month)
            + if month == 2 && leap {
            1int
        } else {
            0int
        },
{
}

/// `days_before_month` never decreases with the month.
proof fn lemma_days_before_month_monotone(m1: int, m2: int, leap: bool)
    requires
        m1 <= m2,
    ensures
        days_before_month(m1, leap) <= days_before_month(m2, leap),
    decreases m2 - m1,
{
    if m1 < m2 {
        lemma_days_before_month_monotone(m1, m2 - 1, leap);
        if m2 - 1 >= 1 {
            lemma_days_before_month_step(m2 - 1, leap);
        }
    }
}

/// The months January..December add up to 365 days, 366 in a leap year.
proof fn lemma_days_before_year_end(leap: bool)
    ensures
        days_before_month(13, leap) == if leap {
            366int
        } else {
            365int
        },
        days_before_month(12, leap) == if leap {
            335int
        } else {
            334int
        },
{
    reveal_with_fuel(days_before_month, 13);
}

/// Day of the year for `month`/`day` in `year` (see `day_of_year`).
pub fn compute_day_of_year(month: u32, day: u32, year: i32) -> (doy: u32)
    ensures
        doy as int == day_of_year(month as int, day as int, year as int),
        doy <= 366,
{
    let leap = leap_year(year);
    let last = if month < 12 { month } else { 12 };
    let mut doy: u32 = 0;
    let mut m: u32 = 1;
    proof {
        lemma_days_before_year_end(leap);
    }
    while m < last
        invariant
            1 <= m <= 12,
            last <= 12,
            m <= last || m == 1,
            doy as int == days_before_month(m as int, leap),
            days_before_month(13, leap) <= 366,
        decreases last - m,
    {
        proof {
            lemma_days_before_month_step(m as int, leap);
            lemma_days_before_month_monotone(m as int + 1, 13, leap);
        }
        let extra: u32 = if m == 2 && leap { 1 } else { 0 };
        doy = doy + days_in_month(m) + extra;
        m = m + 1;
    }
    let len = days_in_month(month);
    let clamped = if day < len { day } else { len };
    proof {
        if last == 0 {
            assert(days_before_month(0, leap) == 0);
            assert(days_before_month(1, leap) == 0);
        }
        assert(doy as int == days_before_month(last as int, leap));
        if month <= 12 && month >= 1 {
            lemma_days_before_month_step(month as int, leap);
            lemma_days_before_month_monotone(month as int + 1, 13, leap);
        }
    }
    doy + clamped
}

/// The leap day shifts `days_before_month` by one from March on.
proof fn lemma_days_before_month_leap(month: int)
    ensures
        days_before_month(month, true) == days_before_month(month, false) + if month >= 3 {
            1int
        } else {
            0int
        },
    decreases month,
{
    if month > 1 {
        lemma_days_before_month_leap(month - 1);
    }
}

/// In a leap year every day from March on comes one later in the year than
/// the same month and day of a common year; January and February are
/// numbered alike.
pub proof fn law_leap_day_shift(month: int, day: int, leap_year: int, common_year: int)
    requires
        is_leap_year(leap_year),
        !is_leap_year(common_year),
    ensures
        3 <= month ==> day_of_year(month, day, leap_year) == day_of_year(month, day, common_year)
            + 1,
        month <= 2 ==> day_of_year(month, day, leap_year) == day_of_year(month, day, common_year),
{
    let m = if month < 12 {
        month
    } else {
        12
    };
    lemma_days_before_month_leap(m);
}

/// A real calendar date: a month of the year and a day within its
/// common-year length.
pub open spec fn is_calendar_date(month: int, day: int) -> bool {
    1 <= month <= 12 && 1 <= day <= month_length(month)
}

/// Within one year the day-of-year numbering of real calendar dates starts
/// at 1, keeps their order and never repeats a number.
pub proof fn law_day_of_year_order(m1: int, d1: int, m2: int, d2: int, year: int)
    requires
        is_calendar_date(m1, d1),
        is_calendar_date(m2, d2),
        m1 < m2 || (m1 == m2 && d1 < d2),
    ensures
        1 <= day_of_year(m1, d1, year) < day_of_year(m2, d2, year),
{
    let leap = is_leap_year(year);
    lemma_days_before_month_monotone(1, m1, leap);
    assert(days_before_month(1, leap) == 0);
    if m1 < m2 {
        lemma_days_before_month_step(m1, leap);
        lemma_days_before_month_monotone(m1 + 1, m2, leap);
    }
}

/// The last day of December is day 366 of a leap year and day 365 of a
/// common year.
pub proof fn law_year_end(year: int)
    ensures
        day_of_year(12, 31, year) == if is_leap_year(year) {
            366int
        } else {
            365int
        },
{
    lemma_days_before_year_end(is_leap_year(year));
}

/// The Gregorian rule decides the length of every year: the last day of
/// December is day 366 exactly when the year is divisible by 4 but not by
/// 100, or divisible by 400, and day 365 otherwise.
pub proof fn law_gregorian_year_length(year: int)
    ensures
        day_of_year(12, 31, year) == if (year % 4 == 0 && year % 100 != 0) || year % 400 == 0 {
            366int
        } else {
            365int
        },
        day_of_year(3, 1, year) == if (year % 4 == 0 && year % 100 != 0) || year % 400 == 0 {
            61int
        } else {
            60int
        },
{
    lemma_days_before_year_end(is_leap_year(year));
    reveal_with_fuel(days_before_month, 4);
}

/// A real calendar date is numbered by the days of the months before it
/// (31, 28, 31, 30, 31, 30, 31, 31, 30, 31, 30 days, with February 29 added
/// from March on in a Gregorian leap year) plus its day of the month.
pub proof fn law_calendar_date_numbering(month: int, day: int, year: int)
    requires
        1 <= month <= 12,
        1 <= day <= seq![31int, 28, 31, 30, 31, 30, 31, 31, 30, 31, 30, 31][month - 1],
    ensures
        day_of_year(month, day, year) == seq![0int, 31, 59, 90, 120, 151, 181, 212, 243, 273, 304, 334][month
            - 1] + day + if month >= 3 && ((year % 4 == 0 && year % 100 != 0) || year % 400 == 0) {
            1int
        } else {
            0int
        },
{
    reveal_with_fuel(days_before_month, 13);
}

/// A day past the end of its month (in the common-year table, so also
/// February 29) is numbered as the month's last day.
pub proof fn law_day_clamped_to_month(month: int, day: int, year: int)
    requires
        1 <= month <= 12,
        day >= seq![31int, 28, 31, 30, 31, 30, 31, 31, 30, 31, 30, 31][month - 1],
    ensures
        day_of_year(month, day, year) == day_of_year(
            month,
            seq![31int, 28, 31, 30, 31, 30, 31, 31, 30, 31, 30, 31][month - 1],
            year,
        ),
{
}

/// A month number past December counts the eleven months January to
/// November (334 days, 335 in a Gregorian leap year) and nothing more,
/// whatever the day; month 0 gives day 0 for any non-negative day.
pub proof fn law_out_of_range_months(month: int, day: int, year: int)
    requires
        day >= 0,
    ensures
        month > 12 ==> day_of_year(month, day, year) == if (year % 4 == 0 && year % 100 != 0)
            || year % 400 == 0 {
            335int
        } else {
            334int
        },
        month < 1 ==> day_of_year(month, day, year) == 0,
{
    lemma_days_before_year_end(is_leap_year(year));
}

} // verus!
