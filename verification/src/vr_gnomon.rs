use vstd::prelude::*;

use crate::calendar::{compute_day_of_year, day_of_year};

verus! {

/// Time acceleration a time series uses when the request names none.
pub const DEFAULT_SERIES_ACCELERATION: u32 = 60;

/// Minutes between two frames of a simulated day at time acceleration
/// `acceleration`: finer steps for slow playback, coarser for fast.
pub open spec fn series_step_minutes(acceleration: int) -> int {
    if 1 <= acceleration <= 5 {
        1
    } else if 6 <= acceleration <= 30 {
        5
    } else if 31 <= acceleration <= 120 {
        10
    } else if 121 <= acceleration <= 600 {
        15
    } else {
        30
    }
}

/// Virtual reality gnomon: single frames and whole simulated days.  The
/// calendar and frame-step decisions live here; the solar geometry is
/// floating-point work done by the service around the library.
pub struct VrGnomon;

impl VrGnomon {
    /// Day of the year of `month`/`day` in `year` (see
    /// `calendar::day_of_year`).
    pub fn month_day_to_doy(month: u32, day: u32, year: i32) -> (doy: u32)
        ensures
            doy as int == day_of_year(month as int, day as int, year as int),
            doy <= 366,
    {
        compute_day_of_year(month, day, year)
    }

    /// Minutes between the frames of a simulated day at the given time
    /// acceleration.
    pub fn time_series_step_minutes(acceleration: u32) -> (minutes: u32)
        ensures
            minutes as int == series_step_minutes(acceleration as int),
    {
        if 1 <= acceleration && acceleration <= 5 {
            1
        } else if 6 <= acceleration && acceleration <= 30 {
            5
        } else if 31 <= acceleration && acceleration <= 120 {
            10
        } else if 121 <= acceleration && acceleration <= 600 {
            15
        } else {
            30
        }
    }
}

/// Faster playback never takes finer steps: from acceleration 1 upward the
/// frame step never shrinks, and it is always one of 1, 5, 10, 15 or 30
/// minutes.
pub proof fn law_series_step_monotone(a1: int, a2: int)
    requires
        1 <= a1 <= a2,
    ensures
        series_step_minutes(a1) <= series_step_minutes(a2),
        series_step_minutes(a2) == 1 || series_step_minutes(a2) == 5 || series_step_minutes(a2)
            == 10 || series_step_minutes(a2) == 15 || series_step_minutes(a2) == 30,
{
}

/// The frame step by playback speed: up to 5x a step of one minute, up to
/// 30x five minutes, up to 120x ten minutes, up to 600x fifteen minutes,
/// and thirty minutes for anything faster (or for a speed of zero).
pub proof fn law_series_step_by_speed(acceleration: int)
    requires
        acceleration >= 0,
    ensures
        1 <= acceleration <= 5 <==> series_step_minutes(acceleration) == 1,
        6 <= acceleration <= 30 <==> series_step_minutes(acceleration) == 5,
        31 <= acceleration <= 120 <==> series_step_minutes(acceleration) == 10,
        121 <= acceleration <= 600 <==> series_step_minutes(acceleration) == 15,
        (acceleration == 0 || acceleration > 600) <==> series_step_minutes(acceleration) == 30,
{
}

} // verus!
