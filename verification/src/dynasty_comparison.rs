use vstd::prelude::*;

use crate::calendar::{compute_day_of_year, day_of_year};

verus! {

/// Virtual gnomon experience: the sun and shadow for a chosen latitude,
/// date and hour.  The calendar part of the simulation lives here; the
/// solar geometry is floating-point work done by the service around the
/// library.
pub struct VirtualExperienceSimulator;

impl VirtualExperienceSimulator {
    /// Day of the year of `month`/`day` in `year`: out-of-range days are
    /// clamped to the month's common-year length, a month past December
    /// counts January..November before it and has no days of its own.
    pub fn month_day_to_doy(month: u32, day: u32, year: i32) -> (doy: u32)
        ensures
            doy as int == day_of_year(month as int, day as int, year as int),
            doy <= 366,
    {
        compute_day_of_year(month, day, year)
    }
}

} // verus!
