use guibiao_backend::calendar::{compute_day_of_year, days_in_month, leap_year};
use guibiao_backend::dynasty_comparison::VirtualExperienceSimulator;
use guibiao_backend::vr_gnomon::VrGnomon;

#[test]
fn test_month_day_to_doy_normal() {
    assert_eq!(f64::from(VirtualExperienceSimulator::month_day_to_doy(1, 1, 2024)), 1.0);
    assert_eq!(f64::from(VirtualExperienceSimulator::month_day_to_doy(2, 1, 2024)), 32.0);
    assert_eq!(f64::from(VirtualExperienceSimulator::month_day_to_doy(3, 1, 2024)), 61.0);
    assert_eq!(f64::from(VirtualExperienceSimulator::month_day_to_doy(12, 31, 2024)), 366.0);
}

#[test]
fn dynasty_comparison_test_month_day_to_doy_leap_year() {
    assert_eq!(f64::from(VirtualExperienceSimulator::month_day_to_doy(3, 1, 2024)), 61.0);
    assert_eq!(f64::from(VirtualExperienceSimulator::month_day_to_doy(3, 1, 2023)), 60.0);
}

#[test]
fn test_month_day_to_doy_boundary() {
    assert_eq!(f64::from(VirtualExperienceSimulator::month_day_to_doy(15, 1, 2024)), 335.0);
    assert_eq!(f64::from(VirtualExperienceSimulator::month_day_to_doy(2, 30, 2024)), 59.0);
}

#[test]
fn vr_gnomon_test_month_day_to_doy_leap_year() {
    assert_eq!(f64::from(VrGnomon::month_day_to_doy(3, 1, 2024)), 61.0);
    assert_eq!(f64::from(VrGnomon::month_day_to_doy(3, 1, 2023)), 60.0);
}

#[test]
fn leap_year_rule() {
    assert!(leap_year(2024));
    assert!(!leap_year(2023));
    assert!(!leap_year(1900));
    assert!(leap_year(2000));
    assert!(leap_year(-4));
    assert!(!leap_year(-1));
}

#[test]
fn days_in_month_table() {
    let expected = [0, 31, 28, 31, 30, 31, 30, 31, 31, 30, 31, 30, 31, 0];
    for (m, d) in expected.iter().enumerate() {
        assert_eq!(days_in_month(m as u32), *d);
    }
}

#[test]
fn leap_day_shifts_march_onward() {
    for (month, day) in [(3, 1), (6, 22), (12, 22), (12, 31)] {
        assert_eq!(
            compute_day_of_year(month, day, 2024),
            compute_day_of_year(month, day, 2023) + 1
        );
    }
    for (month, day) in [(1, 1), (1, 31), (2, 28), (2, 29)] {
        assert_eq!(compute_day_of_year(month, day, 2024), compute_day_of_year(month, day, 2023));
    }
}

#[test]
fn day_numbers_follow_calendar_order() {
    let mut prev = 0;
    for month in 1..=12u32 {
        for day in 1..=days_in_month(month) {
            let doy = compute_day_of_year(month, day, 2023);
            assert_eq!(doy, prev + 1);
            prev = doy;
        }
    }
    assert_eq!(prev, 365);
}

#[test]
fn year_end_day_numbers() {
    assert_eq!(compute_day_of_year(12, 31, 2024), 366);
    assert_eq!(compute_day_of_year(12, 31, 2023), 365);
    assert_eq!(compute_day_of_year(12, 31, 1900), 365);
    assert_eq!(compute_day_of_year(12, 31, 2000), 366);
}

#[test]
fn out_of_range_months_and_days() {
    assert_eq!(compute_day_of_year(0, 5, 2024), 0);
    assert_eq!(compute_day_of_year(13, 20, 2023), 334);
    assert_eq!(compute_day_of_year(4, 31, 2023), 120);
    assert_eq!(compute_day_of_year(1, 0, 2023), 0);
    assert_eq!(compute_day_of_year(6, 22, 2024), 174);
}
