use guibiao_backend::vr_gnomon::{VrGnomon, DEFAULT_SERIES_ACCELERATION};

#[test]
fn series_step_table() {
    let cases = [
        (0, 30),
        (1, 1),
        (5, 1),
        (6, 5),
        (30, 5),
        (31, 10),
        (120, 10),
        (121, 15),
        (600, 15),
        (601, 30),
        (u32::MAX, 30),
    ];
    for (accel, minutes) in cases {
        assert_eq!(VrGnomon::time_series_step_minutes(accel), minutes, "acceleration {}", accel);
    }
}

#[test]
fn default_series_step_is_ten_minutes() {
    assert_eq!(DEFAULT_SERIES_ACCELERATION, 60);
    assert_eq!(VrGnomon::time_series_step_minutes(DEFAULT_SERIES_ACCELERATION), 10);
}

#[test]
fn series_step_never_shrinks_with_acceleration() {
    let mut prev = VrGnomon::time_series_step_minutes(1);
    for accel in 2..=1000u32 {
        let step = VrGnomon::time_series_step_minutes(accel);
        assert!(step >= prev);
        prev = step;
    }
}
