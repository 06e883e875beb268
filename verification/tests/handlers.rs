use guibiao_backend::handlers::TimeRangeQuery;
use guibiao_backend::time::{day_before, UtcInstant};

const NOW: UtcInstant = UtcInstant { secs: 1_734_900_000, nanos: 123 };

#[test]
fn missing_bounds_default_to_last_day() {
    let q = TimeRangeQuery { start: None, end: None };
    let (start, end) = q.resolve(NOW);
    assert_eq!(start, UtcInstant { secs: 1_734_900_000 - 86_400, nanos: 123 });
    assert_eq!(end, NOW);
}

#[test]
fn rfc3339_bounds_are_read_in_utc() {
    let q = TimeRangeQuery {
        start: Some("2024-12-22T04:30:00Z".to_string()),
        end: Some("2024-12-22T12:30:00.25+08:00".to_string()),
    };
    let (start, end) = q.resolve(NOW);
    assert_eq!(start, UtcInstant { secs: 1_734_841_800, nanos: 0 });
    assert_eq!(end, UtcInstant { secs: 1_734_841_800, nanos: 250_000_000 });
}

#[test]
fn unreadable_bounds_fall_back() {
    let q = TimeRangeQuery {
        start: Some("2024-12-22 04:30".to_string()),
        end: Some("yesterday".to_string()),
    };
    let (start, end) = q.resolve(NOW);
    assert_eq!(start, day_before(NOW));
    assert_eq!(end, NOW);
}
