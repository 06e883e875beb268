use vstd::prelude::*;

use crate::station_map::StationMap;
use crate::time::{law_shifted_instant_seconds, seconds_between, whole_seconds_between, UtcInstant};

verus! {

/// Whether a shadow-deviation alert for `station` at `now` is held back:
/// the station's previous alert lies fewer than `debounce_seconds` whole
/// seconds before `now`.
pub open spec fn alert_suppressed(
    last_alerts: Map<Seq<char>, UtcInstant>,
    station: Seq<char>,
    now: UtcInstant,
    debounce_seconds: int,
) -> bool {
    last_alerts.dom().contains(station) && whole_seconds_between(now, last_alerts[station])
        < debounce_seconds
}

/// Per-station memory of the last alert raised, used to hold back repeated
/// alerts for a station within the debounce window.
pub struct AlertDebouncer {
    last_alert: StationMap<UtcInstant>,
}

impl AlertDebouncer {
    /// Time of the last alert raised for each station.
    pub closed spec fn last_alerts(&self) -> Map<Seq<char>, UtcInstant> {
        self.last_alert.contents()
    }

    /// A debouncer that has seen no alert.
    pub fn new() -> (d: Self)
        ensures
            d.last_alerts() == Map::<Seq<char>, UtcInstant>::empty(),
    {
        AlertDebouncer { last_alert: StationMap::new() }
    }

    /// Time of the last alert raised for `station_id`, if any.
    pub fn last_alert(&self, station_id: &String) -> (r: Option<UtcInstant>)
        ensures
            r == (if self.last_alerts().dom().contains(station_id@) {
                Some(self.last_alerts()[station_id@])
            } else {
                None
            }),
    {
        match self.last_alert.get(station_id) {
            Some(t) => Some(*t),
            None => None,
        }
    }

    /// Whether an alert for `station_id` at `now` falls inside the debounce
    /// window of the station's previous alert.
    pub fn is_suppressed(&self, station_id: &String, now: UtcInstant, debounce_seconds: i64) -> (r:
        bool)
        ensures
            r == alert_suppressed(self.last_alerts(), station_id@, now, debounce_seconds as int),
    {
        match self.last_alert.get(station_id) {
            Some(last) => seconds_between(&now, last) < debounce_seconds as i128,
            None => false,
        }
    }

    /// Admits an alert for `station_id` at `now` unless it falls inside the
    /// debounce window; an admitted alert becomes the station's last alert.
    pub fn try_admit(&mut self, station_id: &String, now: UtcInstant, debounce_seconds: i64) -> (admitted:
        bool)
        ensures
            admitted == !alert_suppressed(
                old(self).last_alerts(),
                station_id@,
                now,
                debounce_seconds as int,
            ),
            admitted ==> final(self).last_alerts() == old(self).last_alerts().insert(
                station_id@,
                now,
            ),
            !admitted ==> final(self).last_alerts() == old(self).last_alerts(),
    {
        if self.is_suppressed(station_id, now, debounce_seconds) {
            false
        } else {
            self.last_alert.insert(station_id.clone(), now);
            true
        }
    }
}

/// A station's first alert is never held back.
pub proof fn law_first_alert_admitted(
    last_alerts: Map<Seq<char>, UtcInstant>,
    station: Seq<char>,
    now: UtcInstant,
    debounce_seconds: int,
)
    requires
        !last_alerts.dom().contains(station),
    ensures
        !alert_suppressed(last_alerts, station, now, debounce_seconds),
{
}

/// Once an alert for a station has been admitted at `t1`, another alert for
/// that station fewer than `debounce_seconds` whole seconds later is held
/// back, and one at least `debounce_seconds` later is admitted.
pub proof fn law_repeat_alert_debounced(
    last_alerts: Map<Seq<char>, UtcInstant>,
    station: Seq<char>,
    t1: UtcInstant,
    t2: UtcInstant,
    debounce_seconds: int,
)
    ensures
        alert_suppressed(last_alerts.insert(station, t1), station, t2, debounce_seconds)
            <==> whole_seconds_between(t2, t1) < debounce_seconds,
{
}

/// Admitting an alert for one station leaves the debouncing of every other
/// station as it was.
pub proof fn law_stations_debounced_independently(
    last_alerts: Map<Seq<char>, UtcInstant>,
    station: Seq<char>,
    other: Seq<char>,
    t: UtcInstant,
    now: UtcInstant,
    debounce_seconds: int,
)
    requires
        station != other,
    ensures
        alert_suppressed(last_alerts.insert(station, t), other, now, debounce_seconds)
            == alert_suppressed(last_alerts, other, now, debounce_seconds),
{
}

/// After a station's alert at `t1`, its next alert `k` whole seconds later
/// is admitted exactly when `k` reaches the debounce window: one a day
/// later is admitted under an hour's window, one a second later is not.
pub proof fn law_alert_after_elapsed_seconds(
    last_alerts: Map<Seq<char>, UtcInstant>,
    station: Seq<char>,
    t1: UtcInstant,
    k: int,
    debounce_seconds: int,
)
    requires
        i64::MIN <= t1.secs + k <= i64::MAX,
    ensures
        alert_suppressed(
            last_alerts.insert(station, t1),
            station,
            UtcInstant { secs: (t1.secs + k) as i64, nanos: t1.nanos },
            debounce_seconds,
        ) <==> k < debounce_seconds,
{
    law_shifted_instant_seconds(t1, k);
}

} // verus!
