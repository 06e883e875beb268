//! Verified core of the gnomon (guibiao) observation backend: calendar
//! arithmetic for the virtual gnomon, alert debouncing per station,
//! time-range resolution for measurement queries, and service wiring.
pub mod alarm_ws;
pub mod calendar;
pub mod dtu_receiver;
pub mod dynasty_comparison;
pub mod handlers;
pub mod optical_simulator;
pub mod station_map;
pub mod time;
pub mod vr_gnomon;
