//! Polls a sensor service for the latest temperature readings, stores each
//! reading once, and raises an alert for a room whose temperature has risen
//! fast enough to suggest an open window.
//!
//! Temperatures and humidities are held in hundredths of a unit, and times in
//! seconds since the Unix epoch.

pub mod model;
pub mod detector;
pub mod request;
pub mod history;
pub mod tick;
pub mod scheduler;
