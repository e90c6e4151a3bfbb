//! Polling-loop core for a small push-button board: four sampled inputs
//! drive three LEDs and an optional one-byte-per-event serial report.
//!
//! The crate holds no I/O. Each cycle the caller samples the pins, hands the
//! levels to [`dispatch::tick`], drives the LEDs with the returned levels,
//! offers the returned bytes to its serial sink and sleeps for the returned
//! time.

pub mod arm;
pub mod dispatch;
pub mod laws;
pub mod level;
pub mod output;
pub mod pair;
pub mod report;
