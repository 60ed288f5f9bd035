//! Core logic of a small always-on air-quality monitor.
//!
//! The device samples a particulate / gas / climate sensor, smooths the raw
//! readings with fixed-window rolling averages, classifies the smoothed
//! snapshot into a health tier, fans the snapshot out to a telemetry
//! publisher and a pixel-display renderer under different backpressure
//! rules, and drives a differential renderer that keeps redraws minimal on
//! a slow pixel bus.
//!
//! Metric values are carried as fixed-point integers counted in
//! thousandths of a unit, so every computation here is exact integer
//! arithmetic with proved bounds.  The hardware, network and serialization
//! edges live outside this crate and exchange plain values with it.

pub mod acquisition;
pub mod avg;
pub mod fanout;
pub mod fmt;
pub mod hass;
pub mod netup;
pub mod publish;
pub mod readings;
pub mod render;
pub mod units;
