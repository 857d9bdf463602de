//! The telemetry worker: CPU load and clock, firmware sensors, GPU readings
//! and the snapshot composed from them.
pub mod cache;
pub mod cpu;
pub mod firmware;
pub mod gpu;
pub mod snapshot;
