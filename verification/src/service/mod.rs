//! Logic of the AeroForge Windows service.
pub mod control;
pub mod ipc;
pub mod lowlevel;
pub mod telemetry;
