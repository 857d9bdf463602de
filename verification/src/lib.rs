//! Verified core of the AeroForge laptop control stack: the fan-curve,
//! power-profile, battery-charge and telemetry rules of the Windows service,
//! and the control-state bookkeeping of the desktop shell.
pub mod desktop;
pub mod json;
pub mod service;
pub mod text;
