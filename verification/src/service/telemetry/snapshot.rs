//! The telemetry snapshot the worker publishes each tick, composed from the
//! individual sources with their fallbacks.
use vstd::prelude::*;

use super::cpu::{or_else, CpuThermalSnapshot};
use super::firmware::FirmwareSensorSnapshot;
use super::gpu::GpuCoreReadings;

verus! {

/// The readings of the Acer HID status channel.
#[derive(Clone, Copy, Debug, Default, PartialEq, Eq, Structural)]
pub struct AcerHidReadings {
    pub cpu_temp_c: Option<u8>,
    pub system_temp_c: Option<u8>,
    pub cpu_fan_rpm: Option<u16>,
    pub gpu_fan_rpm: Option<u16>,
}

/// The battery and AC state.
#[derive(Clone, Copy, Debug, Default, PartialEq, Eq, Structural)]
pub struct PowerReadings {
    pub battery_percent: u8,
    pub battery_life_remaining_sec: Option<u32>,
    pub ac_plugged_in: bool,
}

/// The names the hardware identity probe found.
#[derive(Clone, Debug, Default)]
pub struct HardwareIdentity {
    pub cpu_name: Option<String>,
    pub cpu_brand: Option<String>,
    pub gpu_name: Option<String>,
    pub gpu_brand: Option<String>,
    pub system_vendor: Option<String>,
    pub system_model: Option<String>,
}

/// The telemetry snapshot (without the heartbeat the worker adds).
#[derive(Clone, Debug)]
pub struct TelemetryReadings {
    pub cpu_temp_c: u8,
    pub cpu_temp_average_c: Option<u8>,
    pub cpu_temp_lowest_core_c: Option<u8>,
    pub cpu_temp_highest_core_c: Option<u8>,
    pub gpu_temp_c: u8,
    pub system_temp_c: u8,
    pub cpu_usage_percent: u8,
    pub gpu_usage_percent: u8,
    pub gpu_memory_usage_percent: Option<u8>,
    pub identity: HardwareIdentity,
    pub cpu_clock_mhz: u16,
    pub gpu_clock_mhz: u16,
    pub cpu_fan_rpm: u16,
    pub gpu_fan_rpm: u16,
    pub battery_percent: u8,
    pub battery_life_remaining_sec: Option<u32>,
    pub ac_plugged_in: bool,
}

/// `a`, else `b`, for fan speeds.
pub open spec fn or_else_u16(a: Option<u16>, b: Option<u16>) -> Option<u16> {
    match a {
        Some(v) => Some(v),
        None => b,
    }
}

/// The value, or 0.
pub open spec fn or_zero(a: Option<u8>) -> u8 {
    match a {
        Some(v) => v,
        None => 0,
    }
}

/// The value, or 0.
pub open spec fn or_zero_u16(a: Option<u16>) -> u16 {
    match a {
        Some(v) => v,
        None => 0,
    }
}

fn first_u8(a: Option<u8>, b: Option<u8>) -> (r: Option<u8>)
    ensures
        r == or_else(a, b),
{
    match a {
        Some(v) => Some(v),
        None => b,
    }
}

fn first_u16(a: Option<u16>, b: Option<u16>) -> (r: Option<u16>)
    ensures
        r == or_else_u16(a, b),
{
    match a {
        Some(v) => Some(v),
        None => b,
    }
}

/// The system temperature candidate: the ACPI thermal zone, else the HID
/// channel's system temperature.
pub fn system_temp_candidate(firmware: &FirmwareSensorSnapshot, hid: &AcerHidReadings) -> (r: Option<
    u8,
>)
    ensures
        r == or_else(firmware.thermal_zone_temp_c, hid.system_temp_c),
{
    first_u8(firmware.thermal_zone_temp_c, hid.system_temp_c)
}

/// Composes the snapshot: the CPU temperature from the thermal summary,
/// else the HID channel (0 when neither has one); GPU values from the GPU
/// readings (0 when missing); fan speeds from the HID channel, else the
/// firmware (0 when neither); `system_temp_c` is the selected system
/// temperature (0 when none).
pub fn compose_telemetry_snapshot(
    cpu_thermal: &CpuThermalSnapshot,
    hid: &AcerHidReadings,
    firmware: &FirmwareSensorSnapshot,
    gpu: &GpuCoreReadings,
    system_temp_c: Option<u8>,
    cpu_usage_percent: u8,
    cpu_clock_mhz: u16,
    power: &PowerReadings,
    identity: HardwareIdentity,
) -> (r: TelemetryReadings)
    ensures
        r.cpu_temp_average_c == or_else(cpu_thermal.average_temp_c, hid.cpu_temp_c),
        r.cpu_temp_c == or_zero(or_else(cpu_thermal.average_temp_c, hid.cpu_temp_c)),
        r.cpu_temp_lowest_core_c == cpu_thermal.lowest_core_temp_c,
        r.cpu_temp_highest_core_c == cpu_thermal.highest_core_temp_c,
        r.gpu_temp_c == or_zero(gpu.temp_c),
        r.system_temp_c == or_zero(system_temp_c),
        r.cpu_usage_percent == cpu_usage_percent,
        r.gpu_usage_percent == or_zero(gpu.usage_percent),
        r.gpu_memory_usage_percent == gpu.memory_usage_percent,
        r.identity == identity,
        r.cpu_clock_mhz == cpu_clock_mhz,
        r.gpu_clock_mhz == or_zero_u16(gpu.clock_mhz),
        r.cpu_fan_rpm == or_zero_u16(or_else_u16(hid.cpu_fan_rpm, firmware.cpu_fan_rpm)),
        r.gpu_fan_rpm == or_zero_u16(or_else_u16(hid.gpu_fan_rpm, firmware.gpu_fan_rpm)),
        r.battery_percent == power.battery_percent,
        r.battery_life_remaining_sec == power.battery_life_remaining_sec,
        r.ac_plugged_in == power.ac_plugged_in,
{
    let cpu_temp_average_c = first_u8(cpu_thermal.average_temp_c, hid.cpu_temp_c);
    TelemetryReadings {
        cpu_temp_c: match cpu_temp_average_c {
            Some(v) => v,
            None => 0,
        },
        cpu_temp_average_c,
        cpu_temp_lowest_core_c: cpu_thermal.lowest_core_temp_c,
        cpu_temp_highest_core_c: cpu_thermal.highest_core_temp_c,
        gpu_temp_c: match gpu.temp_c {
            Some(v) => v,
            None => 0,
        },
        system_temp_c: match system_temp_c {
            Some(v) => v,
            None => 0,
        },
        cpu_usage_percent,
        gpu_usage_percent: match gpu.usage_percent {
            Some(v) => v,
            None => 0,
        },
        gpu_memory_usage_percent: gpu.memory_usage_percent,
        identity,
        cpu_clock_mhz,
        gpu_clock_mhz: match gpu.clock_mhz {
            Some(v) => v,
            None => 0,
        },
        cpu_fan_rpm: match first_u16(hid.cpu_fan_rpm, firmware.cpu_fan_rpm) {
            Some(v) => v,
            None => 0,
        },
        gpu_fan_rpm: match first_u16(hid.gpu_fan_rpm, firmware.gpu_fan_rpm) {
            Some(v) => v,
            None => 0,
        },
        battery_percent: power.battery_percent,
        battery_life_remaining_sec: power.battery_life_remaining_sec,
        ac_plugged_in: power.ac_plugged_in,
    }
}

} // verus!
