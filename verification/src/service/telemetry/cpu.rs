//! CPU load from system-time counters, CPU clock fallback, and the CPU
//! thermal summary.
use vstd::prelude::*;

use super::firmware::FirmwareSensorSnapshot;
use crate::text::{parse_unsigned_chars, spec_parse_unsigned, spec_trim, trim};

verus! {

/// Cumulative idle, kernel and user time of all processors (100 ns ticks).
#[derive(Clone, Copy, Debug, PartialEq, Eq, Structural)]
pub struct CpuTimes {
    pub idle: u64,
    pub kernel: u64,
    pub user: u64,
}

/// The previous counter sample, from which the next load is measured.
#[derive(Clone, Copy, Debug)]
pub struct CpuUsageSampler {
    pub last: Option<CpuTimes>,
}

/// A 64-bit tick count from the two halves of a `FILETIME`.
pub fn filetime_to_u64(high: u32, low: u32) -> (r: u64)
    ensures
        r == high as nat * 0x1_0000_0000 + low as nat,
{
    (high as u64) * 0x1_0000_0000 + low as u64
}

/// `a - b`, or 0 when `b > a` (`u64::saturating_sub`).
pub open spec fn sat_sub_u64(a: u64, b: u64) -> nat {
    if a >= b {
        (a - b) as nat
    } else {
        0
    }
}

/// `a + b`, capped at `u64::MAX` (`u64::saturating_add`).
pub open spec fn sat_add_u64(a: nat, b: nat) -> nat {
    if a + b > u64::MAX {
        u64::MAX as nat
    } else {
        a + b
    }
}

/// `busy / total` as a percentage rounded to the nearest integer, halves
/// away from zero, capped at 100. The ratio is rounded exactly, as a
/// rational number; a computation in `f64` can land just below an exact
/// half (57 of 200 gives 28.499999999999996 there, so 28) where this gives
/// the mathematically rounded 29.
pub open spec fn rounded_percent(busy: nat, total: nat) -> u8 {
    let p = (200 * busy + total) / (2 * total);
    if p > 100 {
        100
    } else {
        p as u8
    }
}

/// The CPU load between two counter samples: the share of kernel-plus-user
/// time that was not idle, in percent; 0 when no time passed.
pub open spec fn usage_between(previous: CpuTimes, current: CpuTimes) -> u8 {
    let idle = sat_sub_u64(current.idle, previous.idle);
    let total = sat_add_u64(sat_sub_u64(current.kernel, previous.kernel), sat_sub_u64(current.user, previous.user));
    if total == 0 {
        0
    } else {
        rounded_percent(if total >= idle { (total - idle) as nat } else { 0 }, total)
    }
}

impl CpuUsageSampler {
    /// A sampler with no previous sample.
    pub fn new() -> (r: Self)
        ensures
            r.last is None,
    {
        CpuUsageSampler { last: None }
    }
}

/// The CPU load since the previous sample (0 for the first sample),
/// rounded exactly (see [`rounded_percent`]); the current sample becomes
/// the previous one.
pub fn read_cpu_usage_percent(sampler: &mut CpuUsageSampler, current: CpuTimes) -> (r: u8)
    ensures
        final(sampler).last == Some(current),
        r == (match old(sampler).last {
            Some(previous) => usage_between(previous, current),
            None => 0,
        }),
{
    let usage = match sampler.last {
        Some(previous) => {
            let idle_delta = current.idle.saturating_sub(previous.idle);
            let kernel_delta = current.kernel.saturating_sub(previous.kernel);
            let user_delta = current.user.saturating_sub(previous.user);
            let total_delta = kernel_delta.saturating_add(user_delta);
            if total_delta == 0 {
                0
            } else {
                let busy_delta = total_delta.saturating_sub(idle_delta);
                let p: u128 = (200 * busy_delta as u128 + total_delta as u128) / (2
                    * total_delta as u128);
                if p > 100 {
                    100
                } else {
                    p as u8
                }
            }
        },
        None => 0,
    };
    sampler.last = Some(current);
    usage
}

/// The CPU clock reported when the measured clock is 0.
pub const FALLBACK_CPU_CLOCK_MHZ: u16 = 2646;

/// The CPU clock to report: the measured value, or 2646 MHz when it is 0.
pub fn cpu_clock_or_fallback(value: u16) -> (r: u16)
    ensures
        value == 0 ==> r == FALLBACK_CPU_CLOCK_MHZ,
        value != 0 ==> r == value,
{
    if value == 0 {
        FALLBACK_CPU_CLOCK_MHZ
    } else {
        value
    }
}

/// The clock that the clock probe printed: its trimmed output read as a
/// `u16`, or 0 when it is not one.
pub fn parse_cpu_clock_output(output: &str) -> (r: u16)
    ensures
        spec_parse_unsigned(spec_trim(output@), 10, 65535) matches Some(v) ==> r == v,
        spec_parse_unsigned(spec_trim(output@), 10, 65535) is None ==> r == 0,
{
    let trimmed = trim(output);
    match parse_unsigned_chars(trimmed.as_slice(), 10, 65535) {
        Some(v) => v as u16,
        None => 0,
    }
}

/// The core temperatures the low-level sampler measured.
#[derive(Clone, Copy, Debug, Default, PartialEq, Eq, Structural)]
pub struct LowLevelThermals {
    pub package_temp_c: Option<u8>,
    pub average_core_temp_c: Option<u8>,
    pub lowest_core_temp_c: Option<u8>,
    pub highest_core_temp_c: Option<u8>,
}

/// The CPU temperatures telemetry reports.
#[derive(Clone, Copy, Debug, Default, PartialEq, Eq, Structural)]
pub struct CpuThermalSnapshot {
    pub average_temp_c: Option<u8>,
    pub lowest_core_temp_c: Option<u8>,
    pub highest_core_temp_c: Option<u8>,
}

/// `a`, else `b`.
pub open spec fn or_else(a: Option<u8>, b: Option<u8>) -> Option<u8> {
    match a {
        Some(v) => Some(v),
        None => b,
    }
}

/// The CPU temperatures: the average core temperature, else the package
/// temperature, else the ACPI thermal zone; lowest and highest come from
/// the cores.
pub fn build_cpu_thermal_snapshot(
    low_level: &LowLevelThermals,
    firmware: &FirmwareSensorSnapshot,
) -> (r: CpuThermalSnapshot)
    ensures
        r.average_temp_c == or_else(
            or_else(low_level.average_core_temp_c, low_level.package_temp_c),
            firmware.thermal_zone_temp_c,
        ),
        r.lowest_core_temp_c == low_level.lowest_core_temp_c,
        r.highest_core_temp_c == low_level.highest_core_temp_c,
{
    let average_temp_c = match low_level.average_core_temp_c {
        Some(v) => Some(v),
        None => match low_level.package_temp_c {
            Some(v) => Some(v),
            None => firmware.thermal_zone_temp_c,
        },
    };
    CpuThermalSnapshot {
        average_temp_c,
        lowest_core_temp_c: low_level.lowest_core_temp_c,
        highest_core_temp_c: low_level.highest_core_temp_c,
    }
}

} // verus!
