//! Firmware sensor readings from the ACPI thermal-zone probe.
use vstd::prelude::*;

use crate::json::{json_bytes_parse, json_field, json_from_bytes, json_member, parse_json_bytes, JsonField};

verus! {

/// Firmware sensor readings.
#[derive(Clone, Copy, Debug, Default, PartialEq, Eq, Structural)]
pub struct FirmwareSensorSnapshot {
    pub thermal_zone_temp_c: Option<u8>,
    pub cpu_fan_rpm: Option<u16>,
    pub gpu_fan_rpm: Option<u16>,
    pub has_acer_firmware: bool,
    pub has_thermal_zone: bool,
}

/// The integer a JSON field holds (`as_u64`).
pub open spec fn field_u64(f: JsonField) -> Option<u64> {
    match f {
        JsonField::Number(Some(n)) => Some(n),
        _ => None,
    }
}

fn field_u64_exec(f: &JsonField) -> (r: Option<u64>)
    ensures
        r == field_u64(*f),
{
    match f {
        JsonField::Number(Some(n)) => Some(*n),
        _ => None,
    }
}

/// The firmware snapshot that the probe's fields give (see
/// [`firmware_snapshot_from_fields`]).
pub open spec fn firmware_snapshot_of(
    thermal_zone_temp_c: JsonField,
    cpu_fan_rpm: JsonField,
    gpu_fan_rpm: JsonField,
) -> FirmwareSensorSnapshot {
    FirmwareSensorSnapshot {
        thermal_zone_temp_c: match field_u64(thermal_zone_temp_c) {
            Some(v) => Some((v % 256) as u8),
            None => None,
        },
        cpu_fan_rpm: match field_u64(cpu_fan_rpm) {
            Some(v) => Some((v % 65536) as u16),
            None => None,
        },
        gpu_fan_rpm: match field_u64(gpu_fan_rpm) {
            Some(v) => Some((v % 65536) as u16),
            None => None,
        },
        has_acer_firmware: false,
        has_thermal_zone: !(thermal_zone_temp_c is Absent),
    }
}

/// The firmware snapshot from the probe's fields: integers are truncated to
/// `u8` (temperature) and `u16` (fan speeds) as `as` casts do, and the
/// thermal zone counts as present when its key is present at all.
pub fn firmware_snapshot_from_fields(
    thermal_zone_temp_c: &JsonField,
    cpu_fan_rpm: &JsonField,
    gpu_fan_rpm: &JsonField,
) -> (r: FirmwareSensorSnapshot)
    ensures
        r.thermal_zone_temp_c == (match field_u64(*thermal_zone_temp_c) {
            Some(v) => Some((v % 256) as u8),
            None => None,
        }),
        r.cpu_fan_rpm == (match field_u64(*cpu_fan_rpm) {
            Some(v) => Some((v % 65536) as u16),
            None => None,
        }),
        r.gpu_fan_rpm == (match field_u64(*gpu_fan_rpm) {
            Some(v) => Some((v % 65536) as u16),
            None => None,
        }),
        !r.has_acer_firmware,
        r.has_thermal_zone == !(*thermal_zone_temp_c is Absent),
        r == firmware_snapshot_of(*thermal_zone_temp_c, *cpu_fan_rpm, *gpu_fan_rpm),
{
    FirmwareSensorSnapshot {
        thermal_zone_temp_c: match field_u64_exec(thermal_zone_temp_c) {
            Some(v) => Some((v % 256) as u8),
            None => None,
        },
        cpu_fan_rpm: match field_u64_exec(cpu_fan_rpm) {
            Some(v) => Some((v % 65536) as u16),
            None => None,
        },
        gpu_fan_rpm: match field_u64_exec(gpu_fan_rpm) {
            Some(v) => Some((v % 65536) as u16),
            None => None,
        },
        has_acer_firmware: false,
        has_thermal_zone: match thermal_zone_temp_c {
            JsonField::Absent => false,
            _ => true,
        },
    }
}

/// The firmware snapshot in the probe's JSON output, read from its
/// `thermalZoneTempC`, `cpuFanRpm` and `gpuFanRpm` members; `None` when the
/// output is not JSON.
pub fn query_firmware_sensor_snapshot(output: &[u8]) -> (r: Option<FirmwareSensorSnapshot>)
    ensures
        r is Some == json_bytes_parse(output@),
        r matches Some(s) ==> !s.has_acer_firmware,
        json_from_bytes(output@) matches Some(doc) ==> r == Some(
            firmware_snapshot_of(
                json_member(doc, "thermalZoneTempC"@),
                json_member(doc, "cpuFanRpm"@),
                json_member(doc, "gpuFanRpm"@),
            ),
        ),
{
    let doc = match parse_json_bytes(output) {
        Ok(doc) => doc,
        Err(_) => return None,
    };
    Some(
        firmware_snapshot_from_fields(
            &json_field(&doc, "thermalZoneTempC"),
            &json_field(&doc, "cpuFanRpm"),
            &json_field(&doc, "gpuFanRpm"),
        ),
    )
}

} // verus!
