//! Battery charge limiting through the firmware BatteryControl interface.
use vstd::prelude::*;

use super::models::{AppliedSmartChargeSnapshot, ApplySmartChargeRequest};
use crate::text::{push_decimal, spec_decimal};

verus! {

/// What the BatteryControl apply script reported.
#[derive(Clone, Debug)]
pub struct BatteryControlApplyOutput {
    pub health_status: u8,
    pub set_attempt: Option<String>,
    pub matched_status_index: Option<u64>,
}

/// The health-limiter status requested: 1 to keep the 80% ceiling, 0 for
/// full charge.
pub open spec fn health_status_for(enabled: bool) -> u8 {
    if enabled {
        1
    } else {
        0
    }
}

/// The health-limiter status to request for smart charging on or off.
pub fn requested_health_status(enabled: bool) -> (r: u8)
    ensures
        r == health_status_for(enabled),
{
    if enabled {
        1
    } else {
        0
    }
}

/// The error when the firmware reports another status than requested.
pub open spec fn health_mismatch_error(reported: u8, requested: u8) -> Seq<char> {
    "BatteryControl returned healthStatus "@ + spec_decimal(reported as nat) + " after requesting "@
        + spec_decimal(requested as nat) + "."@
}

/// Accepts the apply output only when it reports the requested status.
pub fn check_battery_control_output(output: &BatteryControlApplyOutput, requested: u8) -> (r:
    Result<(), String>)
    ensures
        output.health_status == requested ==> r is Ok,
        output.health_status != requested ==> (r matches Err(e) && e@ == health_mismatch_error(
            output.health_status,
            requested,
        )),
{
    if output.health_status != requested {
        let mut e = String::new();
        e.append("BatteryControl returned healthStatus ");
        push_decimal(&mut e, output.health_status as u64);
        e.append(" after requesting ");
        push_decimal(&mut e, requested as u64);
        e.append(".");
        assert(e@ =~= health_mismatch_error(output.health_status, requested));
        return Err(e);
    }
    Ok(())
}

/// The error of a failed apply script run.
pub fn battery_control_failure(detail: &str) -> (r: String)
    ensures
        r@ == "BatteryControl service apply failed: "@ + detail@,
{
    let mut e = String::new();
    e.append("BatteryControl service apply failed: ");
    e.append(detail);
    e
}

/// Which write matched the readback.
pub open spec fn attempt_detail(output: BatteryControlApplyOutput) -> Seq<char> {
    match (output.set_attempt, output.matched_status_index) {
        (Some(a), Some(i)) => "Matched BatteryControl status byte "@ + spec_decimal(i as nat)
            + " with "@ + a@ + "."@,
        (Some(a), None) => "Matched BatteryControl readback with "@ + a@ + "."@,
        _ => "Matched BatteryControl readback."@,
    }
}

/// Describes which write matched the readback.
pub fn battery_control_attempt_detail(output: &BatteryControlApplyOutput) -> (r: String)
    ensures
        r@ == attempt_detail(*output),
{
    let mut s = String::new();
    match (&output.set_attempt, output.matched_status_index) {
        (Some(attempt), Some(index)) => {
            s.append("Matched BatteryControl status byte ");
            push_decimal(&mut s, index);
            s.append(" with ");
            s.append(attempt.as_str());
            s.append(".");
        },
        (Some(attempt), None) => {
            s.append("Matched BatteryControl readback with ");
            s.append(attempt.as_str());
            s.append(".");
        },
        _ => {
            s.append("Matched BatteryControl readback.");
        },
    }
    assert(s@ =~= attempt_detail(*output));
    s
}

/// The BatteryHealthy setting that goes with a health-limiter status: 0
/// while the limiter (status 1) is on, 1 otherwise.
pub open spec fn battery_healthy_of(health_status: u8) -> u8 {
    if health_status == 1 {
        0
    } else {
        1
    }
}

/// The detail recorded for a smart-charging apply.
pub open spec fn smart_charge_detail(enabled: bool, output: BatteryControlApplyOutput) -> Seq<char> {
    if enabled {
        "Applied optimized charging through AeroForgeService direct BatteryControl WMI. Health limiter status "@
            + spec_decimal(output.health_status as nat) + " keeps the 80% ceiling active. "@
            + attempt_detail(output)
    } else {
        "Applied full battery charging through AeroForgeService direct BatteryControl WMI. Health limiter status "@
            + spec_decimal(output.health_status as nat) + " allows full charge. "@ + attempt_detail(
            output,
        )
    }
}

/// The applied snapshot of a smart-charging request from what the apply
/// script reported: a status other than the requested one is refused;
/// otherwise the snapshot records the confirmed status.
pub fn apply_smart_charging(
    request: &ApplySmartChargeRequest,
    output: &BatteryControlApplyOutput,
    applied_at_unix: u64,
) -> (r: Result<AppliedSmartChargeSnapshot, String>)
    ensures
        output.health_status != health_status_for(request.enabled) ==> (r matches Err(e) && e@
            == health_mismatch_error(output.health_status, health_status_for(request.enabled))),
        output.health_status == health_status_for(request.enabled) ==> (r matches Ok(a) && {
            &&& a.enabled == request.enabled
            &&& a.health_status == output.health_status
            &&& a.battery_healthy == battery_healthy_of(output.health_status)
            &&& a.applied_at_unix == applied_at_unix
            &&& a.detail@ == smart_charge_detail(request.enabled, *output)
        }),
{
    let requested = requested_health_status(request.enabled);
    match check_battery_control_output(output, requested) {
        Ok(()) => {},
        Err(e) => return Err(e),
    }
    let battery_healthy: u8 = if output.health_status == 1 {
        0
    } else {
        1
    };
    let mut s = String::new();
    if request.enabled {
        s.append(
            "Applied optimized charging through AeroForgeService direct BatteryControl WMI. Health limiter status ",
        );
        push_decimal(&mut s, output.health_status as u64);
        s.append(" keeps the 80% ceiling active. ");
    } else {
        s.append(
            "Applied full battery charging through AeroForgeService direct BatteryControl WMI. Health limiter status ",
        );
        push_decimal(&mut s, output.health_status as u64);
        s.append(" allows full charge. ");
    }
    let attempt = battery_control_attempt_detail(output);
    s.append(attempt.as_str());
    assert(s@ =~= smart_charge_detail(request.enabled, *output));
    Ok(
        AppliedSmartChargeSnapshot {
            enabled: request.enabled,
            health_status: output.health_status,
            battery_healthy,
            applied_at_unix,
            detail: s,
        },
    )
}

/// Once the firmware confirmed the requested status, BatteryHealthy is 0
/// exactly when smart charging was turned on.
pub proof fn law_confirmed_charge_limit(enabled: bool, output: BatteryControlApplyOutput)
    requires
        output.health_status == health_status_for(enabled),
    ensures
        battery_healthy_of(output.health_status) == (if enabled {
            0u8
        } else {
            1u8
        }),
{
}

} // verus!
