//! What the shell's commands make of the service's answers: the status and
//! snapshots shown, with their fallbacks, and the control state saved after
//! each apply.
use vstd::prelude::*;

use super::models::{
    CapabilitySnapshot, ControlSnapshot, FanCurveSet, FanProfileId, GpuTuningState, ApplyState,
    PowerProfileId, ServiceStatus, TelemetrySnapshot, UpdateChannelId,
};
use super::service_pipe::{
    fetch_cached_service_status, pipe_failure_detail, AppliedFanControlPayload,
    AppliedGpuTuningPayload, AppliedPowerProfilePayload, CachedSupervisorSnapshot, PIPE_PATH,
    SERVICE_NAME,
};

verus! {

/// The service status: the pipe's answer marked connected, or, when the
/// pipe failed, the cached status for its error.
pub fn get_service_status(
    fetched: Result<ServiceStatus, String>,
    cached: Option<CachedSupervisorSnapshot>,
    supervisor_file_exists: bool,
    state_dir: &str,
    supervisor_file: &str,
) -> (r: ServiceStatus)
    ensures
        fetched matches Ok(s) ==> r == (ServiceStatus { connected: true, ..s }),
        fetched matches Err(e) ==> !r.connected && r.pipe_name@ == PIPE_PATH@ && r.version is None,
        fetched matches Err(e) ==> (r.state_dir matches Some(d) && d@ == state_dir@) && (
        r.supervisor_file matches Some(f) && f@ == supervisor_file@),
        fetched matches Err(e) ==> (supervisor_file_exists ==> r.detail@ == pipe_failure_detail(e@)
            + ". Loaded cached supervisor snapshot from "@ + supervisor_file@ + "."@),
        fetched matches Err(e) ==> (!supervisor_file_exists ==> r.detail@ == pipe_failure_detail(
            e@,
        )),
        fetched is Err ==> (cached matches Some(c) ==> r.service_name == c.service
            && r.worker_count == c.worker_count && r.updated_at_unix == c.updated_at_unix
            && r.workers@ == c.workers@),
        fetched is Err ==> (cached is None ==> r.service_name@ == SERVICE_NAME@ && r.worker_count
            == 0 && r.updated_at_unix is None && r.workers@.len() == 0),
{
    match fetched {
        Ok(s) => ServiceStatus { connected: true, ..s },
        Err(e) => fetch_cached_service_status(
            e.as_str(),
            cached,
            supervisor_file_exists,
            state_dir,
            supervisor_file,
        ),
    }
}

/// The capabilities from the service, else the shell's own.
pub fn get_capability_snapshot(
    fetched: Result<CapabilitySnapshot, String>,
    fallback: CapabilitySnapshot,
) -> (r: CapabilitySnapshot)
    ensures
        fetched matches Ok(c) ==> r == c,
        fetched is Err ==> r == fallback,
{
    match fetched {
        Ok(c) => c,
        Err(_) => fallback,
    }
}

/// The telemetry from the service, else from its snapshot file, else the
/// shell's own.
pub fn get_telemetry_snapshot(
    fetched: Result<TelemetrySnapshot, String>,
    cached: Result<TelemetrySnapshot, String>,
    fallback: TelemetrySnapshot,
) -> (r: TelemetrySnapshot)
    ensures
        fetched matches Ok(t) ==> r == t,
        fetched is Err ==> (cached matches Ok(t) ==> r == t),
        fetched is Err && cached is Err ==> r == fallback,
{
    match fetched {
        Ok(t) => t,
        Err(_) => match cached {
            Ok(t) => t,
            Err(_) => fallback,
        },
    }
}

/// The update channel a command works on: the one asked for, else the one
/// in the saved settings.
pub fn resolve_update_channel(channel: Option<UpdateChannelId>, controls: &ControlSnapshot) -> (r:
    UpdateChannelId)
    ensures
        channel matches Some(c) ==> r == c,
        channel is None ==> r == controls.personal_settings.update_channel,
{
    match channel {
        Some(c) => c,
        None => controls.personal_settings.update_channel,
    }
}

/// The controls to save after the blue-light filter was applied.
pub fn record_blue_light_filter(controls: &mut ControlSnapshot, enabled: bool)
    ensures
        final(controls).personal_settings.blue_light_filter_enabled == enabled,
        final(controls).personal_settings == (super::models::PersonalSettings {
            blue_light_filter_enabled: enabled,
            ..old(controls).personal_settings
        }),
        *final(controls) == (ControlSnapshot {
            personal_settings: final(controls).personal_settings,
            ..*old(controls)
        }),
{
    controls.personal_settings.blue_light_filter_enabled = enabled;
}

/// The controls to save after smart charging was applied.
pub fn record_smart_charging(controls: &mut ControlSnapshot, enabled: bool)
    ensures
        final(controls).personal_settings == (super::models::PersonalSettings {
            smart_charging_enabled: enabled,
            ..old(controls).personal_settings
        }),
        *final(controls) == (ControlSnapshot {
            personal_settings: final(controls).personal_settings,
            ..*old(controls)
        }),
{
    controls.personal_settings.smart_charging_enabled = enabled;
}

/// The controls to save after a power-profile apply: the applied profile
/// becomes active, and for the custom profile its processor state is kept.
pub fn apply_power_profile(
    controls: ControlSnapshot,
    applied: Result<AppliedPowerProfilePayload, String>,
) -> (r: Result<ControlSnapshot, String>)
    ensures
        applied matches Err(e) ==> r == Err::<ControlSnapshot, String>(e),
        applied matches Ok(a) ==> r == Ok::<ControlSnapshot, String>(
            if a.profile_id == PowerProfileId::Custom {
                ControlSnapshot {
                    active_power_profile: a.profile_id,
                    custom_processor_state: a.processor_state,
                    ..controls
                }
            } else {
                ControlSnapshot { active_power_profile: a.profile_id, ..controls }
            },
        ),
{
    match applied {
        Err(e) => Err(e),
        Ok(a) => {
            let mut c = controls;
            c.active_power_profile = a.profile_id;
            if a.profile_id == PowerProfileId::Custom {
                c.custom_processor_state = a.processor_state;
            }
            Ok(c)
        },
    }
}

/// The controls to save after a GPU-tuning apply: the custom power profile
/// becomes active with the applied tuning, in the given slot, live.
pub fn apply_gpu_tuning(
    controls: ControlSnapshot,
    applied: Result<AppliedGpuTuningPayload, String>,
    active_oc_slot: String,
) -> (r: Result<ControlSnapshot, String>)
    ensures
        applied matches Err(e) ==> r == Err::<ControlSnapshot, String>(e),
        applied matches Ok(a) ==> r == Ok::<ControlSnapshot, String>(
            ControlSnapshot {
                active_power_profile: PowerProfileId::Custom,
                gpu_tuning: a.tuning,
                active_oc_slot: active_oc_slot,
                oc_apply_state: ApplyState::Live,
                ..controls
            },
        ),
{
    match applied {
        Err(e) => Err(e),
        Ok(a) => {
            let mut c = controls;
            c.active_power_profile = PowerProfileId::Custom;
            c.gpu_tuning = a.tuning;
            c.active_oc_slot = active_oc_slot;
            c.oc_apply_state = ApplyState::Live;
            Ok(c)
        },
    }
}

/// The controls to save after a fan-profile apply: the applied profile
/// becomes active.
pub fn apply_fan_profile(
    controls: ControlSnapshot,
    applied: Result<AppliedFanControlPayload, String>,
) -> (r: Result<ControlSnapshot, String>)
    ensures
        applied matches Err(e) ==> r == Err::<ControlSnapshot, String>(e),
        applied matches Ok(a) ==> r == Ok::<ControlSnapshot, String>(
            ControlSnapshot { active_fan_profile: a.profile_id, ..controls },
        ),
{
    match applied {
        Err(e) => Err(e),
        Ok(a) => {
            let mut c = controls;
            c.active_fan_profile = a.profile_id;
            Ok(c)
        },
    }
}

/// The controls to save after a custom-curve apply: the custom fan profile
/// becomes active with the curves the service applied, or the requested
/// ones when it did not report any.
pub fn apply_custom_fan_curves(
    controls: ControlSnapshot,
    applied: Result<AppliedFanControlPayload, String>,
    requested: FanCurveSet,
) -> (r: Result<ControlSnapshot, String>)
    ensures
        applied matches Err(e) ==> r == Err::<ControlSnapshot, String>(e),
        applied matches Ok(a) ==> r == Ok::<ControlSnapshot, String>(
            ControlSnapshot {
                active_fan_profile: FanProfileId::Custom,
                fan_curves: match a.curves {
                    Some(applied_curves) => applied_curves,
                    None => requested,
                },
                ..controls
            },
        ),
{
    match applied {
        Err(e) => Err(e),
        Ok(a) => {
            let mut c = controls;
            c.active_fan_profile = FanProfileId::Custom;
            c.fan_curves = match a.curves {
                Some(applied_curves) => applied_curves,
                None => requested,
            };
            Ok(c)
        },
    }
}

} // verus!
