//! The control worker: power profiles, fan control and persisted state.
pub mod boot_logo;
pub mod fan;
pub mod models;
pub mod power;
pub mod power_apply;
pub mod powercfg;
pub mod smart_charge;
pub mod state;

use vstd::prelude::*;

use models::{
    curves_view, AppliedFanControlSnapshot, AppliedGpuTuningSnapshot,
    AppliedPowerProfileSnapshot, ApplyFanProfileRequest, ControlSnapshot, FanCurveSet,
    FanProfileId,
};
use state::{
    fan_error_recorded, fan_success_recorded, gpu_error_recorded, gpu_success_recorded,
    persist_apply_error, persist_apply_success, persist_fan_apply_error,
    persist_fan_apply_success, persist_gpu_tuning_apply_error, persist_gpu_tuning_apply_success,
    power_error_recorded, power_success_recorded,
};

verus! {

/// Records the outcome of a power-profile apply in the snapshot (success,
/// or the error message) and hands the outcome back.
pub fn apply_power_profile(
    snapshot: &mut ControlSnapshot,
    outcome: Result<AppliedPowerProfileSnapshot, String>,
) -> (r: Result<AppliedPowerProfileSnapshot, String>)
    ensures
        r == outcome,
        outcome matches Ok(a) ==> power_success_recorded(*old(snapshot), *final(snapshot), a),
        outcome matches Err(e) ==> power_error_recorded(*old(snapshot), *final(snapshot), e@),
{
    match &outcome {
        Ok(applied) => persist_apply_success(snapshot, applied),
        Err(error) => persist_apply_error(snapshot, error.as_str()),
    }
    outcome
}

/// Records the outcome of a GPU-tuning apply in the snapshot and hands the
/// outcome back.
pub fn apply_gpu_tuning(
    snapshot: &mut ControlSnapshot,
    outcome: Result<AppliedGpuTuningSnapshot, String>,
) -> (r: Result<AppliedGpuTuningSnapshot, String>)
    ensures
        r == outcome,
        outcome matches Ok(a) ==> gpu_success_recorded(*old(snapshot), *final(snapshot), a),
        outcome matches Err(e) ==> gpu_error_recorded(*old(snapshot), *final(snapshot), e@),
{
    match &outcome {
        Ok(applied) => persist_gpu_tuning_apply_success(snapshot, applied),
        Err(error) => persist_gpu_tuning_apply_error(snapshot, error.as_str()),
    }
    outcome
}

/// Records the outcome of a fan-control apply in the snapshot and hands the
/// outcome back: custom curves, or the fixed profile that
/// [`apply_fan_profile`] routed.
pub fn apply_custom_fan_curves(
    snapshot: &mut ControlSnapshot,
    outcome: Result<AppliedFanControlSnapshot, String>,
) -> (r: Result<AppliedFanControlSnapshot, String>)
    ensures
        r == outcome,
        outcome matches Ok(a) ==> fan_success_recorded(*old(snapshot), *final(snapshot), a),
        outcome matches Err(e) ==> fan_error_recorded(*old(snapshot), *final(snapshot), e@),
{
    match &outcome {
        Ok(applied) => persist_fan_apply_success(snapshot, applied),
        Err(error) => persist_fan_apply_error(snapshot, error.as_str()),
    }
    outcome
}

/// How a fan-profile request is carried out.
#[derive(Clone, Debug)]
pub enum FanProfileRoute {
    /// Write the fixed profile.
    Fixed(FanProfileId),
    /// Apply the saved custom curves.
    SavedCurves(FanCurveSet),
}

/// The error of a custom fan profile with no saved curves.
pub open spec fn missing_saved_curve_error() -> Seq<char> {
    "Custom fan mode requires a saved curve before it can be applied."@
}

/// Routes a fan-profile request: Custom applies the saved curves, and fails
/// (without touching the snapshot) when there are none; Auto and Max are
/// written as fixed profiles.
pub fn apply_fan_profile(request: &ApplyFanProfileRequest, snapshot: &ControlSnapshot) -> (r: Result<
    FanProfileRoute,
    String,
>)
    ensures
        request.profile_id != FanProfileId::Custom ==> (r matches Ok(FanProfileRoute::Fixed(p)) && p
            == request.profile_id),
        request.profile_id == FanProfileId::Custom && snapshot.active_fan_curves is Some ==> (
        r matches Ok(FanProfileRoute::SavedCurves(c)) && Some(c@) == curves_view(
            snapshot.active_fan_curves,
        )),
        request.profile_id == FanProfileId::Custom && snapshot.active_fan_curves is None ==> (
        r matches Err(e) && e@ == missing_saved_curve_error()),
{
    match request.profile_id {
        FanProfileId::Custom => match &snapshot.active_fan_curves {
            Some(curves) => Ok(FanProfileRoute::SavedCurves(curves.copy())),
            None => Err(
                crate::text::string_from(
                    "Custom fan mode requires a saved curve before it can be applied.",
                ),
            ),
        },
        other => Ok(FanProfileRoute::Fixed(other)),
    }
}

/// The saved curves that the periodic tick re-applies: only while the
/// active fan profile is Custom and curves are saved.
pub fn periodic_custom_fan_curves(snapshot: &ControlSnapshot) -> (r: Option<FanCurveSet>)
    ensures
        snapshot.active_fan_profile == Some(FanProfileId::Custom) && snapshot.active_fan_curves is Some
            ==> (r matches Some(c) && Some(c@) == curves_view(snapshot.active_fan_curves)),
        !(snapshot.active_fan_profile == Some(FanProfileId::Custom)
            && snapshot.active_fan_curves is Some) ==> r is None,
{
    match snapshot.active_fan_profile {
        Some(FanProfileId::Custom) => match &snapshot.active_fan_curves {
            Some(curves) => Some(curves.copy()),
            None => None,
        },
        _ => None,
    }
}

/// The error detail of a failed periodic refresh.
pub open spec fn periodic_refresh_detail(error: Seq<char>) -> Seq<char> {
    "Periodic custom fan curve refresh failed: "@ + error
}

/// Records the outcome of a periodic custom-curve refresh: a success as a
/// fan apply, a failure as a fan error prefixed with
/// `Periodic custom fan curve refresh failed: `.
pub fn record_periodic_fan_refresh(
    snapshot: &mut ControlSnapshot,
    outcome: &Result<AppliedFanControlSnapshot, String>,
)
    ensures
        *outcome matches Ok(a) ==> fan_success_recorded(*old(snapshot), *final(snapshot), a),
        *outcome matches Err(e) ==> fan_error_recorded(
            *old(snapshot),
            *final(snapshot),
            periodic_refresh_detail(e@),
        ),
{
    match outcome {
        Ok(applied) => persist_fan_apply_success(snapshot, applied),
        Err(error) => {
            let mut detail = String::new();
            detail.append("Periodic custom fan curve refresh failed: ");
            detail.append(error.as_str());
            persist_fan_apply_error(snapshot, detail.as_str());
        },
    }
}

} // verus!
