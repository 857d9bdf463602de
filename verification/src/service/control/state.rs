//! How each apply outcome is recorded in the persisted control snapshot.
//!
//! Reading the snapshot file and writing it back is the caller's I/O; these
//! functions change the snapshot in memory.
use vstd::prelude::*;

use super::models::{
    copy_text, curves_view, is_default_snapshot, AppliedBootLogoSnapshot,
    AppliedFanControlSnapshot, AppliedGpuTuningSnapshot, AppliedPowerProfileSnapshot,
    ControlSnapshot,
};
use crate::text::string_from;

verus! {

/// The service name the control worker records in its snapshot.
pub open spec fn control_worker_name() -> Seq<char> {
    "control-worker"@
}

/// `new` is `old` with a successful power-profile apply recorded: the
/// profile, requested and read-back processor state, drift flag, time and
/// detail are taken from the apply and the last error is cleared.
pub open spec fn power_success_recorded(
    old: ControlSnapshot,
    new: ControlSnapshot,
    applied: AppliedPowerProfileSnapshot,
) -> bool {
    new == (ControlSnapshot {
        active_power_profile: Some(applied.profile_id),
        processor_state: Some(applied.processor_state),
        processor_state_readback: Some(applied.readback),
        processor_state_drift_detected: applied.drift_detected,
        last_applied_at_unix: Some(applied.applied_at_unix),
        last_apply_detail: applied.detail,
        last_error: None,
        ..old
    })
}

/// `new` is `old` with a successful GPU-tuning apply recorded.
pub open spec fn gpu_success_recorded(
    old: ControlSnapshot,
    new: ControlSnapshot,
    applied: AppliedGpuTuningSnapshot,
) -> bool {
    new == (ControlSnapshot {
        gpu_tuning_apply_supported: true,
        active_gpu_tuning: Some(applied.tuning),
        last_gpu_tuning_applied_at_unix: Some(applied.applied_at_unix),
        last_gpu_tuning_detail: applied.detail,
        last_gpu_tuning_error: None,
        ..old
    })
}

/// `new` is `old` with a successful fan-control apply recorded; the saved
/// curves are replaced only when the apply carried curves.
pub open spec fn fan_success_recorded(
    old: ControlSnapshot,
    new: ControlSnapshot,
    applied: AppliedFanControlSnapshot,
) -> bool {
    &&& new == (ControlSnapshot {
        fan_apply_supported: true,
        fan_curve_apply_supported: true,
        active_fan_profile: Some(applied.profile_id),
        active_fan_curves: new.active_fan_curves,
        last_fan_applied_at_unix: Some(applied.applied_at_unix),
        last_fan_apply_detail: applied.detail,
        last_fan_error: None,
        last_fan_readback: applied.readback,
        ..old
    })
    &&& applied.curves is Some ==> curves_view(new.active_fan_curves) == curves_view(applied.curves)
    &&& applied.curves is None ==> new.active_fan_curves == old.active_fan_curves
}

/// `new` is `old` with a failed power-profile apply recorded.
pub open spec fn power_error_recorded(old: ControlSnapshot, new: ControlSnapshot, detail: Seq<
    char,
>) -> bool {
    &&& new.last_error matches Some(e) && e@ == detail
    &&& new.last_apply_detail@ == "The most recent power-profile apply attempt failed."@
    &&& new == (ControlSnapshot {
        last_error: new.last_error,
        last_apply_detail: new.last_apply_detail,
        processor_state_drift_detected: false,
        ..old
    })
}

/// `new` is `old` with a failed GPU-tuning apply recorded.
pub open spec fn gpu_error_recorded(old: ControlSnapshot, new: ControlSnapshot, detail: Seq<
    char,
>) -> bool {
    &&& new.last_gpu_tuning_error matches Some(e) && e@ == detail
    &&& new.last_gpu_tuning_detail@ == "The most recent GPU tuning apply attempt failed."@
    &&& new == (ControlSnapshot {
        last_gpu_tuning_error: new.last_gpu_tuning_error,
        last_gpu_tuning_detail: new.last_gpu_tuning_detail,
        ..old
    })
}

/// `new` is `old` with a failed fan-control apply recorded.
pub open spec fn fan_error_recorded(old: ControlSnapshot, new: ControlSnapshot, detail: Seq<
    char,
>) -> bool {
    &&& new.last_fan_error matches Some(e) && e@ == detail
    &&& new.last_fan_apply_detail@ == "The most recent fan-control apply attempt failed."@
    &&& new == (ControlSnapshot {
        last_fan_error: new.last_fan_error,
        last_fan_apply_detail: new.last_fan_apply_detail,
        ..old
    })
}

/// The snapshot to write when no snapshot file exists yet: `None` when one
/// exists, otherwise the default snapshot of the control worker.
pub fn persist_default_snapshot(file_exists: bool) -> (r: Option<ControlSnapshot>)
    ensures
        file_exists ==> r is None,
        !file_exists ==> (r matches Some(s) && is_default_snapshot(s, control_worker_name())),
{
    if file_exists {
        None
    } else {
        Some(ControlSnapshot::default_snapshot("control-worker"))
    }
}

/// The stored snapshot, or the default snapshot when there is none.
pub fn load_snapshot(stored: Option<ControlSnapshot>) -> (r: ControlSnapshot)
    ensures
        stored matches Some(s) ==> r == s,
        stored is None ==> is_default_snapshot(r, control_worker_name()),
{
    match stored {
        Some(s) => s,
        None => ControlSnapshot::default_snapshot("control-worker"),
    }
}

/// Records a successful power-profile apply.
pub fn persist_apply_success(snapshot: &mut ControlSnapshot, applied: &AppliedPowerProfileSnapshot)
    ensures
        power_success_recorded(*old(snapshot), *final(snapshot), *applied),
{
    snapshot.active_power_profile = Some(applied.profile_id);
    snapshot.processor_state = Some(applied.processor_state);
    snapshot.processor_state_readback = Some(applied.readback);
    snapshot.processor_state_drift_detected = applied.drift_detected;
    snapshot.last_applied_at_unix = Some(applied.applied_at_unix);
    snapshot.last_apply_detail = applied.detail.clone();
    snapshot.last_error = None;
}

/// Records a successful GPU-tuning apply.
pub fn persist_gpu_tuning_apply_success(
    snapshot: &mut ControlSnapshot,
    applied: &AppliedGpuTuningSnapshot,
)
    ensures
        gpu_success_recorded(*old(snapshot), *final(snapshot), *applied),
{
    snapshot.gpu_tuning_apply_supported = true;
    snapshot.active_gpu_tuning = Some(applied.tuning);
    snapshot.last_gpu_tuning_applied_at_unix = Some(applied.applied_at_unix);
    snapshot.last_gpu_tuning_detail = applied.detail.clone();
    snapshot.last_gpu_tuning_error = None;
}

/// Records a successful fan-control apply. The saved curves change only
/// when the apply carried curves.
pub fn persist_fan_apply_success(
    snapshot: &mut ControlSnapshot,
    applied: &AppliedFanControlSnapshot,
)
    ensures
        fan_success_recorded(*old(snapshot), *final(snapshot), *applied),
{
    snapshot.fan_apply_supported = true;
    snapshot.fan_curve_apply_supported = true;
    snapshot.active_fan_profile = Some(applied.profile_id);
    match &applied.curves {
        Some(curves) => {
            snapshot.active_fan_curves = Some(curves.copy());
        },
        None => {},
    }
    snapshot.last_fan_applied_at_unix = Some(applied.applied_at_unix);
    snapshot.last_fan_apply_detail = applied.detail.clone();
    snapshot.last_fan_error = None;
    snapshot.last_fan_readback = copy_text(&applied.readback);
}

/// Records a successful boot-logo apply.
pub fn persist_boot_logo_apply_success(
    snapshot: &mut ControlSnapshot,
    applied: &AppliedBootLogoSnapshot,
)
    ensures
        *final(snapshot) == (ControlSnapshot {
            boot_logo_apply_supported: true,
            last_boot_logo_applied_at_unix: Some(applied.applied_at_unix),
            last_boot_logo_apply_detail: applied.detail,
            last_boot_logo_error: None,
            last_boot_logo_readback: applied.readback,
            ..*old(snapshot)
        }),
{
    snapshot.boot_logo_apply_supported = true;
    snapshot.last_boot_logo_applied_at_unix = Some(applied.applied_at_unix);
    snapshot.last_boot_logo_apply_detail = applied.detail.clone();
    snapshot.last_boot_logo_error = None;
    snapshot.last_boot_logo_readback = copy_text(&applied.readback);
}

/// Records a failed power-profile apply with its error `detail`.
pub fn persist_apply_error(snapshot: &mut ControlSnapshot, detail: &str)
    ensures
        power_error_recorded(*old(snapshot), *final(snapshot), detail@),
{
    snapshot.last_error = Some(string_from(detail));
    snapshot.last_apply_detail = string_from("The most recent power-profile apply attempt failed.");
    snapshot.processor_state_drift_detected = false;
}

/// Records a failed GPU-tuning apply with its error `detail`.
pub fn persist_gpu_tuning_apply_error(snapshot: &mut ControlSnapshot, detail: &str)
    ensures
        gpu_error_recorded(*old(snapshot), *final(snapshot), detail@),
{
    snapshot.last_gpu_tuning_error = Some(string_from(detail));
    snapshot.last_gpu_tuning_detail = string_from("The most recent GPU tuning apply attempt failed.");
}

/// Records a failed fan-control apply with its error `detail`.
pub fn persist_fan_apply_error(snapshot: &mut ControlSnapshot, detail: &str)
    ensures
        fan_error_recorded(*old(snapshot), *final(snapshot), detail@),
{
    snapshot.last_fan_error = Some(string_from(detail));
    snapshot.last_fan_apply_detail = string_from("The most recent fan-control apply attempt failed.");
}

/// Records a failed boot-logo apply with its error `detail`.
pub fn persist_boot_logo_apply_error(snapshot: &mut ControlSnapshot, detail: &str)
    ensures
        final(snapshot).last_boot_logo_error matches Some(e) && e@ == detail@,
        final(snapshot).last_boot_logo_apply_detail@
            == "The most recent boot-logo apply attempt failed."@,
        *final(snapshot) == (ControlSnapshot {
            last_boot_logo_error: final(snapshot).last_boot_logo_error,
            last_boot_logo_apply_detail: final(snapshot).last_boot_logo_apply_detail,
            ..*old(snapshot)
        }),
{
    snapshot.last_boot_logo_error = Some(string_from(detail));
    snapshot.last_boot_logo_apply_detail = string_from(
        "The most recent boot-logo apply attempt failed.",
    );
}

// ----------------------------------------------------------------------------
// Laws of the records
// ----------------------------------------------------------------------------

/// A failed power-profile apply after a successful one keeps what the
/// success recorded (profile, processor state, readback, time), records the
/// error and clears the drift flag.
pub proof fn law_failed_power_apply_keeps_last_success(
    s0: ControlSnapshot,
    s1: ControlSnapshot,
    s2: ControlSnapshot,
    applied: AppliedPowerProfileSnapshot,
    detail: Seq<char>,
)
    requires
        power_success_recorded(s0, s1, applied),
        power_error_recorded(s1, s2, detail),
    ensures
        s2.active_power_profile == Some(applied.profile_id),
        s2.processor_state == Some(applied.processor_state),
        s2.processor_state_readback == Some(applied.readback),
        s2.last_applied_at_unix == Some(applied.applied_at_unix),
        s2.last_error matches Some(e) && e@ == detail,
        !s2.processor_state_drift_detected,
{
}

/// A successful power-profile apply after a failed one clears the error.
pub proof fn law_power_success_clears_error(
    s0: ControlSnapshot,
    s1: ControlSnapshot,
    s2: ControlSnapshot,
    detail: Seq<char>,
    applied: AppliedPowerProfileSnapshot,
)
    requires
        power_error_recorded(s0, s1, detail),
        power_success_recorded(s1, s2, applied),
    ensures
        s2.last_error is None,
        s2.active_power_profile == Some(applied.profile_id),
        s2.last_apply_detail == applied.detail,
{
}

/// Recording a fan apply, successful or failed, leaves the power-profile
/// and GPU-tuning records as they were.
pub proof fn law_fan_records_leave_power_and_gpu_state(
    s0: ControlSnapshot,
    s1: ControlSnapshot,
    s2: ControlSnapshot,
    applied: AppliedFanControlSnapshot,
    detail: Seq<char>,
)
    requires
        fan_success_recorded(s0, s1, applied) || fan_error_recorded(s0, s1, detail),
    ensures
        s1.active_power_profile == s0.active_power_profile,
        s1.processor_state == s0.processor_state,
        s1.processor_state_readback == s0.processor_state_readback,
        s1.last_applied_at_unix == s0.last_applied_at_unix,
        s1.last_apply_detail == s0.last_apply_detail,
        s1.last_error == s0.last_error,
        s1.active_gpu_tuning == s0.active_gpu_tuning,
        s1.last_gpu_tuning_error == s0.last_gpu_tuning_error,
{
}

/// Recording a power-profile apply, successful or failed, leaves the fan
/// and GPU-tuning records as they were.
pub proof fn law_power_records_leave_fan_and_gpu_state(
    s0: ControlSnapshot,
    s1: ControlSnapshot,
    applied: AppliedPowerProfileSnapshot,
    detail: Seq<char>,
)
    requires
        power_success_recorded(s0, s1, applied) || power_error_recorded(s0, s1, detail),
    ensures
        s1.active_fan_profile == s0.active_fan_profile,
        s1.active_fan_curves == s0.active_fan_curves,
        s1.last_fan_applied_at_unix == s0.last_fan_applied_at_unix,
        s1.last_fan_error == s0.last_fan_error,
        s1.active_gpu_tuning == s0.active_gpu_tuning,
        s1.last_gpu_tuning_error == s0.last_gpu_tuning_error,
{
}

/// A fan apply that carried curves saves exactly those points; one that
/// carried none keeps the saved curves.
pub proof fn law_fan_success_saves_applied_curves(
    s0: ControlSnapshot,
    s1: ControlSnapshot,
    applied: AppliedFanControlSnapshot,
)
    requires
        fan_success_recorded(s0, s1, applied),
    ensures
        applied.curves is Some ==> curves_view(s1.active_fan_curves) == curves_view(applied.curves),
        applied.curves is None ==> s1.active_fan_curves == s0.active_fan_curves,
        s1.active_fan_profile == Some(applied.profile_id),
        s1.last_fan_error is None,
{
}

} // verus!
