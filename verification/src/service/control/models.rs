//! Requests, applied-state records and the persisted control snapshot of the
//! control worker.
//!
//! Firmware readbacks are JSON documents; the library carries them as their
//! JSON text and never looks inside.
use vstd::prelude::*;

use crate::text::string_from;

verus! {

/// Power profile of the control worker.
#[derive(Clone, Copy, Debug, PartialEq, Eq, Structural)]
pub enum PowerProfileId {
    BatteryGuard,
    Balanced,
    Performance,
    Turbo,
    Custom,
}

/// Firmware base mode that a custom power profile is layered on.
#[derive(Clone, Copy, Debug, PartialEq, Eq, Structural)]
pub enum CustomPowerBaseId {
    Balanced,
    Performance,
    Turbo,
}

/// Windows minimum and maximum processor state, in percent.
#[derive(Clone, Copy, Debug, PartialEq, Eq, Structural)]
pub struct ProcessorStateSettings {
    pub min_percent: u8,
    pub max_percent: u8,
}

/// Processor state read back for AC and DC power.
#[derive(Clone, Copy, Debug, PartialEq, Eq, Structural)]
pub struct ProcessorStateReadback {
    pub ac: ProcessorStateSettings,
    pub dc: ProcessorStateSettings,
}

/// GPU overclock settings.
#[derive(Clone, Copy, Debug, PartialEq, Eq, Structural)]
pub struct GpuTuningState {
    pub core_clock_mhz: i16,
    pub memory_clock_mhz: i16,
    pub voltage_offset_mv: i16,
    pub power_limit_percent: u8,
    pub temp_limit_c: u8,
}

/// Fan profile of the control worker.
#[derive(Clone, Copy, Debug, PartialEq, Eq, Structural)]
pub enum FanProfileId {
    Auto,
    Max,
    Custom,
}

/// The wire name of a fan profile.
pub open spec fn fan_profile_name(id: FanProfileId) -> Seq<char> {
    match id {
        FanProfileId::Auto => "auto"@,
        FanProfileId::Max => "max"@,
        FanProfileId::Custom => "custom"@,
    }
}

impl FanProfileId {
    /// The wire name of the profile: `auto`, `max` or `custom`.
    pub fn as_str(&self) -> (r: &'static str)
        ensures
            r@ == fan_profile_name(*self),
    {
        match self {
            FanProfileId::Auto => "auto",
            FanProfileId::Max => "max",
            FanProfileId::Custom => "custom",
        }
    }
}

/// One point of a fan curve: at `temp_c` degrees the fan runs at
/// `speed_percent`.
#[derive(Clone, Copy, Debug, PartialEq, Eq, Structural)]
pub struct FanCurvePoint {
    pub temp_c: u8,
    pub speed_percent: u8,
}

/// The CPU and GPU fan curves.
#[derive(Clone, Debug)]
pub struct FanCurveSet {
    pub cpu: Vec<FanCurvePoint>,
    pub gpu: Vec<FanCurvePoint>,
}

/// The points of a [`FanCurveSet`].
pub struct FanCurveSetView {
    pub cpu: Seq<FanCurvePoint>,
    pub gpu: Seq<FanCurvePoint>,
}

impl View for FanCurveSet {
    type V = FanCurveSetView;

    open spec fn view(&self) -> FanCurveSetView {
        FanCurveSetView { cpu: self.cpu@, gpu: self.gpu@ }
    }
}

/// The points of an optional curve set.
pub open spec fn curves_view(c: Option<FanCurveSet>) -> Option<FanCurveSetView> {
    match c {
        Some(set) => Some(set@),
        None => None,
    }
}

/// A copy of a run of curve points.
pub fn copy_points(v: &Vec<FanCurvePoint>) -> (r: Vec<FanCurvePoint>)
    ensures
        r@ == v@,
{
    let mut r: Vec<FanCurvePoint> = Vec::new();
    let n = v.len();
    for i in 0..n
        invariant
            n == v@.len(),
            r@ == v@.take(i as int),
    {
        r.push(v[i]);
        assert(v@.take(i + 1) =~= v@.take(i as int).push(v@[i as int]));
    }
    assert(v@.take(n as int) =~= v@);
    r
}

impl FanCurveSet {
    /// A copy of both curves.
    pub fn copy(&self) -> (r: FanCurveSet)
        ensures
            r@ == self@,
    {
        FanCurveSet { cpu: copy_points(&self.cpu), gpu: copy_points(&self.gpu) }
    }
}

/// A copy of an optional text.
pub fn copy_text(t: &Option<String>) -> (r: Option<String>)
    ensures
        r == *t,
{
    match t {
        Some(s) => Some(s.clone()),
        None => None,
    }
}

/// A request to apply a power profile with a processor state.
#[derive(Clone, Debug)]
pub struct ApplyPowerProfileRequest {
    pub profile_id: PowerProfileId,
    pub processor_state: ProcessorStateSettings,
    pub custom_base_profile: Option<CustomPowerBaseId>,
}

/// A request to apply GPU tuning.
#[derive(Clone, Debug)]
pub struct ApplyGpuTuningRequest {
    pub tuning: GpuTuningState,
}

/// A request to apply a fan profile.
#[derive(Clone, Debug)]
pub struct ApplyFanProfileRequest {
    pub profile_id: FanProfileId,
}

/// A request to apply custom fan curves.
#[derive(Clone, Debug)]
pub struct ApplyCustomFanCurvesRequest {
    pub curves: FanCurveSet,
}

/// A request to apply a boot logo image.
#[derive(Clone, Debug)]
pub struct ApplyBootLogoRequest {
    pub image_path: String,
    pub original_filename: Option<String>,
}

/// A request to turn smart charging on or off.
#[derive(Clone, Debug)]
pub struct ApplySmartChargeRequest {
    pub enabled: bool,
}

/// The outcome of a successful power-profile apply.
#[derive(Clone, Debug)]
pub struct AppliedPowerProfileSnapshot {
    pub profile_id: PowerProfileId,
    pub processor_state: ProcessorStateSettings,
    pub custom_base_profile: Option<CustomPowerBaseId>,
    pub readback: ProcessorStateReadback,
    pub drift_detected: bool,
    pub applied_at_unix: u64,
    pub detail: String,
}

/// The outcome of a successful GPU-tuning apply.
#[derive(Clone, Debug)]
pub struct AppliedGpuTuningSnapshot {
    pub tuning: GpuTuningState,
    pub applied_at_unix: u64,
    pub detail: String,
}

/// The outcome of a successful fan-control apply; `readback` is the
/// firmware readback as JSON text.
#[derive(Clone, Debug)]
pub struct AppliedFanControlSnapshot {
    pub profile_id: FanProfileId,
    pub curves: Option<FanCurveSet>,
    pub cpu_speed_percent: Option<u8>,
    pub gpu_speed_percent: Option<u8>,
    pub readback: Option<String>,
    pub applied_at_unix: u64,
    pub detail: String,
}

/// The outcome of a successful boot-logo apply; `readback` is JSON text.
#[derive(Clone, Debug)]
pub struct AppliedBootLogoSnapshot {
    pub image_path: String,
    pub original_filename: Option<String>,
    pub readback: Option<String>,
    pub applied_at_unix: u64,
    pub detail: String,
}

/// The outcome of a successful battery-charge-limit apply.
#[derive(Clone, Debug)]
pub struct AppliedSmartChargeSnapshot {
    pub enabled: bool,
    pub health_status: u8,
    pub battery_healthy: u8,
    pub applied_at_unix: u64,
    pub detail: String,
}

/// The control state that the service persists between applies; readbacks
/// are JSON text.
#[derive(Clone, Debug)]
pub struct ControlSnapshot {
    pub service: String,
    pub power_apply_supported: bool,
    pub gpu_tuning_apply_supported: bool,
    pub fan_apply_supported: bool,
    pub fan_curve_apply_supported: bool,
    pub active_power_profile: Option<PowerProfileId>,
    pub processor_state: Option<ProcessorStateSettings>,
    pub processor_state_readback: Option<ProcessorStateReadback>,
    pub processor_state_drift_detected: bool,
    pub last_applied_at_unix: Option<u64>,
    pub last_apply_detail: String,
    pub last_error: Option<String>,
    pub active_gpu_tuning: Option<GpuTuningState>,
    pub last_gpu_tuning_applied_at_unix: Option<u64>,
    pub last_gpu_tuning_detail: String,
    pub last_gpu_tuning_error: Option<String>,
    pub active_fan_profile: Option<FanProfileId>,
    pub active_fan_curves: Option<FanCurveSet>,
    pub last_fan_applied_at_unix: Option<u64>,
    pub last_fan_apply_detail: String,
    pub last_fan_error: Option<String>,
    pub last_fan_readback: Option<String>,
    pub boot_logo_apply_supported: bool,
    pub last_boot_logo_applied_at_unix: Option<u64>,
    pub last_boot_logo_apply_detail: String,
    pub last_boot_logo_error: Option<String>,
    pub last_boot_logo_readback: Option<String>,
}

/// The value a missing `true`-defaulted field takes.
pub fn default_true() -> (r: bool)
    ensures
        r,
{
    true
}

/// The value a missing `false`-defaulted field takes.
pub fn default_false() -> (r: bool)
    ensures
        !r,
{
    false
}

/// The fan-apply detail before any fan apply.
pub fn default_waiting_fan_apply_detail() -> (r: String)
    ensures
        r@ == "Waiting for the first fan-control apply."@,
{
    string_from("Waiting for the first fan-control apply.")
}

/// The boot-logo detail before any boot-logo apply.
pub fn default_waiting_boot_logo_apply_detail() -> (r: String)
    ensures
        r@
            == "Boot-logo firmware apply is disabled until a direct hardware path is implemented."@,
{
    string_from("Boot-logo firmware apply is disabled until a direct hardware path is implemented.")
}

/// The snapshot of a service that has not applied anything yet.
pub open spec fn is_default_snapshot(s: ControlSnapshot, service: Seq<char>) -> bool {
    &&& s.service@ == service
    &&& s.power_apply_supported
    &&& s.gpu_tuning_apply_supported
    &&& s.fan_apply_supported
    &&& s.fan_curve_apply_supported
    &&& s.active_power_profile is None
    &&& s.processor_state is None
    &&& s.processor_state_readback is None
    &&& !s.processor_state_drift_detected
    &&& s.last_applied_at_unix is None
    &&& s.last_apply_detail@ == "Waiting for the first control action."@
    &&& s.last_error is None
    &&& s.active_gpu_tuning is None
    &&& s.last_gpu_tuning_applied_at_unix is None
    &&& s.last_gpu_tuning_detail@ == "Waiting for the first GPU tuning apply."@
    &&& s.last_gpu_tuning_error is None
    &&& s.active_fan_profile is None
    &&& s.active_fan_curves is None
    &&& s.last_fan_applied_at_unix is None
    &&& s.last_fan_apply_detail@ == "Waiting for the first fan-control apply."@
    &&& s.last_fan_error is None
    &&& s.last_fan_readback is None
    &&& !s.boot_logo_apply_supported
    &&& s.last_boot_logo_applied_at_unix is None
    &&& s.last_boot_logo_apply_detail@
        == "Boot-logo firmware apply is disabled until a direct hardware path is implemented."@
    &&& s.last_boot_logo_error is None
    &&& s.last_boot_logo_readback is None
}

impl ControlSnapshot {
    /// The snapshot of `service` before any control action.
    pub fn default_snapshot(service: &'static str) -> (r: Self)
        ensures
            is_default_snapshot(r, service@),
    {
        ControlSnapshot {
            service: string_from(service),
            power_apply_supported: true,
            gpu_tuning_apply_supported: true,
            fan_apply_supported: true,
            fan_curve_apply_supported: true,
            active_power_profile: None,
            processor_state: None,
            processor_state_readback: None,
            processor_state_drift_detected: false,
            last_applied_at_unix: None,
            last_apply_detail: string_from("Waiting for the first control action."),
            last_error: None,
            active_gpu_tuning: None,
            last_gpu_tuning_applied_at_unix: None,
            last_gpu_tuning_detail: string_from("Waiting for the first GPU tuning apply."),
            last_gpu_tuning_error: None,
            active_fan_profile: None,
            active_fan_curves: None,
            last_fan_applied_at_unix: None,
            last_fan_apply_detail: default_waiting_fan_apply_detail(),
            last_fan_error: None,
            last_fan_readback: None,
            boot_logo_apply_supported: false,
            last_boot_logo_applied_at_unix: None,
            last_boot_logo_apply_detail: default_waiting_boot_logo_apply_detail(),
            last_boot_logo_error: None,
            last_boot_logo_readback: None,
        }
    }
}

} // verus!
