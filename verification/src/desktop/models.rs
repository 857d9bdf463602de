//! The desktop shell's view of the service and its own persisted control
//! state.
use vstd::prelude::*;

pub use crate::service::control::models::{
    default_waiting_fan_apply_detail, CustomPowerBaseId, FanCurvePoint, FanCurveSet,
    FanProfileId, GpuTuningState, ProcessorStateReadback, ProcessorStateSettings,
};
use crate::text::string_from;

verus! {

/// The shell and backend versions.
#[derive(Clone, Debug)]
pub struct ShellStatus {
    pub shell: String,
    pub backend_version: String,
}

/// One service worker as the supervisor reports it.
#[derive(Clone, Debug)]
pub struct ServiceWorkerStatus {
    pub name: String,
    pub state: String,
    pub interval_seconds: u64,
    pub last_update_unix: u64,
    pub last_error: Option<String>,
}

/// The service's status as the shell shows it.
#[derive(Clone, Debug)]
pub struct ServiceStatus {
    pub connected: bool,
    pub pipe_name: String,
    pub service_name: String,
    pub version: Option<String>,
    pub state_dir: Option<String>,
    pub supervisor_file: Option<String>,
    pub worker_count: usize,
    pub updated_at_unix: Option<u64>,
    pub workers: Vec<ServiceWorkerStatus>,
    pub detail: String,
}

/// One command of the backend contract.
#[derive(Clone, Debug)]
pub struct CommandDescriptor {
    pub command: String,
    pub stage: String,
    pub purpose: String,
}

/// The commands the backend offers, with the contract version.
#[derive(Clone, Debug)]
pub struct BackendContract {
    pub schema_version: String,
    pub commands: Vec<CommandDescriptor>,
}

/// Whether a feature is available, writable, and needs elevation.
#[derive(Clone, Copy, Debug, PartialEq, Eq, Structural)]
pub struct FeatureSupport {
    pub available: bool,
    pub writable: bool,
    pub requires_elevation: bool,
}

/// What the machine supports, per feature.
#[derive(Clone, Debug)]
pub struct CapabilitySnapshot {
    pub power_profiles: FeatureSupport,
    pub fan_profiles: FeatureSupport,
    pub fan_curves: FeatureSupport,
    pub smart_charging: FeatureSupport,
    pub usb_power: FeatureSupport,
    pub blue_light_filter: FeatureSupport,
    pub gpu_tuning: FeatureSupport,
    pub boot_logo: FeatureSupport,
    pub notes: Vec<String>,
}

/// Power profile as the shell offers it (`performance` is read as Turbo).
#[derive(Clone, Copy, Debug, PartialEq, Eq, Structural)]
pub enum PowerProfileId {
    BatteryGuard,
    Balanced,
    Turbo,
    Custom,
}

/// The boot splash art.
#[derive(Clone, Copy, Debug, PartialEq, Eq, Structural)]
pub enum BootArtId {
    Ember,
    Arc,
    Slate,
    Custom,
}

/// The release channel the updater follows.
#[derive(Clone, Copy, Debug, PartialEq, Eq, Structural)]
pub enum UpdateChannelId {
    Stable,
    Preview,
}

/// The wire name of an update channel.
pub open spec fn update_channel_name(id: UpdateChannelId) -> Seq<char> {
    match id {
        UpdateChannelId::Stable => "stable"@,
        UpdateChannelId::Preview => "preview"@,
    }
}

impl UpdateChannelId {
    /// The wire name of the channel: `stable` or `preview`.
    pub fn as_str(&self) -> (r: &'static str)
        ensures
            r@ == update_channel_name(*self),
    {
        match self {
            UpdateChannelId::Stable => "stable",
            UpdateChannelId::Preview => "preview",
        }
    }
}

/// Whether GPU tuning is only staged in the shell or live on the device.
#[derive(Clone, Copy, Debug, PartialEq, Eq, Structural)]
pub enum ApplyState {
    Staged,
    Live,
}

/// A saved GPU overclock preset.
#[derive(Clone, Debug)]
pub struct OcPreset {
    pub id: String,
    pub label: String,
    pub name: String,
    pub strap: String,
    pub settings: GpuTuningState,
    pub is_custom: bool,
}

/// The user's personal settings.
#[derive(Clone, Debug)]
pub struct PersonalSettings {
    pub smart_charging_enabled: bool,
    pub usb_power_enabled: bool,
    pub blue_light_filter_enabled: bool,
    pub selected_boot_art: BootArtId,
    pub custom_boot_filename: String,
    pub update_channel: UpdateChannelId,
    pub check_for_updates_on_launch: bool,
}

/// The control state the shell persists.
#[derive(Clone, Debug)]
pub struct ControlSnapshot {
    pub active_power_profile: PowerProfileId,
    pub active_fan_profile: FanProfileId,
    pub custom_processor_state: ProcessorStateSettings,
    pub gpu_tuning: GpuTuningState,
    pub oc_presets: Vec<OcPreset>,
    pub active_oc_slot: String,
    pub oc_apply_state: ApplyState,
    pub oc_tuning_locked: bool,
    pub fan_curves: FanCurveSet,
    pub fan_sync_lock_enabled: bool,
    pub personal_settings: PersonalSettings,
}

/// The service's control state as the shell reads it; the fan readback is a
/// JSON document the shell passes through.
pub struct LiveControlSnapshot {
    pub service: String,
    pub power_apply_supported: bool,
    pub gpu_tuning_apply_supported: bool,
    pub fan_apply_supported: bool,
    pub fan_curve_apply_supported: bool,
    pub active_power_profile: Option<PowerProfileId>,
    pub processor_state: Option<ProcessorStateSettings>,
    pub processor_state_readback: Option<ProcessorStateReadback>,
    pub processor_state_drift_detected: bool,
    pub last_applied_at_unix: Option<u64>,
    pub last_apply_detail: String,
    pub last_error: Option<String>,
    pub active_fan_profile: Option<FanProfileId>,
    pub active_fan_curves: Option<FanCurveSet>,
    pub last_fan_applied_at_unix: Option<u64>,
    pub last_fan_apply_detail: String,
    pub last_fan_error: Option<String>,
    pub last_fan_readback: Option<serde_json::Value>,
}

/// The telemetry the shell shows.
#[derive(Clone, Debug)]
pub struct TelemetrySnapshot {
    pub cpu_temp_c: u8,
    pub cpu_temp_average_c: Option<u8>,
    pub cpu_temp_lowest_core_c: Option<u8>,
    pub cpu_temp_highest_core_c: Option<u8>,
    pub gpu_temp_c: u8,
    pub system_temp_c: u8,
    pub cpu_usage_percent: u8,
    pub gpu_usage_percent: u8,
    pub gpu_memory_usage_percent: Option<u8>,
    pub cpu_name: Option<String>,
    pub cpu_brand: Option<String>,
    pub gpu_name: Option<String>,
    pub gpu_brand: Option<String>,
    pub system_vendor: Option<String>,
    pub system_model: Option<String>,
    pub cpu_clock_mhz: u16,
    pub gpu_clock_mhz: u16,
    pub cpu_fan_rpm: u16,
    pub gpu_fan_rpm: u16,
    pub battery_percent: u8,
    pub battery_life_remaining_sec: Option<u32>,
    pub ac_plugged_in: bool,
}

/// The saved controls and outcome of a GPU-tuning apply.
#[derive(Clone, Debug)]
pub struct GpuTuningApplyResult {
    pub controls: ControlSnapshot,
    pub applied_at_unix: u64,
    pub detail: String,
}

/// The saved controls and outcome of a fan apply.
#[derive(Clone, Debug)]
pub struct FanControlApplyResult {
    pub controls: ControlSnapshot,
    pub applied_at_unix: u64,
    pub detail: String,
}

/// The saved controls and outcome of a smart-charging change.
#[derive(Clone, Debug)]
pub struct SmartChargeApplyResult {
    pub controls: ControlSnapshot,
    pub applied_at_unix: u64,
    pub battery_healthy: u8,
    pub detail: String,
}

/// Everything the shell loads at start.
#[derive(Clone, Debug)]
pub struct BackendBootstrap {
    pub shell: ShellStatus,
    pub service: ServiceStatus,
    pub contract: BackendContract,
    pub capabilities: CapabilitySnapshot,
    pub controls: ControlSnapshot,
    pub telemetry: TelemetrySnapshot,
}

/// Where the shell keeps its controls, and whether they came from disk.
#[derive(Clone, Debug)]
pub struct PersistenceStatus {
    pub config_file: String,
    pub initialized_from_disk: bool,
}

/// The updater's state.
#[derive(Clone, Debug)]
pub struct UpdateStatus {
    pub repo_slug: String,
    pub current_version: String,
    pub token_configured: bool,
    pub last_checked_at_unix: Option<u64>,
    pub update_available: bool,
    pub can_stage_update: bool,
    pub can_install_update: bool,
    pub feed_kind: String,
    pub latest_version: Option<String>,
    pub latest_title: Option<String>,
    pub latest_published_at: Option<String>,
    pub latest_commit_sha: Option<String>,
    pub latest_asset_name: Option<String>,
    pub staged_asset_name: Option<String>,
    pub staged_asset_path: Option<String>,
    pub staged_sha256: Option<String>,
    pub staged_at_unix: Option<u64>,
    pub detail: String,
    pub last_error: Option<String>,
}

/// The boot art a missing setting takes.
pub fn default_boot_art() -> (r: BootArtId)
    ensures
        r == BootArtId::Ember,
{
    BootArtId::Ember
}

/// The custom boot-image file name a missing setting takes.
pub fn default_custom_boot_filename() -> (r: String)
    ensures
        r@ == "custom-boot.png"@,
{
    string_from("custom-boot.png")
}

/// The update channel a missing setting takes.
pub fn default_update_channel() -> (r: UpdateChannelId)
    ensures
        r == UpdateChannelId::Stable,
{
    UpdateChannelId::Stable
}

/// The power-apply detail before any control action.
pub fn default_waiting_power_apply_detail() -> (r: String)
    ensures
        r@ == "Waiting for the first control action."@,
{
    string_from("Waiting for the first control action.")
}

/// The repository the updater watches when none is configured.
pub fn default_update_repo_slug() -> (r: String)
    ensures
        r@ == "noahcabral/aeroforge-nitrosense-alternative"@,
{
    string_from("noahcabral/aeroforge-nitrosense-alternative")
}

/// The update feed kind before any check.
pub fn default_update_feed_kind() -> (r: String)
    ensures
        r@ == "none"@,
{
    string_from("none")
}

/// The updater detail before any check.
pub fn default_update_detail() -> (r: String)
    ensures
        r@ == "Updater not checked yet."@,
{
    string_from("Updater not checked yet.")
}

} // verus!
