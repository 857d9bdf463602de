use aeroforge::service::control::models::{
    AppliedFanControlSnapshot, AppliedGpuTuningSnapshot, AppliedPowerProfileSnapshot,
    ApplyFanProfileRequest, ApplySmartChargeRequest, ControlSnapshot, FanCurvePoint, FanCurveSet,
    FanProfileId, GpuTuningState, PowerProfileId, ProcessorStateReadback, ProcessorStateSettings,
};
use aeroforge::service::control::smart_charge::{
    apply_smart_charging, battery_control_attempt_detail, battery_control_failure,
    check_battery_control_output, requested_health_status, BatteryControlApplyOutput,
};
use aeroforge::service::control::state::{
    load_snapshot, persist_apply_error, persist_apply_success, persist_default_snapshot,
    persist_fan_apply_error, persist_fan_apply_success, persist_gpu_tuning_apply_error,
    persist_gpu_tuning_apply_success,
};
use aeroforge::service::control::{
    apply_custom_fan_curves, apply_fan_profile, apply_power_profile, periodic_custom_fan_curves,
    record_periodic_fan_refresh, FanProfileRoute,
};

fn settings(min_percent: u8, max_percent: u8) -> ProcessorStateSettings {
    ProcessorStateSettings { min_percent, max_percent }
}

fn power_applied() -> AppliedPowerProfileSnapshot {
    AppliedPowerProfileSnapshot {
        profile_id: PowerProfileId::Turbo,
        processor_state: settings(5, 100),
        custom_base_profile: None,
        readback: ProcessorStateReadback { ac: settings(5, 100), dc: settings(5, 100) },
        drift_detected: false,
        applied_at_unix: 1_700_000_000,
        detail: "Turbo applied.".to_string(),
    }
}

fn curves() -> FanCurveSet {
    FanCurveSet {
        cpu: vec![FanCurvePoint { temp_c: 40, speed_percent: 20 }],
        gpu: vec![FanCurvePoint { temp_c: 50, speed_percent: 30 }],
    }
}

fn fan_applied(profile_id: FanProfileId, with_curves: bool) -> AppliedFanControlSnapshot {
    AppliedFanControlSnapshot {
        profile_id,
        curves: if with_curves { Some(curves()) } else { None },
        cpu_speed_percent: Some(20),
        gpu_speed_percent: Some(30),
        readback: Some("{}".to_string()),
        applied_at_unix: 42,
        detail: "Fan applied.".to_string(),
    }
}

#[test]
fn default_snapshot_is_written_only_when_missing() {
    assert!(persist_default_snapshot(true).is_none());
    let s = persist_default_snapshot(false).unwrap();
    assert_eq!(s.service, "control-worker");
    assert!(s.power_apply_supported);
    assert!(!s.boot_logo_apply_supported);
    assert_eq!(s.last_apply_detail, "Waiting for the first control action.");
    assert_eq!(s.last_fan_apply_detail, "Waiting for the first fan-control apply.");
    assert!(s.active_power_profile.is_none());
    let loaded = load_snapshot(None);
    assert_eq!(loaded.service, "control-worker");
    let mut stored = ControlSnapshot::default_snapshot("control-worker");
    stored.last_error = Some("x".to_string());
    assert_eq!(load_snapshot(Some(stored)).last_error, Some("x".to_string()));
}

#[test]
fn failed_power_apply_keeps_the_last_success() {
    let mut s = ControlSnapshot::default_snapshot("control-worker");
    persist_apply_success(&mut s, &power_applied());
    assert_eq!(s.active_power_profile, Some(PowerProfileId::Turbo));
    assert_eq!(s.last_error, None);
    persist_apply_error(&mut s, "firmware refused");
    assert_eq!(s.active_power_profile, Some(PowerProfileId::Turbo));
    assert_eq!(s.processor_state, Some(settings(5, 100)));
    assert_eq!(s.last_error, Some("firmware refused".to_string()));
    assert_eq!(s.last_apply_detail, "The most recent power-profile apply attempt failed.");
    assert!(!s.processor_state_drift_detected);
    persist_apply_success(&mut s, &power_applied());
    assert_eq!(s.last_error, None);
    assert_eq!(s.last_apply_detail, "Turbo applied.");
}

#[test]
fn fan_records_leave_power_and_gpu_state() {
    let mut s = ControlSnapshot::default_snapshot("control-worker");
    persist_apply_success(&mut s, &power_applied());
    let tuning = GpuTuningState {
        core_clock_mhz: 100,
        memory_clock_mhz: -50,
        voltage_offset_mv: 0,
        power_limit_percent: 90,
        temp_limit_c: 83,
    };
    persist_gpu_tuning_apply_success(
        &mut s,
        &AppliedGpuTuningSnapshot { tuning, applied_at_unix: 7, detail: "ok".to_string() },
    );
    persist_fan_apply_success(&mut s, &fan_applied(FanProfileId::Custom, true));
    persist_fan_apply_error(&mut s, "wmi");
    assert_eq!(s.active_power_profile, Some(PowerProfileId::Turbo));
    assert_eq!(s.active_gpu_tuning, Some(tuning));
    assert_eq!(s.active_fan_profile, Some(FanProfileId::Custom));
    assert_eq!(s.last_fan_error, Some("wmi".to_string()));
    assert_eq!(s.last_fan_apply_detail, "The most recent fan-control apply attempt failed.");
    persist_gpu_tuning_apply_error(&mut s, "nvapi");
    assert_eq!(s.last_gpu_tuning_error, Some("nvapi".to_string()));
    assert_eq!(s.last_gpu_tuning_detail, "The most recent GPU tuning apply attempt failed.");
    assert_eq!(s.active_gpu_tuning, Some(tuning));
}

#[test]
fn fan_apply_without_curves_keeps_saved_curves() {
    let mut s = ControlSnapshot::default_snapshot("control-worker");
    persist_fan_apply_success(&mut s, &fan_applied(FanProfileId::Custom, true));
    persist_fan_apply_success(&mut s, &fan_applied(FanProfileId::Max, false));
    assert_eq!(s.active_fan_profile, Some(FanProfileId::Max));
    assert_eq!(s.active_fan_curves.unwrap().cpu, curves().cpu);
}

#[test]
fn apply_outcomes_are_recorded_and_handed_back() {
    let mut s = ControlSnapshot::default_snapshot("control-worker");
    let r = apply_power_profile(&mut s, Err("denied".to_string()));
    assert_eq!(r.err().unwrap(), "denied");
    assert_eq!(s.last_error, Some("denied".to_string()));
    let r = apply_custom_fan_curves(&mut s, Ok(fan_applied(FanProfileId::Custom, true)));
    assert!(r.is_ok());
    assert_eq!(s.active_fan_profile, Some(FanProfileId::Custom));
}

#[test]
fn custom_fan_profile_needs_saved_curves() {
    let mut s = ControlSnapshot::default_snapshot("control-worker");
    let request = ApplyFanProfileRequest { profile_id: FanProfileId::Custom };
    assert_eq!(
        apply_fan_profile(&request, &s).err().unwrap(),
        "Custom fan mode requires a saved curve before it can be applied."
    );
    s.active_fan_curves = Some(curves());
    match apply_fan_profile(&request, &s).unwrap() {
        FanProfileRoute::SavedCurves(c) => assert_eq!(c.gpu, curves().gpu),
        FanProfileRoute::Fixed(_) => panic!("expected saved curves"),
    }
    let auto = ApplyFanProfileRequest { profile_id: FanProfileId::Auto };
    match apply_fan_profile(&auto, &s).unwrap() {
        FanProfileRoute::Fixed(p) => assert_eq!(p, FanProfileId::Auto),
        FanProfileRoute::SavedCurves(_) => panic!("expected a fixed profile"),
    }
}

#[test]
fn periodic_refresh_only_for_custom_with_curves() {
    let mut s = ControlSnapshot::default_snapshot("control-worker");
    assert!(periodic_custom_fan_curves(&s).is_none());
    s.active_fan_curves = Some(curves());
    s.active_fan_profile = Some(FanProfileId::Auto);
    assert!(periodic_custom_fan_curves(&s).is_none());
    s.active_fan_profile = Some(FanProfileId::Custom);
    assert_eq!(periodic_custom_fan_curves(&s).unwrap().cpu, curves().cpu);
    record_periodic_fan_refresh(&mut s, &Err("no telemetry".to_string()));
    assert_eq!(
        s.last_fan_error,
        Some("Periodic custom fan curve refresh failed: no telemetry".to_string())
    );
}

#[test]
fn battery_control_must_confirm_the_requested_status() {
    assert_eq!(requested_health_status(true), 1);
    assert_eq!(requested_health_status(false), 0);
    let output = BatteryControlApplyOutput {
        health_status: 0,
        set_attempt: Some("SetBatteryHealthControl".to_string()),
        matched_status_index: Some(2),
    };
    assert!(check_battery_control_output(&output, 0).is_ok());
    assert_eq!(
        check_battery_control_output(&output, 1),
        Err("BatteryControl returned healthStatus 0 after requesting 1.".to_string())
    );
    assert_eq!(
        battery_control_failure("timeout"),
        "BatteryControl service apply failed: timeout"
    );
}

#[test]
fn smart_charging_snapshot_follows_the_confirmed_status() {
    let output = BatteryControlApplyOutput {
        health_status: 1,
        set_attempt: None,
        matched_status_index: None,
    };
    assert_eq!(battery_control_attempt_detail(&output), "Matched BatteryControl readback.");
    let applied = apply_smart_charging(&ApplySmartChargeRequest { enabled: true }, &output, 99).unwrap();
    assert!(applied.enabled);
    assert_eq!(applied.health_status, 1);
    assert_eq!(applied.battery_healthy, 0);
    assert_eq!(applied.applied_at_unix, 99);
    assert_eq!(
        applied.detail,
        "Applied optimized charging through AeroForgeService direct BatteryControl WMI. Health limiter status 1 keeps the 80% ceiling active. Matched BatteryControl readback."
    );
    let off = BatteryControlApplyOutput { health_status: 0, set_attempt: None, matched_status_index: None };
    let applied = apply_smart_charging(&ApplySmartChargeRequest { enabled: false }, &off, 5).unwrap();
    assert_eq!(applied.battery_healthy, 1);
    assert_eq!(
        apply_smart_charging(&ApplySmartChargeRequest { enabled: true }, &off, 5).err().unwrap(),
        "BatteryControl returned healthStatus 0 after requesting 1."
    );
}
