use aeroforge::desktop::commands::{
    apply_custom_fan_curves, apply_fan_profile, apply_gpu_tuning, apply_power_profile,
    get_capability_snapshot, get_service_status, get_telemetry_snapshot, record_blue_light_filter,
    record_smart_charging, resolve_update_channel,
};
use aeroforge::desktop::cpu_clock::{parse_probe_output, read_effective_cpu_clock_mhz, CpuClockCache};
use aeroforge::desktop::models::{
    default_boot_art, default_custom_boot_filename, default_update_channel,
    default_update_detail, default_update_feed_kind, default_update_repo_slug,
    default_waiting_power_apply_detail, ApplyState, BootArtId, CapabilitySnapshot, ControlSnapshot,
    FanCurvePoint, FanCurveSet, FanProfileId, FeatureSupport, GpuTuningState, PersonalSettings,
    PowerProfileId, ProcessorStateSettings, ServiceStatus, ServiceWorkerStatus,
    TelemetrySnapshot, UpdateChannelId,
};
use aeroforge::desktop::service_pipe::{
    check_reply_line, fetch_cached_service_status, AppliedFanControlPayload,
    AppliedGpuTuningPayload, AppliedPowerProfilePayload, CachedSupervisorSnapshot,
};
use aeroforge::desktop::smart_charge::{
    apply_smart_charging, auth_message, auth_reply_outcome, battery_boundary_outcome,
    battery_healthy_outcome, function_query_message, function_query_outcome,
    get_battery_boundary_message, get_battery_healthy_message, requested_battery_healthy,
    set_battery_healthy_message, set_reply_outcome, timeout_error, update_care_center_settings,
    read_care_center_reply, read_care_center_reply_bytes,
    BatteryBoundary, CARE_CENTER_AUTH_DATA,
};
use aeroforge::desktop::smart_charge::{
    check_auth_reply, check_function_query_reply, check_set_reply, read_battery_boundary_reply,
    read_battery_healthy_reply,
};
use aeroforge::json::JsonField;

fn tuning(core: i16) -> GpuTuningState {
    GpuTuningState {
        core_clock_mhz: core,
        memory_clock_mhz: 0,
        voltage_offset_mv: 0,
        power_limit_percent: 100,
        temp_limit_c: 87,
    }
}

fn curves(speed: u8) -> FanCurveSet {
    FanCurveSet {
        cpu: vec![FanCurvePoint { temp_c: 50, speed_percent: speed }],
        gpu: vec![FanCurvePoint { temp_c: 60, speed_percent: speed }],
    }
}

fn controls() -> ControlSnapshot {
    ControlSnapshot {
        active_power_profile: PowerProfileId::Balanced,
        active_fan_profile: FanProfileId::Auto,
        custom_processor_state: ProcessorStateSettings { min_percent: 5, max_percent: 100 },
        gpu_tuning: tuning(0),
        oc_presets: Vec::new(),
        active_oc_slot: "stock".to_string(),
        oc_apply_state: ApplyState::Staged,
        oc_tuning_locked: false,
        fan_curves: curves(10),
        fan_sync_lock_enabled: false,
        personal_settings: PersonalSettings {
            smart_charging_enabled: true,
            usb_power_enabled: true,
            blue_light_filter_enabled: false,
            selected_boot_art: default_boot_art(),
            custom_boot_filename: default_custom_boot_filename(),
            update_channel: default_update_channel(),
            check_for_updates_on_launch: true,
        },
    }
}

fn status(connected: bool) -> ServiceStatus {
    ServiceStatus {
        connected,
        pipe_name: "p".to_string(),
        service_name: "s".to_string(),
        version: Some("1.0".to_string()),
        state_dir: None,
        supervisor_file: None,
        worker_count: 1,
        updated_at_unix: Some(5),
        workers: vec![ServiceWorkerStatus {
            name: "ipc-worker".to_string(),
            state: "running".to_string(),
            interval_seconds: 1,
            last_update_unix: 5,
            last_error: None,
        }],
        detail: "d".to_string(),
    }
}

#[test]
fn model_defaults() {
    assert_eq!(default_boot_art(), BootArtId::Ember);
    assert_eq!(default_custom_boot_filename(), "custom-boot.png");
    assert_eq!(default_update_channel(), UpdateChannelId::Stable);
    assert_eq!(default_update_channel().as_str(), "stable");
    assert_eq!(UpdateChannelId::Preview.as_str(), "preview");
    assert_eq!(default_update_repo_slug(), "noahcabral/aeroforge-nitrosense-alternative");
    assert_eq!(default_update_feed_kind(), "none");
    assert_eq!(default_update_detail(), "Updater not checked yet.");
    assert_eq!(default_waiting_power_apply_detail(), "Waiting for the first control action.");
}

#[test]
fn missing_pipe_means_service_not_running() {
    let s = fetch_cached_service_status(
        "The system cannot find the file specified. (os error 2)",
        None,
        false,
        "C:\\ProgramData\\AeroForge\\Service\\state",
        "C:\\ProgramData\\AeroForge\\Service\\state\\supervisor.json",
    );
    assert!(!s.connected);
    assert_eq!(s.pipe_name, "\\\\.\\pipe\\AeroForgeService");
    assert_eq!(s.service_name, "AeroForgeService");
    assert_eq!(s.worker_count, 0);
    assert!(s.workers.is_empty());
    assert_eq!(s.state_dir.as_deref(), Some("C:\\ProgramData\\AeroForge\\Service\\state"));
    assert_eq!(
        s.detail,
        "AeroForgeService is not installed or is not running. Install AeroForge with the setup installer, or start AeroForgeService. Raw pipe error: The system cannot find the file specified. (os error 2)"
    );
}

#[test]
fn cached_supervisor_snapshot_is_used() {
    let cached = CachedSupervisorSnapshot {
        service: "AeroForgeService".to_string(),
        worker_count: 4,
        updated_at_unix: Some(99),
        workers: status(true).workers,
    };
    let s = fetch_cached_service_status("Access is denied. (os error 5)", Some(cached), true, "D", "D\\supervisor.json");
    assert_eq!(s.worker_count, 4);
    assert_eq!(s.updated_at_unix, Some(99));
    assert_eq!(s.workers.len(), 1);
    assert_eq!(
        s.detail,
        "Service unavailable: Access is denied. (os error 5). Loaded cached supervisor snapshot from D\\supervisor.json."
    );
}

#[test]
fn service_status_from_the_pipe_is_connected() {
    let s = get_service_status(Ok(status(false)), None, false, "d", "f");
    assert!(s.connected);
    assert_eq!(s.detail, "d");
    let s = get_service_status(Err("boom".to_string()), None, false, "d", "f");
    assert!(!s.connected);
    assert_eq!(s.detail, "Service unavailable: boom");
}

#[test]
fn reply_lines_must_not_be_blank() {
    assert_eq!(check_reply_line("{\"kind\":\"ok\"}\n"), Ok(()));
    assert_eq!(
        check_reply_line(" \r\n"),
        Err("Named pipe returned an empty response".to_string())
    );
}

fn feature(available: bool) -> FeatureSupport {
    FeatureSupport { available, writable: available, requires_elevation: false }
}

fn capabilities(available: bool) -> CapabilitySnapshot {
    CapabilitySnapshot {
        power_profiles: feature(available),
        fan_profiles: feature(available),
        fan_curves: feature(available),
        smart_charging: feature(available),
        usb_power: feature(available),
        blue_light_filter: feature(available),
        gpu_tuning: feature(available),
        boot_logo: feature(available),
        notes: Vec::new(),
    }
}

fn telemetry(cpu_temp_c: u8) -> TelemetrySnapshot {
    TelemetrySnapshot {
        cpu_temp_c,
        cpu_temp_average_c: None,
        cpu_temp_lowest_core_c: None,
        cpu_temp_highest_core_c: None,
        gpu_temp_c: 0,
        system_temp_c: 0,
        cpu_usage_percent: 0,
        gpu_usage_percent: 0,
        gpu_memory_usage_percent: None,
        cpu_name: None,
        cpu_brand: None,
        gpu_name: None,
        gpu_brand: None,
        system_vendor: None,
        system_model: None,
        cpu_clock_mhz: 0,
        gpu_clock_mhz: 0,
        cpu_fan_rpm: 0,
        gpu_fan_rpm: 0,
        battery_percent: 0,
        battery_life_remaining_sec: None,
        ac_plugged_in: false,
    }
}

#[test]
fn snapshots_fall_back_in_order() {
    assert!(get_capability_snapshot(Ok(capabilities(true)), capabilities(false)).power_profiles.available);
    assert!(!get_capability_snapshot(Err("x".to_string()), capabilities(false)).power_profiles.available);
    assert_eq!(get_telemetry_snapshot(Ok(telemetry(1)), Ok(telemetry(2)), telemetry(3)).cpu_temp_c, 1);
    assert_eq!(get_telemetry_snapshot(Err("x".to_string()), Ok(telemetry(2)), telemetry(3)).cpu_temp_c, 2);
    assert_eq!(
        get_telemetry_snapshot(Err("x".to_string()), Err("y".to_string()), telemetry(3)).cpu_temp_c,
        3
    );
}

#[test]
fn update_channel_resolution() {
    let c = controls();
    assert_eq!(resolve_update_channel(Some(UpdateChannelId::Preview), &c), UpdateChannelId::Preview);
    assert_eq!(resolve_update_channel(None, &c), UpdateChannelId::Stable);
}

#[test]
fn personal_toggles_are_recorded() {
    let mut c = controls();
    record_blue_light_filter(&mut c, true);
    assert!(c.personal_settings.blue_light_filter_enabled);
    record_smart_charging(&mut c, false);
    assert!(!c.personal_settings.smart_charging_enabled);
    assert!(c.personal_settings.usb_power_enabled);
}

#[test]
fn power_profile_apply_updates_the_controls() {
    let applied = AppliedPowerProfilePayload {
        profile_id: PowerProfileId::Custom,
        processor_state: ProcessorStateSettings { min_percent: 20, max_percent: 60 },
    };
    let c = apply_power_profile(controls(), Ok(applied)).unwrap();
    assert_eq!(c.active_power_profile, PowerProfileId::Custom);
    assert_eq!(c.custom_processor_state, ProcessorStateSettings { min_percent: 20, max_percent: 60 });
    let turbo = AppliedPowerProfilePayload {
        profile_id: PowerProfileId::Turbo,
        processor_state: ProcessorStateSettings { min_percent: 50, max_percent: 60 },
    };
    let c = apply_power_profile(controls(), Ok(turbo)).unwrap();
    assert_eq!(c.active_power_profile, PowerProfileId::Turbo);
    assert_eq!(c.custom_processor_state, ProcessorStateSettings { min_percent: 5, max_percent: 100 });
    assert_eq!(apply_power_profile(controls(), Err("down".to_string())).err().unwrap(), "down");
}

#[test]
fn gpu_and_fan_applies_update_the_controls() {
    let applied = AppliedGpuTuningPayload { tuning: tuning(150), applied_at_unix: 3, detail: "ok".to_string() };
    let c = apply_gpu_tuning(controls(), Ok(applied), "slot-2".to_string()).unwrap();
    assert_eq!(c.active_power_profile, PowerProfileId::Custom);
    assert_eq!(c.gpu_tuning, tuning(150));
    assert_eq!(c.active_oc_slot, "slot-2");
    assert_eq!(c.oc_apply_state, ApplyState::Live);
    let fan = AppliedFanControlPayload {
        profile_id: FanProfileId::Max,
        curves: None,
        applied_at_unix: 4,
        detail: "ok".to_string(),
    };
    assert_eq!(apply_fan_profile(controls(), Ok(fan)).unwrap().active_fan_profile, FanProfileId::Max);
    let custom = AppliedFanControlPayload {
        profile_id: FanProfileId::Custom,
        curves: Some(curves(40)),
        applied_at_unix: 4,
        detail: "ok".to_string(),
    };
    let c = apply_custom_fan_curves(controls(), Ok(custom), curves(30)).unwrap();
    assert_eq!(c.active_fan_profile, FanProfileId::Custom);
    assert_eq!(c.fan_curves.cpu, curves(40).cpu);
    let bare = AppliedFanControlPayload {
        profile_id: FanProfileId::Custom,
        curves: None,
        applied_at_unix: 4,
        detail: "ok".to_string(),
    };
    let c = apply_custom_fan_curves(controls(), Ok(bare), curves(30)).unwrap();
    assert_eq!(c.fan_curves.gpu, curves(30).gpu);
}

#[test]
fn care_center_messages() {
    assert_eq!(requested_battery_healthy(true), 0);
    assert_eq!(requested_battery_healthy(false), 1);
    assert_eq!(
        auth_message(),
        format!("{{\"Data\":\"{}\",\"PacketType\":1,\"Version\":1}}", CARE_CENTER_AUTH_DATA)
    );
    assert_eq!(
        function_query_message(),
        "{\"Command\":\"FunctionQuery\",\"PacketType\":2,\"Session\":\"af-function-query\",\"Version\":1}"
    );
    assert_eq!(
        set_battery_healthy_message(0),
        "{\"Action\":\"Set\",\"Command\":\"BatteryHealthy\",\"PacketType\":2,\"Param1\":0,\"Session\":\"af-bh-set-0\",\"Version\":1}"
    );
    assert_eq!(
        get_battery_healthy_message(),
        "{\"Action\":\"Get\",\"Command\":\"BatteryHealthy\",\"PacketType\":2,\"Session\":\"af-bh-get\",\"Version\":1}"
    );
    assert_eq!(
        get_battery_boundary_message(),
        "{\"Action\":\"Get\",\"Command\":\"BatteryBoundary\",\"PacketType\":2,\"Session\":\"af-boundary-get\",\"Version\":1}"
    );
}

#[test]
fn care_center_replies() {
    assert_eq!(auth_reply_outcome(&JsonField::Number(Some(1)), "{}"), Ok(()));
    assert_eq!(
        auth_reply_outcome(&JsonField::Absent, "{\"x\":1}"),
        Err("Unexpected Care Center auth response: {\"x\":1}".to_string())
    );
    assert_eq!(set_reply_outcome(&JsonField::Number(Some(3)), "{}"), Ok(()));
    assert_eq!(
        set_reply_outcome(&JsonField::Number(Some(2)), "r"),
        Err("Unexpected BatteryHealthy set response: r".to_string())
    );
    assert_eq!(
        function_query_outcome(&Some(vec![None, Some("BatteryHealthy".to_string())])),
        Ok(())
    );
    assert_eq!(
        function_query_outcome(&Some(vec![Some("BatteryBoundary".to_string())])),
        Err("Acer Care Center does not report BatteryHealthy support on this machine.".to_string())
    );
    assert!(function_query_outcome(&None).is_err());
    assert_eq!(battery_healthy_outcome(&JsonField::Number(Some(1)), "r"), Ok(1));
    assert_eq!(
        battery_healthy_outcome(&JsonField::Number(Some(300)), "r"),
        Err("BatteryHealthy get response did not contain Value: r".to_string())
    );
    assert_eq!(
        battery_boundary_outcome(&JsonField::Object, &JsonField::Number(Some(80)), &JsonField::Number(Some(60)), "r"),
        Ok(BatteryBoundary { upper_bound: 80, lower_bound: 60 })
    );
    assert_eq!(
        battery_boundary_outcome(&JsonField::Array, &JsonField::Absent, &JsonField::Absent, "r"),
        Err("BatteryBoundary response missing Result object: r".to_string())
    );
    assert_eq!(
        battery_boundary_outcome(&JsonField::Object, &JsonField::Absent, &JsonField::Absent, "r"),
        Err("BatteryBoundary response missing UpperBound: r".to_string())
    );
    assert_eq!(
        battery_boundary_outcome(&JsonField::Object, &JsonField::Number(Some(80)), &JsonField::Null, "r"),
        Err("BatteryBoundary response missing LowerBound: r".to_string())
    );
}

#[test]
fn smart_charging_result_details() {
    let on = apply_smart_charging(true, 0, Some(BatteryBoundary { upper_bound: 80, lower_bound: 75 }), 10).unwrap();
    assert_eq!(on.battery_healthy, 0);
    assert_eq!(
        on.detail,
        "Applied Acer Care Center optimized charging (BatteryHealthy=0). BatteryBoundary reports 75-80 with the 80% ceiling active."
    );
    let off = apply_smart_charging(false, 1, None, 11).unwrap();
    assert_eq!(off.detail, "Applied full battery charging through Acer Care Center (BatteryHealthy=1).");
    assert_eq!(off.applied_at_unix, 11);
    assert_eq!(
        apply_smart_charging(true, 1, None, 10).err().unwrap(),
        "Care Center returned BatteryHealthy 1 after requesting 0."
    );
    assert_eq!(
        timeout_error("connect to Acer Care Center"),
        "Timed out while trying to connect to Acer Care Center."
    );
}

#[test]
fn care_center_replies_are_parsed() {
    assert_eq!(
        read_care_center_reply(r#"{"PacketType":1}"#).unwrap(),
        serde_json::from_str::<serde_json::Value>(r#"{"PacketType":1}"#).unwrap()
    );
    assert_eq!(
        read_care_center_reply_bytes(br#"{"PacketType":3}"#).unwrap(),
        serde_json::from_str::<serde_json::Value>(r#"{"PacketType":3}"#).unwrap()
    );
    assert!(read_care_center_reply("not json").is_err());
    assert!(read_care_center_reply_bytes(b"{").is_err());
}

#[test]
fn care_center_settings_update() {
    assert_eq!(
        update_care_center_settings(None, 0).unwrap(),
        serde_json::from_str::<serde_json::Value>(r#"{"BatteryHealthy":0}"#).unwrap()
    );
    assert_eq!(
        update_care_center_settings(Some(r#"{"Other":2,"BatteryHealthy":0}"#), 1).unwrap(),
        serde_json::from_str::<serde_json::Value>(r#"{"Other":2,"BatteryHealthy":1}"#).unwrap()
    );
    assert_eq!(
        update_care_center_settings(Some("[1]"), 1).err().unwrap(),
        "Care Center settings.json was not a JSON object."
    );
    assert!(update_care_center_settings(Some("{"), 1).is_err());
}

#[test]
fn effective_cpu_clock_cache() {
    assert_eq!(parse_probe_output(Some(" 2890\r\n")), Some(2890));
    assert_eq!(parse_probe_output(Some("0")), None);
    assert_eq!(parse_probe_output(None), None);
    let mut cache = CpuClockCache::new();
    assert_eq!(read_effective_cpu_clock_mhz(&mut cache, 1000, None), None);
    assert_eq!(read_effective_cpu_clock_mhz(&mut cache, 1000, Some(2890)), Some(2890));
    assert_eq!(cache.last_refresh_ms, Some(1000));
    assert_eq!(read_effective_cpu_clock_mhz(&mut cache, 1500, Some(3000)), Some(2890));
    assert_eq!(read_effective_cpu_clock_mhz(&mut cache, 1750, None), Some(2890));
    assert_eq!(read_effective_cpu_clock_mhz(&mut cache, 1800, Some(3100)), Some(3100));
}

#[test]
fn care_center_reply_documents() {
    let doc = |t: &str| serde_json::from_str::<serde_json::Value>(t).unwrap();
    assert_eq!(check_auth_reply(&doc(r#"{"PacketType":1}"#)), Ok(()));
    assert_eq!(
        check_auth_reply(&doc(r#"{"PacketType":9,"Why":"no"}"#)),
        Err(r#"Unexpected Care Center auth response: {"PacketType":9,"Why":"no"}"#.to_string())
    );
    assert_eq!(check_function_query_reply(&doc(r#"{"Data":["Fan","BatteryHealthy"]}"#)), Ok(()));
    assert!(check_function_query_reply(&doc(r#"{"Data":"BatteryHealthy"}"#)).is_err());
    assert_eq!(check_set_reply(&doc(r#"{"PacketType":3}"#)), Ok(()));
    assert_eq!(read_battery_healthy_reply(&doc(r#"{"Result":{"Value":0}}"#)), Ok(0));
    assert_eq!(
        read_battery_healthy_reply(&doc(r#"{"Result":7}"#)),
        Err(r#"BatteryHealthy get response did not contain Value: {"Result":7}"#.to_string())
    );
    assert_eq!(
        read_battery_boundary_reply(&doc(r#"{"Result":{"LowerBound":75,"UpperBound":80}}"#)),
        Ok(BatteryBoundary { upper_bound: 80, lower_bound: 75 })
    );
    assert_eq!(
        read_battery_boundary_reply(&doc(r#"{"Result":[1]}"#)),
        Err(r#"BatteryBoundary response missing Result object: {"Result":[1]}"#.to_string())
    );
}
