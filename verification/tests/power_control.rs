use aeroforge::service::control::boot_logo::{
    apply_boot_logo, boot_logo_staged_detail, validate_boot_logo, validate_boot_logo_file,
    validate_boot_logo_size,
};
use aeroforge::service::control::power::GamingCallResult;
use aeroforge::service::control::power_apply::{
    next_power_action, start_power_apply, PowerAction, PowerApply, PowerEvent,
};
use aeroforge::service::control::models::{
    ApplyBootLogoRequest, ApplyPowerProfileRequest, CustomPowerBaseId, PowerProfileId,
    ProcessorStateReadback, ProcessorStateSettings,
};
use aeroforge::service::control::power::{
    custom_base_profile_details, describe_profile_readback, describe_supported_profiles,
    finish_power_profile, format_whisper_detail, legacy_gaming_profile_output_accepted,
    misc_setting_output_accepted, misc_value_byte, plan_operating_mode, platform_profile_value,
    processor_state_drift, profile_label, profile_readback_matches, sanitize_processor_state,
    supported_profile_mask_contains, supported_profile_names, NvApiWhisperResult,
};
use aeroforge::service::control::powercfg::{
    command_failure_detail, powercfg_arguments, powercfg_failure, processor_state_calls,
    query_scheme_value, PowercfgCall,
};

fn state(min_percent: u8, max_percent: u8) -> ProcessorStateSettings {
    ProcessorStateSettings { min_percent, max_percent }
}

#[test]
fn processor_state_is_clamped_to_5_through_100() {
    assert_eq!(sanitize_processor_state(state(0, 250)), Ok(state(5, 100)));
    assert_eq!(sanitize_processor_state(state(40, 80)), Ok(state(40, 80)));
}

#[test]
fn processor_minimum_above_maximum_is_refused() {
    assert_eq!(
        sanitize_processor_state(state(90, 20)),
        Err("Processor minimum 90 cannot exceed maximum 20.".to_string())
    );
    assert_eq!(
        sanitize_processor_state(state(200, 3)),
        Err("Processor minimum 100 cannot exceed maximum 5.".to_string())
    );
}

#[test]
fn sanitized_processor_state_is_a_fixed_point() {
    let once = sanitize_processor_state(state(1, 99)).unwrap();
    assert_eq!(sanitize_processor_state(once), Ok(once));
}

#[test]
fn drift_compares_both_readbacks() {
    let requested = state(10, 90);
    assert!(!processor_state_drift(&ProcessorStateReadback { ac: requested, dc: requested }, &requested));
    assert!(processor_state_drift(
        &ProcessorStateReadback { ac: requested, dc: state(10, 80) },
        &requested
    ));
}

#[test]
fn profile_labels_and_custom_bases() {
    assert_eq!(profile_label(&PowerProfileId::BatteryGuard), "quiet");
    assert_eq!(profile_label(&PowerProfileId::Turbo), "turbo");
    assert_eq!(custom_base_profile_details(&CustomPowerBaseId::Balanced), (1, "balanced"));
    assert_eq!(custom_base_profile_details(&CustomPowerBaseId::Performance), (4, "performance"));
    assert_eq!(custom_base_profile_details(&CustomPowerBaseId::Turbo), (5, "turbo"));
}

#[test]
fn firmware_outputs_0_or_1_are_accepted() {
    assert!(misc_setting_output_accepted(None));
    assert!(misc_setting_output_accepted(Some(1)));
    assert!(!misc_setting_output_accepted(Some(2)));
    assert!(legacy_gaming_profile_output_accepted(Some(0)));
    assert_eq!(misc_value_byte(Some(0x1234)), Some(0x34));
    assert_eq!(platform_profile_value(4), 4);
}

#[test]
fn supported_profiles_from_the_bitmask() {
    assert_eq!(supported_profile_names(0b0011_0010), vec!["balanced", "performance", "turbo"]);
    assert_eq!(supported_profile_names(0b1000_0100), vec!["none"]);
    assert!(supported_profile_mask_contains(0b0010_0000, 5));
    assert!(!supported_profile_mask_contains(0b0010_0000, 4));
    assert!(!supported_profile_mask_contains(0xFF, 9));
    assert_eq!(
        describe_supported_profiles(&Ok(Some(0x33)), 5),
        "SupportedProfiles raw bitmask 0x33 advertises [quiet, balanced, performance, turbo]; target 0x05 is advertised. AeroForge still records write/readback behavior because some Windows providers under-report this bitmask."
    );
    assert_eq!(
        describe_supported_profiles(&Ok(None), 5),
        "SupportedProfiles probe returned no gmOutput byte."
    );
    assert_eq!(
        describe_supported_profiles(&Err("WMI down".to_string()), 5),
        "SupportedProfiles probe unavailable: WMI down."
    );
}

#[test]
fn platform_profile_readbacks() {
    assert!(profile_readback_matches(&Ok(Some(5)), 5));
    assert!(!profile_readback_matches(&Ok(Some(4)), 5));
    assert!(!profile_readback_matches(&Ok(None), 5));
    assert_eq!(describe_profile_readback("After", &Ok(Some(10))), "After read as 0x0A.");
    assert_eq!(describe_profile_readback("After", &Ok(None)), "After returned no gmOutput byte.");
    assert_eq!(
        describe_profile_readback("After", &Err("boom".to_string())),
        "After was unavailable: boom."
    );
}

#[test]
fn whisper_detail_formats_ids_and_statuses() {
    let w = NvApiWhisperResult {
        init_candidate_id: 0xAB12,
        init_status: -3,
        hidden_id: 0x1234ABCD,
        status: 0,
        enabled: true,
    };
    assert_eq!(
        format_whisper_detail("Whisper on", &w),
        "Whisper on with NVAPI init 0x0000AB12 status -3 and hidden setter 0x1234ABCD status 0 (enabled=true)."
    );
}

#[test]
fn operating_modes_of_the_profiles() {
    let quiet = plan_operating_mode(&PowerProfileId::BatteryGuard, None);
    assert_eq!(quiet.platform_label, "quiet");
    assert_eq!(quiet.input, 0);
    assert!(quiet.whisper_quiet);
    let custom = plan_operating_mode(&PowerProfileId::Custom, None);
    assert_eq!(custom.input, 1);
    assert_eq!(custom.custom_base_label, Some("balanced"));
    assert!(custom.balanced_base_for_custom);
    assert!(!custom.whisper_quiet);
    let custom_performance =
        plan_operating_mode(&PowerProfileId::Custom, Some(&CustomPowerBaseId::Performance));
    assert_eq!(custom_performance.input, 4);
    assert_eq!(custom_performance.custom_base_label, Some("performance"));
    assert_eq!(plan_operating_mode(&PowerProfileId::Turbo, None).input, 5);
}

#[test]
fn finished_power_profile_reports_drift() {
    let request = ApplyPowerProfileRequest {
        profile_id: PowerProfileId::Custom,
        processor_state: state(20, 80),
        custom_base_profile: None,
    };
    let readback = ProcessorStateReadback { ac: state(20, 80), dc: state(20, 70) };
    let applied = finish_power_profile(&request, "Mode set.", readback, 1700).unwrap();
    assert!(applied.drift_detected);
    assert_eq!(applied.applied_at_unix, 1700);
    assert_eq!(
        applied.detail,
        "Mode set. Windows processor policy requested min 20 / max 80 on the active scheme. Read back AC 20 / 80 and DC 20 / 70. Windows reported a different processor policy than the requested values."
    );
}

#[test]
fn finished_power_profile_records_the_sanitized_state() {
    let request = ApplyPowerProfileRequest {
        profile_id: PowerProfileId::Balanced,
        processor_state: state(1, 120),
        custom_base_profile: None,
    };
    let readback = ProcessorStateReadback { ac: state(5, 100), dc: state(5, 100) };
    let applied = finish_power_profile(&request, "Mode set.", readback, 3).unwrap();
    assert_eq!(applied.processor_state, state(5, 100));
    assert!(!applied.drift_detected);
    let refused = ApplyPowerProfileRequest {
        profile_id: PowerProfileId::Balanced,
        processor_state: state(90, 50),
        custom_base_profile: None,
    };
    assert_eq!(
        finish_power_profile(&refused, "Mode set.", readback, 3).err().unwrap(),
        "Processor minimum 90 cannot exceed maximum 50."
    );
}

const READBACK: &str = "Power Setting GUID: 893dee8e (Minimum processor state)\r\n    Possible Settings units: %\r\n    Current AC Power Setting Index: 0x00000064\r\n    Current DC Power Setting Index: 0x00000005\r\n";

#[test]
fn powercfg_readback_reads_the_hex_index() {
    assert_eq!(query_scheme_value(READBACK, "PROCTHROTTLEMIN", "Current AC Power Setting Index"), Ok(100));
    assert_eq!(query_scheme_value(READBACK, "PROCTHROTTLEMIN", "Current DC Power Setting Index"), Ok(5));
}

#[test]
fn powercfg_readback_errors() {
    assert_eq!(
        query_scheme_value(READBACK, "PROCTHROTTLEMAX", "Missing Label"),
        Err("Could not find Missing Label in powercfg readback for PROCTHROTTLEMAX".to_string())
    );
    assert_eq!(
        query_scheme_value("Current AC Power Setting Index: 0x000001FF", "S", "Current AC"),
        Err("Readback value 511 for S exceeds u8 range".to_string())
    );
    assert_eq!(
        query_scheme_value("Current AC Power Setting Index: 0x123456789", "S", "Current AC"),
        Err("number too large to fit in target type".to_string())
    );
}

#[test]
fn command_failures_prefer_stderr_then_stdout() {
    assert_eq!(command_failure_detail("powercfg", "  bad  ", "out", "exit code: 1"), "bad");
    assert_eq!(command_failure_detail("powercfg", " ", " out\n", "exit code: 1"), "out");
    assert_eq!(
        command_failure_detail("powercfg", "", "", "exit code: 1"),
        "powercfg exited with status exit code: 1"
    );
    assert_eq!(powercfg_failure("/setactive x", "denied"), "powercfg /setactive x failed: denied");
}

#[test]
fn boot_logo_checks() {
    assert_eq!(
        validate_boot_logo_file("C:\\a.png", false, false, "png"),
        Err("Boot-logo image does not exist: C:\\a.png".to_string())
    );
    assert_eq!(
        validate_boot_logo_file("C:\\dir", true, false, ""),
        Err("Boot-logo image path is not a file: C:\\dir".to_string())
    );
    assert_eq!(
        validate_boot_logo_file("C:\\a.png", true, true, "png"),
        Err("Boot-logo image must be JPG, JPEG, or GIF before firmware apply.".to_string())
    );
    assert_eq!(validate_boot_logo_file("C:\\a.JPG", true, true, "JPG"), Ok(()));
    assert_eq!(validate_boot_logo_size(36_700_160), Ok(()));
    assert_eq!(
        validate_boot_logo_size(36_700_161),
        Err("Boot-logo image is too large: 36700161 bytes, max 36700160 bytes.".to_string())
    );
}

#[test]
fn boot_logo_apply_never_succeeds() {
    let request = ApplyBootLogoRequest {
        image_path: "C:\\img.gif".to_string(),
        original_filename: Some("img.gif".to_string()),
    };
    let refused = apply_boot_logo(&request, Ok(()));
    assert_eq!(
        refused.err().unwrap(),
        "Boot-logo firmware apply is disabled because AeroForge does not yet have a verified direct hardware path. The previous Acer service route has been removed."
    );
    let failed = apply_boot_logo(&request, Err("bad image".to_string()));
    assert_eq!(failed.err().unwrap(), "bad image");
    assert_eq!(
        boot_logo_staged_detail(&request),
        "Boot-logo firmware apply is disabled because AeroForge does not yet have a verified direct hardware path. The previous Acer service route has been removed. Staged image: C:\\img.gif (img.gif)."
    );
}

#[test]
fn readback_of_a_printed_index_roundtrips() {
    for n in [0u8, 5, 100, 255] {
        let line = format!("    Current DC Power Setting Index: 0x{:08x}", n);
        assert_eq!(query_scheme_value(&line, "PROCTHROTTLEMAX", "Current DC Power Setting Index"), Ok(n));
    }
}

#[test]
fn processor_state_is_written_on_ac_then_dc_then_activated() {
    let calls = processor_state_calls(state(20, 80));
    assert_eq!(calls.len(), 5);
    assert_eq!(
        powercfg_arguments(calls[0]),
        vec!["/setacvalueindex", "SCHEME_CURRENT", "SUB_PROCESSOR", "PROCTHROTTLEMIN", "20"]
    );
    assert_eq!(
        powercfg_arguments(calls[1]),
        vec!["/setacvalueindex", "SCHEME_CURRENT", "SUB_PROCESSOR", "PROCTHROTTLEMAX", "80"]
    );
    assert_eq!(
        powercfg_arguments(calls[2]),
        vec!["/setdcvalueindex", "SCHEME_CURRENT", "SUB_PROCESSOR", "PROCTHROTTLEMIN", "20"]
    );
    assert_eq!(
        powercfg_arguments(calls[3]),
        vec!["/setdcvalueindex", "SCHEME_CURRENT", "SUB_PROCESSOR", "PROCTHROTTLEMAX", "80"]
    );
    assert_eq!(powercfg_arguments(calls[4]), vec!["/setactive", "SCHEME_CURRENT"]);
    assert_eq!(calls[4], PowercfgCall::SetActive);
}

#[test]
fn boot_logo_checks_run_in_order() {
    assert_eq!(
        validate_boot_logo("C:\\a.gif", false, false, "gif", 0).err().unwrap(),
        "Boot-logo image does not exist: C:\\a.gif"
    );
    assert_eq!(
        validate_boot_logo("C:\\a.png", true, true, "png", 99_000_000).err().unwrap(),
        "Boot-logo image must be JPG, JPEG, or GIF before firmware apply."
    );
    assert_eq!(
        validate_boot_logo("C:\\a.gif", true, true, "gif", 36_700_161).err().unwrap(),
        "Boot-logo image is too large: 36700161 bytes, max 36700160 bytes."
    );
    assert_eq!(validate_boot_logo("C:\\a.gif", true, true, "GIF", 36_700_160), Ok(()));
}

fn step(apply: PowerApply, event: PowerEvent) -> (PowerApply, PowerAction) {
    next_power_action(apply, event)
}

#[test]
fn refused_power_state_makes_no_call() {
    let (apply, action) = start_power_apply(ApplyPowerProfileRequest {
        profile_id: PowerProfileId::Balanced,
        processor_state: state(90, 50),
        custom_base_profile: None,
    });
    assert!(matches!(apply.stage, aeroforge::service::control::power_apply::PowerStage::Done));
    match action {
        PowerAction::Finish(Err(e)) => assert_eq!(e, "Processor minimum 90 cannot exceed maximum 50."),
        other => panic!("unexpected {other:?}"),
    }
}

#[test]
fn power_apply_runs_the_calls_in_order_and_stops_at_a_failed_powercfg_call() {
    let (apply, action) = start_power_apply(ApplyPowerProfileRequest {
        profile_id: PowerProfileId::Balanced,
        processor_state: state(1, 120),
        custom_base_profile: None,
    });
    assert!(matches!(action, PowerAction::ReadSupportedProfiles));
    let (apply, action) = step(apply, PowerEvent::ProfileByte(Ok(Some(0x33))));
    assert!(matches!(action, PowerAction::ReadPlatformProfile));
    let (apply, action) = step(apply, PowerEvent::ProfileByte(Ok(Some(0))));
    assert!(matches!(action, PowerAction::SetPlatformProfile(1)));
    let (apply, action) =
        step(apply, PowerEvent::GamingCall(Ok(GamingCallResult { input: 1, output: Some(0) })));
    assert!(matches!(action, PowerAction::ReadPlatformProfile));
    let (apply, action) = step(apply, PowerEvent::ProfileByte(Ok(Some(1))));
    assert!(matches!(action, PowerAction::SetWhisper(false)));
    let (mut apply, mut action) = step(apply, PowerEvent::Whisper(Err("no NVAPI".to_string())));
    let mut calls = Vec::new();
    while let PowerAction::RunPowercfg(call) = action {
        calls.push(call);
        (apply, action) = step(apply, PowerEvent::Powercfg(Ok(())));
    }
    assert_eq!(calls, processor_state_calls(state(5, 100)));
    assert!(matches!(action, PowerAction::ReadProcessorState));
    let readback = ProcessorStateReadback { ac: state(5, 100), dc: state(5, 100) };
    let (_, action) = step(apply, PowerEvent::Readback(Ok(readback), 77));
    match action {
        PowerAction::Finish(Ok(a)) => {
            assert_eq!(a.processor_state, state(5, 100));
            assert_eq!(a.applied_at_unix, 77);
            assert!(!a.drift_detected);
            assert!(a.detail.starts_with("Confirmed AcerGamingFunction balanced platform profile"));
            assert!(a.detail.contains("NVIDIA Whisper clear was unavailable: no NVAPI."));
        }
        other => panic!("unexpected {other:?}"),
    }

    let (apply, _) = start_power_apply(ApplyPowerProfileRequest {
        profile_id: PowerProfileId::Turbo,
        processor_state: state(20, 80),
        custom_base_profile: None,
    });
    let (apply, _) = step(apply, PowerEvent::ProfileByte(Ok(None)));
    let (apply, _) = step(apply, PowerEvent::ProfileByte(Ok(None)));
    let (apply, _) = step(apply, PowerEvent::GamingCall(Err("WMI down".to_string())));
    let (apply, action) = step(apply, PowerEvent::ProfileByte(Err("WMI down".to_string())));
    assert!(matches!(action, PowerAction::SetGamingProfile(5)));
    let (apply, action) = step(apply, PowerEvent::GamingCall(Err("WMI down".to_string())));
    assert!(matches!(action, PowerAction::SetWhisper(false)));
    let (apply, action) = step(apply, PowerEvent::Whisper(Err("no NVAPI".to_string())));
    assert!(matches!(action, PowerAction::RunPowercfg(_)));
    let (apply, _) = step(apply, PowerEvent::Powercfg(Ok(())));
    let (_, action) = step(apply, PowerEvent::Powercfg(Err("access denied".to_string())));
    match action {
        PowerAction::Finish(Err(e)) => assert_eq!(e, "access denied"),
        other => panic!("unexpected {other:?}"),
    }
}
