use aeroforge::service::control::models::{
    AppliedBootLogoSnapshot, ControlSnapshot, PowerProfileId,
};
use aeroforge::service::control::power::{
    apply_acer_platform_profile_or_fallback, legacy_gaming_profile_detail, operating_mode_detail,
    plan_operating_mode, platform_profile_needs_legacy, GamingCallResult, NvApiWhisperResult,
};
use aeroforge::service::control::state::{
    persist_boot_logo_apply_error, persist_boot_logo_apply_success,
};

#[test]
fn confirmed_misc_setting_write() {
    let misc = Ok(GamingCallResult { input: 0x0000_050B, output: Some(0) });
    let after = Ok(Some(5));
    assert!(!platform_profile_needs_legacy(&misc, &after, 5));
    let detail = apply_acer_platform_profile_or_fallback(
        "turbo",
        5,
        false,
        None,
        &Ok(Some(0x20)),
        &Ok(Some(1)),
        &misc,
        &after,
        "unused",
    );
    assert_eq!(
        detail,
        "Confirmed AcerGamingFunction turbo platform profile with SetGamingMiscSetting(0x0B, 0x05) gmOutput Some(0). SupportedProfiles raw bitmask 0x20 advertises [turbo]; target 0x05 is advertised. AeroForge still records write/readback behavior because some Windows providers under-report this bitmask. Current platform profile before apply read as 0x01. Current platform profile after misc-setting write read as 0x05."
    );
}

#[test]
fn rejected_misc_setting_write_falls_back() {
    let misc = Ok(GamingCallResult { input: 0x0000_010B, output: Some(3) });
    let after = Ok(None);
    assert!(platform_profile_needs_legacy(&misc, &after, 1));
    let detail = apply_acer_platform_profile_or_fallback(
        "custom",
        1,
        true,
        Some("balanced"),
        &Err("probe failed".to_string()),
        &Err("read failed".to_string()),
        &misc,
        &after,
        "LEGACY.",
    );
    assert_eq!(
        detail,
        "AcerGamingFunction rejected platform profile SetGamingMiscSetting(0x0B, 0x01) with gmOutput Some(3). SupportedProfiles probe unavailable: probe failed. Current platform profile before apply was unavailable: read failed. Current platform profile after misc-setting write returned no gmOutput byte. LEGACY."
    );
}

#[test]
fn legacy_path_details() {
    let write = Ok(GamingCallResult { input: 1, output: None });
    assert_eq!(
        legacy_gaming_profile_detail("custom", 1, true, Some("balanced"), &write, &Ok(Some(1))),
        "Confirmed AcerGamingFunction balanced base mode with SetGamingProfile(1) and gmOutput None before layering the custom processor policy. Current platform profile after legacy profile write read as 0x01."
    );
    let rejected = Ok(GamingCallResult { input: 5, output: Some(7) });
    assert_eq!(
        legacy_gaming_profile_detail("turbo", 5, false, None, &rejected, &Ok(Some(1))),
        "AcerGamingFunction rejected turbo mode with SetGamingProfile(5) and gmOutput Some(7). Current platform profile after legacy profile write read as 0x01. Continuing with Windows processor policy only."
    );
    assert_eq!(
        legacy_gaming_profile_detail("turbo", 5, false, None, &Err("no WMI".to_string()), &Ok(None)),
        "AcerGamingFunction turbo mode write was unavailable: no WMI. Continuing with Windows processor policy only."
    );
}

#[test]
fn operating_mode_details() {
    let quiet = plan_operating_mode(&PowerProfileId::BatteryGuard, None);
    assert_eq!(
        operating_mode_detail(&quiet, "FW.", &Err("nvapi missing".to_string())),
        "FW. NVIDIA Whisper quiet state was unavailable: nvapi missing. Continuing with Windows processor policy."
    );
    let turbo = plan_operating_mode(&PowerProfileId::Turbo, None);
    let w = NvApiWhisperResult { init_candidate_id: 1, init_status: 0, hidden_id: 2, status: 0, enabled: false };
    assert_eq!(
        operating_mode_detail(&turbo, "FW.", &Ok(w)),
        "FW. Cleared NVIDIA Whisper state with NVAPI init 0x00000001 status 0 and hidden setter 0x00000002 status 0 (enabled=false)."
    );
    assert_eq!(
        operating_mode_detail(&turbo, "FW.", &Err("x".to_string())),
        "FW. NVIDIA Whisper clear was unavailable: x."
    );
}

#[test]
fn boot_logo_records() {
    let mut s = ControlSnapshot::default_snapshot("control-worker");
    persist_boot_logo_apply_success(
        &mut s,
        &AppliedBootLogoSnapshot {
            image_path: "C:\\a.gif".to_string(),
            original_filename: None,
            readback: None,
            applied_at_unix: 12,
            detail: "ok".to_string(),
        },
    );
    assert!(s.boot_logo_apply_supported);
    assert_eq!(s.last_boot_logo_applied_at_unix, Some(12));
    persist_boot_logo_apply_error(&mut s, "refused");
    assert_eq!(s.last_boot_logo_error, Some("refused".to_string()));
    assert_eq!(s.last_boot_logo_apply_detail, "The most recent boot-logo apply attempt failed.");
    assert_eq!(s.last_boot_logo_applied_at_unix, Some(12));
}
