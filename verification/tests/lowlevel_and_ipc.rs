use aeroforge::service::ipc::{
    build_service_status, critical_worker_problem, process_request, read_snapshot, snapshot_name,
    PipeRequestKind, PipeResponse, RequestOutcome, WorkerStatusSnapshot,
};
use aeroforge::service::lowlevel::{
    create_failure_means_existing, ctl_code, decode_digital_thermal_temp, decode_tj_max,
    driver_needs_write, highest_temp, ioctl_ols_read_msr, lowest_temp, rapl_counter_delta,
    record_load_outcome, should_try_load, start_failure_is_fatal, summarize_sample,
    to_wide_string, unavailable_detail, LoadTracker,
};

#[test]
fn msr_read_control_code() {
    assert_eq!(ioctl_ols_read_msr(), 0x9C40_2084);
    assert_eq!(ctl_code(0x22, 1, 0, 0), 0x0022_0004);
}

#[test]
fn tj_max_decoding() {
    assert_eq!(decode_tj_max(0x0064_0000), Some(100));
    assert_eq!(decode_tj_max(0xFFFF_FFFF_0000_FFFF), None);
    assert_eq!(decode_tj_max(0x1_0064_1234), Some(100));
}

#[test]
fn thermal_status_decoding() {
    assert_eq!(decode_digital_thermal_temp(Some(100), Some(0x8014_0000)), Some(80));
    assert_eq!(decode_digital_thermal_temp(Some(100), Some(0x0014_0000)), None);
    assert_eq!(decode_digital_thermal_temp(Some(10), Some(0x807F_0000)), Some(0));
    assert_eq!(decode_digital_thermal_temp(None, Some(0x8014_0000)), None);
    assert_eq!(decode_digital_thermal_temp(Some(100), None), None);
}

#[test]
fn wide_strings_are_nul_terminated_utf16() {
    assert_eq!(to_wide_string("AB"), vec![0x41, 0x42, 0]);
    assert_eq!(to_wide_string("é😀"), vec![0xE9, 0xD83D, 0xDE00, 0]);
    assert_eq!(to_wide_string(""), vec![0]);
}

#[test]
fn driver_setup_decisions() {
    assert!(should_try_load(false, None));
    assert!(!should_try_load(false, Some(14)));
    assert!(should_try_load(false, Some(15)));
    assert!(!should_try_load(true, None));
    assert!(driver_needs_write(None, 10));
    assert!(driver_needs_write(Some(9), 10));
    assert!(!driver_needs_write(Some(10), 10));
    assert!(create_failure_means_existing(Some(1073)));
    assert!(!create_failure_means_existing(Some(5)));
    assert!(!start_failure_is_fatal(Some(1056)));
    assert!(start_failure_is_fatal(Some(5)));
    assert!(start_failure_is_fatal(None));
}

#[test]
fn load_failures_are_logged_once() {
    let mut tracker = LoadTracker::new();
    let first = record_load_outcome(&mut tracker, Err("Access is denied.")).unwrap();
    assert_eq!(first.level, "ERROR");
    assert_eq!(first.message, "Access is denied.");
    assert!(record_load_outcome(&mut tracker, Err("Access is denied.")).is_none());
    assert_eq!(unavailable_detail(&tracker.last_load_error), "Access is denied.");
    let other = record_load_outcome(&mut tracker, Err("Driver blocked.")).unwrap();
    assert_eq!(other.message, "Driver blocked.");
    let ok = record_load_outcome(&mut tracker, Ok(())).unwrap();
    assert_eq!(ok.level, "INFO");
    assert_eq!(ok.message, "Recovered after prior WinRing0 initialization failure.");
    assert!(tracker.loaded);
    assert_eq!(tracker.last_load_error, None);
    let mut fresh = LoadTracker::new();
    assert_eq!(unavailable_detail(&fresh.last_load_error), "WinRing0 driver is not initialized.");
    assert_eq!(
        record_load_outcome(&mut fresh, Ok(())).unwrap().message,
        "WinRing0 initialization succeeded."
    );
}

#[test]
fn rapl_counter_wraps() {
    assert_eq!(rapl_counter_delta(10, 30), 20);
    assert_eq!(rapl_counter_delta(0xFFFF_FFF0, 0x10), 0x20);
}

#[test]
fn core_temperature_extremes() {
    assert_eq!(lowest_temp(&[70, 65, 80]), Some(65));
    assert_eq!(highest_temp(&[70, 65, 80]), Some(80));
    assert_eq!(lowest_temp(&[]), None);
    assert_eq!(highest_temp(&[]), None);
}

#[test]
fn one_sample_is_summarized() {
    let r = summarize_sample(
        Some(0x0064_0000),
        Some(0x8019_0000),
        &[Some(0x8014_0000), None, Some(0x0014_0000), Some(0x801E_0000)],
        Some(75),
        "C:\\ProgramData\\AeroForge\\drivers\\WinRing0x64.sys",
        16,
    );
    assert_eq!(r.tj_max_c, Some(100));
    assert_eq!(r.package_temp_c, Some(75));
    assert_eq!(r.core_temps_c, vec![80, 70]);
    assert_eq!(r.sampled_processor_count, 2);
    assert_eq!(r.lowest_core_temp_c, Some(70));
    assert_eq!(r.highest_core_temp_c, Some(80));
    assert!(r.available);
    assert_eq!(
        r.detail,
        "WinRing0 kernel driver active from C:\\ProgramData\\AeroForge\\drivers\\WinRing0x64.sys. Sampled 2 physical cores across 16 logical processors."
    );
    let none = summarize_sample(None, Some(0x8019_0000), &[Some(0x8014_0000)], None, "x", 1);
    assert_eq!(none.tj_max_c, None);
    assert_eq!(none.package_temp_c, None);
    assert!(none.core_temps_c.is_empty());
    assert!(!none.available);
}

fn worker(name: &str, state: &str, last_error: Option<&str>) -> WorkerStatusSnapshot {
    WorkerStatusSnapshot {
        name: name.to_string(),
        state: state.to_string(),
        interval_seconds: 5,
        last_update_unix: 1,
        last_error: last_error.map(|e| e.to_string()),
    }
}

#[test]
fn healthy_workers_mean_connected() {
    let workers = vec![
        worker("control-worker", " Running ", None),
        worker("ipc-worker", "STARTING", None),
        worker("telemetry-worker", "failed", Some("x")),
    ];
    assert_eq!(critical_worker_problem(&workers), None);
    let status = build_service_status(&workers);
    assert!(status.connected);
    assert_eq!(status.detail, "Connected to the AeroForge service named-pipe host.");
}

#[test]
fn worker_problems_are_reported_in_order() {
    let missing = vec![worker("ipc-worker", "running", None)];
    assert_eq!(
        critical_worker_problem(&missing),
        Some("control-worker is missing from the supervisor snapshot".to_string())
    );
    let failed = vec![
        worker("control-worker", "running", None),
        worker("ipc-worker", "Failed", Some("pipe busy")),
    ];
    assert_eq!(
        critical_worker_problem(&failed),
        Some("ipc-worker is Failed (pipe busy)".to_string())
    );
    let status = build_service_status(&failed);
    assert!(!status.connected);
    assert_eq!(
        status.detail,
        "Connected to the AeroForge service named-pipe host, but service controls are degraded: ipc-worker is Failed (pipe busy)."
    );
    let stopped = vec![worker("control-worker", "stopped", None), worker("control-worker", "running", None)];
    assert_eq!(critical_worker_problem(&stopped), Some("control-worker is stopped".to_string()));
}

#[test]
fn snapshots_skip_byte_order_marks() {
    assert_eq!(
        read_snapshot("\u{feff}\u{feff}{\"a\": 1}").unwrap(),
        serde_json::from_str::<serde_json::Value>("{\"a\": 1}").unwrap()
    );
    assert!(read_snapshot("{\"a\": 1}").is_ok());
    assert!(read_snapshot("x\u{feff}").is_err());
    assert!(read_snapshot("").is_err());
}

#[test]
fn request_routing_and_answers() {
    assert_eq!(snapshot_name(PipeRequestKind::GetCapabilities), Some("capabilities"));
    assert_eq!(snapshot_name(PipeRequestKind::GetControlSnapshot), Some("control"));
    assert_eq!(snapshot_name(PipeRequestKind::GetTelemetrySnapshot), Some("telemetry"));
    assert_eq!(snapshot_name(PipeRequestKind::GetServiceStatus), None);
    let doc = serde_json::from_str::<serde_json::Value>("{\"ok\": true}").unwrap();
    match process_request(PipeRequestKind::GetControlSnapshot, RequestOutcome::Done(doc.clone())) {
        PipeResponse::Success { payload } => assert_eq!(payload, doc),
        _ => panic!("expected a payload"),
    }
    match process_request(PipeRequestKind::ApplyFanProfile, RequestOutcome::Failed("no WMI".to_string())) {
        PipeResponse::Failure { message } => assert_eq!(message, "no WMI"),
        _ => panic!("expected a failure"),
    }
    match process_request(
        PipeRequestKind::ApplyGpuTuning,
        RequestOutcome::Unserializable("key must be a string".to_string()),
    ) {
        PipeResponse::SuccessDetail { detail } => assert_eq!(
            detail,
            "Applied GPU tuning but failed to serialize response: key must be a string"
        ),
        _ => panic!("expected a detail"),
    }
}
