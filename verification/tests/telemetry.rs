use aeroforge::service::telemetry::cache::{
    read_cached, record_probe, refresh_due, CachedReading, CPU_CLOCK_REFRESH_MS,
    FIRMWARE_SENSOR_REFRESH_MS,
};
use aeroforge::service::telemetry::cpu::{
    build_cpu_thermal_snapshot, cpu_clock_or_fallback, filetime_to_u64, parse_cpu_clock_output,
    read_cpu_usage_percent, CpuTimes, CpuUsageSampler, LowLevelThermals,
};
use aeroforge::service::telemetry::firmware::{
    firmware_snapshot_from_fields, query_firmware_sensor_snapshot, FirmwareSensorSnapshot,
};
use aeroforge::service::telemetry::gpu::{
    check_nvml_device_count, gpu_power_state_is_d0, gpu_should_poll, is_nvidia_hardware_id,
    log_d0_transition, nvml_call, nvml_core_readings, parse_nvidia_smi_output, read_gpu_snapshot,
    GpuPollState,
};
use aeroforge::service::telemetry::snapshot::{
    compose_telemetry_snapshot, system_temp_candidate, AcerHidReadings, HardwareIdentity,
    PowerReadings,
};
use aeroforge::json::JsonField;

fn wide(s: &str) -> Vec<u16> {
    s.encode_utf16().collect()
}

#[test]
fn filetime_halves_combine() {
    assert_eq!(filetime_to_u64(1, 2), 0x1_0000_0002);
}

#[test]
fn cpu_usage_from_counter_deltas() {
    let mut sampler = CpuUsageSampler::new();
    let first = CpuTimes { idle: 100, kernel: 300, user: 100 };
    assert_eq!(read_cpu_usage_percent(&mut sampler, first), 0);
    let second = CpuTimes { idle: 175, kernel: 500, user: 200 };
    assert_eq!(read_cpu_usage_percent(&mut sampler, second), 75);
    let third = CpuTimes { idle: 176, kernel: 501, user: 202 };
    assert_eq!(read_cpu_usage_percent(&mut sampler, third), 67);
    assert_eq!(read_cpu_usage_percent(&mut sampler, third), 0);
    assert_eq!(sampler.last, Some(third));
}

#[test]
fn cpu_usage_rounds_halves_up() {
    let mut sampler = CpuUsageSampler::new();
    read_cpu_usage_percent(&mut sampler, CpuTimes { idle: 0, kernel: 0, user: 0 });
    assert_eq!(read_cpu_usage_percent(&mut sampler, CpuTimes { idle: 1, kernel: 100, user: 100 }), 100);
    let mut sampler = CpuUsageSampler::new();
    read_cpu_usage_percent(&mut sampler, CpuTimes { idle: 0, kernel: 0, user: 0 });
    assert_eq!(read_cpu_usage_percent(&mut sampler, CpuTimes { idle: 199, kernel: 200, user: 0 }), 1);
}

#[test]
fn cpu_clock_parsing_and_fallback() {
    assert_eq!(parse_cpu_clock_output(" 3187\r\n"), 3187);
    assert_eq!(parse_cpu_clock_output("n/a"), 0);
    assert_eq!(parse_cpu_clock_output("70000"), 0);
    assert_eq!(cpu_clock_or_fallback(0), 2646);
    assert_eq!(cpu_clock_or_fallback(3000), 3000);
}

#[test]
fn cpu_thermals_fall_back_to_package_then_thermal_zone() {
    let firmware = FirmwareSensorSnapshot {
        thermal_zone_temp_c: Some(50),
        cpu_fan_rpm: None,
        gpu_fan_rpm: None,
        has_acer_firmware: false,
        has_thermal_zone: true,
    };
    let low = LowLevelThermals {
        package_temp_c: Some(70),
        average_core_temp_c: None,
        lowest_core_temp_c: Some(60),
        highest_core_temp_c: Some(80),
    };
    let t = build_cpu_thermal_snapshot(&low, &firmware);
    assert_eq!(t.average_temp_c, Some(70));
    assert_eq!(t.lowest_core_temp_c, Some(60));
    let t = build_cpu_thermal_snapshot(&LowLevelThermals::default(), &firmware);
    assert_eq!(t.average_temp_c, Some(50));
}

#[test]
fn firmware_probe_output() {
    let s = query_firmware_sensor_snapshot(br#"{"thermalZoneTempC": 46, "cpuFanRpm": 2100, "gpuFanRpm": null}"#)
        .unwrap();
    assert_eq!(s.thermal_zone_temp_c, Some(46));
    assert_eq!(s.cpu_fan_rpm, Some(2100));
    assert_eq!(s.gpu_fan_rpm, None);
    assert!(s.has_thermal_zone);
    assert!(!s.has_acer_firmware);
    assert!(query_firmware_sensor_snapshot(b"garbage").is_none());
    let truncated = firmware_snapshot_from_fields(
        &JsonField::Number(Some(300)),
        &JsonField::Number(Some(70000)),
        &JsonField::Absent,
    );
    assert_eq!(truncated.thermal_zone_temp_c, Some(44));
    assert_eq!(truncated.cpu_fan_rpm, Some(4464));
}

#[test]
fn nvidia_hardware_ids() {
    let mut data = wide("PCI\\VEN_8086&DEV_46A6");
    data.push(0);
    data.extend(wide("pci\\ven_10de&dev_2520"));
    data.push(0);
    data.push(0);
    assert!(is_nvidia_hardware_id(&data));
    let mut intel = wide("PCI\\VEN_8086&DEV_46A6");
    intel.push(0);
    intel.push(0);
    assert!(!is_nvidia_hardware_id(&intel));
    let mut after_terminator = wide("A");
    after_terminator.extend([0, 0]);
    after_terminator.extend(wide("VEN_10DE"));
    assert!(!is_nvidia_hardware_id(&after_terminator));
    assert!(is_nvidia_hardware_id(&wide("VEN_10DE")));
    assert!(!is_nvidia_hardware_id(&[]));
}

#[test]
fn polling_follows_d0_or_the_fallback_probe() {
    assert!(gpu_power_state_is_d0(0, 56, 1));
    assert!(!gpu_power_state_is_d0(0, 40, 1));
    assert!(!gpu_power_state_is_d0(0, 56, 4));
    assert!(!gpu_power_state_is_d0(13, 56, 1));
    assert!(gpu_should_poll(true, true, None));
    assert!(!gpu_should_poll(true, false, None));
    assert!(gpu_should_poll(false, false, None));
    assert!(!gpu_should_poll(false, true, Some(29)));
    assert!(gpu_should_poll(false, false, Some(30)));
}

#[test]
fn d0_transitions_are_logged_once() {
    let mut last = None;
    assert_eq!(
        log_d0_transition(&mut last, true),
        Some("GPU entered D0 (woken by another process). Starting NVML polling.")
    );
    assert_eq!(log_d0_transition(&mut last, true), None);
    assert_eq!(
        log_d0_transition(&mut last, false),
        Some("GPU entered D3/D3cold. NVML polling suspended; RTD3 unrestricted.")
    );
    assert_eq!(last, Some(false));
}

#[test]
fn nvml_statuses_and_readings() {
    assert_eq!(nvml_call(0, "nvmlInit_v2"), Ok(()));
    assert_eq!(
        nvml_call(-9, "nvmlDeviceGetTemperature"),
        Err("nvmlDeviceGetTemperature failed with NVML status -9".to_string())
    );
    assert_eq!(check_nvml_device_count(1), Ok(()));
    assert_eq!(check_nvml_device_count(0), Err("NVML reported zero NVIDIA devices".to_string()));
    let r = nvml_core_readings(150, 300, 70000, 1024, 4096);
    assert_eq!(r.usage_percent, Some(100));
    assert_eq!(r.temp_c, Some(255));
    assert_eq!(r.clock_mhz, Some(65535));
    assert_eq!(r.memory_usage_percent, Some(25));
    assert_eq!(nvml_core_readings(5, 40, 1500, 1, 3).memory_usage_percent, Some(33));
    assert_eq!(nvml_core_readings(5, 40, 1500, 1, 0).memory_usage_percent, None);
}

#[test]
fn nvidia_smi_output_is_parsed() {
    let row = parse_nvidia_smi_output(true, "45, 1410, 7, 512, 8192, 12.5, 80.00\r\nsecond\n", "")
        .unwrap();
    assert_eq!(row.temp_c, Some(45));
    assert_eq!(row.clock_mhz, Some(1410));
    assert_eq!(row.usage_percent, Some(7));
    assert_eq!(row.fields, vec!["45", "1410", "7", "512", "8192", "12.5", "80.00"]);
    let odd = parse_nvidia_smi_output(true, "[N/A], +900, 250, 1, 2", "").unwrap();
    assert_eq!(odd.temp_c, None);
    assert_eq!(odd.clock_mhz, Some(900));
    assert_eq!(odd.usage_percent, Some(100));
}

#[test]
fn nvidia_smi_errors() {
    assert_eq!(
        parse_nvidia_smi_output(false, "", "  driver not loaded \n").err().unwrap(),
        "nvidia-smi GPU query failed: driver not loaded"
    );
    assert_eq!(
        parse_nvidia_smi_output(true, " \n45,1,2,3,4", "").err().unwrap(),
        "nvidia-smi returned no GPU rows"
    );
    assert_eq!(
        parse_nvidia_smi_output(true, "45, 1410", "").err().unwrap(),
        "unexpected nvidia-smi field count: 2"
    );
}

#[test]
fn telemetry_snapshot_fallbacks() {
    let thermal = build_cpu_thermal_snapshot(&LowLevelThermals::default(), &FirmwareSensorSnapshot::default());
    let hid = AcerHidReadings { cpu_temp_c: Some(66), system_temp_c: Some(40), cpu_fan_rpm: None, gpu_fan_rpm: Some(3000) };
    let firmware = FirmwareSensorSnapshot {
        thermal_zone_temp_c: None,
        cpu_fan_rpm: Some(2500),
        gpu_fan_rpm: Some(1),
        has_acer_firmware: false,
        has_thermal_zone: false,
    };
    assert_eq!(system_temp_candidate(&firmware, &hid), Some(40));
    let gpu = nvml_core_readings(10, 50, 1200, 0, 0);
    let power = PowerReadings { battery_percent: 80, battery_life_remaining_sec: None, ac_plugged_in: true };
    let t = compose_telemetry_snapshot(&thermal, &hid, &firmware, &gpu, None, 12, 3100, &power, HardwareIdentity::default());
    assert_eq!(t.cpu_temp_c, 66);
    assert_eq!(t.cpu_temp_average_c, Some(66));
    assert_eq!(t.system_temp_c, 0);
    assert_eq!(t.gpu_temp_c, 50);
    assert_eq!(t.gpu_usage_percent, 10);
    assert_eq!(t.gpu_memory_usage_percent, None);
    assert_eq!(t.cpu_fan_rpm, 2500);
    assert_eq!(t.gpu_fan_rpm, 3000);
    assert_eq!(t.cpu_clock_mhz, 3100);
    assert_eq!(t.battery_percent, 80);
    assert!(t.ac_plugged_in);
}

#[test]
fn gpu_reads_follow_d0_and_the_fallback_probe() {
    let mut state = GpuPollState::default();
    let d = read_gpu_snapshot(&mut state, Some(false), 100);
    assert!(!d.poll);
    assert_eq!(d.log_line, Some("GPU entered D3/D3cold. NVML polling suspended; RTD3 unrestricted."));
    let d = read_gpu_snapshot(&mut state, Some(false), 101);
    assert!(!d.poll);
    assert_eq!(d.log_line, None);
    let d = read_gpu_snapshot(&mut state, Some(true), 102);
    assert!(d.poll);
    let mut fallback = GpuPollState::default();
    assert!(read_gpu_snapshot(&mut fallback, None, 1000).poll);
    assert_eq!(fallback.last_fallback_probe_secs, Some(1000));
    assert!(!read_gpu_snapshot(&mut fallback, None, 1029).poll);
    assert_eq!(fallback.last_fallback_probe_secs, Some(1000));
    assert!(read_gpu_snapshot(&mut fallback, None, 1030).poll);
    assert_eq!(fallback.last_fallback_probe_secs, Some(1030));
}

#[test]
fn cached_readings_are_probed_once_per_interval() {
    assert_eq!(CPU_CLOCK_REFRESH_MS, 333);
    assert_eq!(FIRMWARE_SENSOR_REFRESH_MS, 2000);
    let mut cache = CachedReading::new(0u16);
    assert!(refresh_due(&cache, 0, 333));
    assert_eq!(read_cached(&mut cache, 0, 333, Some(Some(3100))), 3100);
    assert!(!refresh_due(&cache, 332, 333));
    assert_eq!(read_cached(&mut cache, 332, 333, None), 3100);
    assert!(refresh_due(&cache, 333, 333));
    assert_eq!(read_cached(&mut cache, 333, 333, Some(None)), 3100);
    assert_eq!(cache.last_refresh_ms, Some(333));
    record_probe(&mut cache, 700, Some(2900));
    assert_eq!(cache.value, 2900);
    assert_eq!(cache.last_refresh_ms, Some(700));
}
