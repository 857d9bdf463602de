use aeroforge::json::JsonField;
use aeroforge::service::control::fan::{
    behavior_input_for_profile, build_apply_detail, build_custom_fan_context, get_u8,
    interpolate_curve_speed, plan_custom_fan_curves, plan_fan_profile, read_current_temperatures,
    sanitize_curve_points, sanitize_fan_curves, value_to_u8, CurrentTemperatures, FanBehavior,
    finish_fan_control, plan_custom_fan_control, next_fan_action, start_fan_apply, FanStep,
    FanWrite,
};
use aeroforge::service::control::models::{
    ApplyCustomFanCurvesRequest, ApplyFanProfileRequest, FanCurvePoint, FanCurveSet, FanProfileId,
};

fn p(temp_c: u8, speed_percent: u8) -> FanCurvePoint {
    FanCurvePoint { temp_c, speed_percent }
}

fn default_curve() -> Vec<FanCurvePoint> {
    vec![p(30, 0), p(49, 0), p(65, 22), p(74, 64), p(80, 100)]
}

#[test]
fn sanitize_clamps_sorts_dedups_and_raises_speeds() {
    let out = sanitize_curve_points(vec![p(50, 40), p(20, 10), p(50, 90), p(100, 30)]);
    assert_eq!(out, vec![p(30, 10), p(50, 40), p(95, 40)]);
}

#[test]
fn sanitize_caps_speed_at_100() {
    let out = sanitize_curve_points(vec![p(60, 250), p(40, 20)]);
    assert_eq!(out, vec![p(40, 20), p(60, 100)]);
}

#[test]
fn sanitize_empty_curve_gives_default_curve() {
    assert_eq!(sanitize_curve_points(Vec::new()), default_curve());
}

#[test]
fn sanitize_is_idempotent_on_an_example() {
    let once = sanitize_curve_points(vec![p(90, 10), p(35, 70), p(35, 5), p(60, 30)]);
    let twice = sanitize_curve_points(once.clone());
    assert_eq!(once, twice);
    assert_eq!(once, vec![p(35, 70), p(60, 70), p(90, 70)]);
}

#[test]
fn sanitize_fan_curves_sanitizes_both_fans() {
    let out = sanitize_fan_curves(FanCurveSet { cpu: vec![p(10, 5)], gpu: Vec::new() });
    assert_eq!(out.cpu, vec![p(30, 5)]);
    assert_eq!(out.gpu, default_curve());
}

#[test]
fn interpolation_on_the_default_curve() {
    let curve = default_curve();
    assert_eq!(interpolate_curve_speed(&curve, 20), 0);
    assert_eq!(interpolate_curve_speed(&curve, 30), 0);
    assert_eq!(interpolate_curve_speed(&curve, 65), 22);
    assert_eq!(interpolate_curve_speed(&curve, 70), 45);
    assert_eq!(interpolate_curve_speed(&curve, 77), 82);
    assert_eq!(interpolate_curve_speed(&curve, 80), 100);
    assert_eq!(interpolate_curve_speed(&curve, 95), 100);
}

#[test]
fn interpolation_of_an_empty_curve_is_60() {
    assert_eq!(interpolate_curve_speed(&[], 70), 60);
}

#[test]
fn interpolation_is_monotone_on_a_sanitized_curve() {
    let curve = sanitize_curve_points(vec![p(40, 10), p(55, 35), p(70, 35), p(85, 90)]);
    let mut last = 0;
    for t in 0..=255u8 {
        let s = interpolate_curve_speed(&curve, t);
        assert!(s >= last);
        assert!(s <= 90 && s >= 10);
        last = s;
    }
}

#[test]
fn behavior_follows_the_profile() {
    assert_eq!(behavior_input_for_profile(&FanProfileId::Auto), FanBehavior::Auto);
    assert_eq!(behavior_input_for_profile(&FanProfileId::Max), FanBehavior::Max);
    assert_eq!(behavior_input_for_profile(&FanProfileId::Custom), FanBehavior::Custom);
}

#[test]
fn fixed_profiles_plan_their_targets() {
    let auto = plan_fan_profile(&ApplyFanProfileRequest { profile_id: FanProfileId::Auto }).unwrap();
    assert_eq!(auto.cpu_speed_percent, None);
    assert_eq!(auto.context, "Auto fan profile requested through ROOT\\WMI AcerGamingFunction.");
    let max = plan_fan_profile(&ApplyFanProfileRequest { profile_id: FanProfileId::Max }).unwrap();
    assert_eq!(max.cpu_speed_percent, Some(100));
    assert_eq!(max.gpu_speed_percent, Some(100));
    let custom = plan_fan_profile(&ApplyFanProfileRequest { profile_id: FanProfileId::Custom });
    assert_eq!(
        custom.err().unwrap(),
        "Custom fan mode requires explicit saved curves instead of a fallback fixed speed."
    );
}

#[test]
fn custom_curves_use_current_temperatures_or_65() {
    let request = ApplyCustomFanCurvesRequest {
        curves: FanCurveSet { cpu: default_curve(), gpu: default_curve() },
    };
    let temps = CurrentTemperatures { cpu_temp_c: Some(70), gpu_temp_c: None };
    let targets = plan_custom_fan_curves(request, &temps);
    assert_eq!(targets.cpu_temp_c, 70);
    assert_eq!(targets.gpu_temp_c, 65);
    assert_eq!(targets.requested_cpu_speed, 45);
    assert_eq!(targets.requested_gpu_speed, 22);
    assert_eq!(
        build_custom_fan_context(&targets, 45, 22),
        "Custom fan curves compressed to current-temperature targets: CPU 70C -> requested 45% / applied 45%, GPU 65C -> requested 22% / applied 22%. AcerGamingFunction accepts direct per-fan target speeds, not a full curve table."
    );
}

#[test]
fn custom_curves_become_the_applied_snapshot() {
    let request = ApplyCustomFanCurvesRequest {
        curves: FanCurveSet { cpu: default_curve(), gpu: default_curve() },
    };
    let temps = CurrentTemperatures { cpu_temp_c: Some(70), gpu_temp_c: None };
    let targets = plan_custom_fan_curves(request, &temps);
    let plan = plan_custom_fan_control(targets, 45, 22);
    assert_eq!(plan.profile_id, FanProfileId::Custom);
    assert_eq!(plan.cpu_speed_percent, Some(45));
    assert_eq!(plan.gpu_speed_percent, Some(22));
    let applied = finish_fan_control(plan, 0x0040_0008, Some("{}".to_string()), 12);
    assert_eq!(applied.profile_id, FanProfileId::Custom);
    assert_eq!(applied.curves.as_ref().map(|c| c.cpu.clone()), Some(default_curve()));
    assert_eq!(applied.cpu_speed_percent, Some(45));
    assert_eq!(applied.gpu_speed_percent, Some(22));
    assert_eq!(applied.readback, Some("{}".to_string()));
    assert_eq!(applied.applied_at_unix, 12);
    assert!(applied.detail.starts_with("Fan profile custom was applied through direct AcerGamingFunction WMI/ACPI calls. Custom fan curves compressed"));
    assert!(applied.detail.contains("Behavior input 0x00400008. CPU speed 45%, GPU speed 22%."));
}

#[test]
fn temperatures_prefer_the_average_cpu_temperature() {
    let t = read_current_temperatures(Some(
        r#"{"cpuTempAverageC": 61, "cpuTempC": 70, "gpuTempC": " 55 "}"#,
    ));
    assert_eq!(t, CurrentTemperatures { cpu_temp_c: Some(61), gpu_temp_c: Some(55) });
}

#[test]
fn temperatures_fall_back_to_the_package_temperature() {
    let t = read_current_temperatures(Some(r#"{"cpuTempAverageC": null, "cpuTempC": 70}"#));
    assert_eq!(t, CurrentTemperatures { cpu_temp_c: Some(70), gpu_temp_c: None });
}

#[test]
fn unreadable_temperatures_are_unknown() {
    assert_eq!(read_current_temperatures(None), CurrentTemperatures::default());
    assert_eq!(read_current_temperatures(Some("not json")), CurrentTemperatures::default());
    let t = read_current_temperatures(Some(r#"{"cpuTempC": 300, "gpuTempC": -4}"#));
    assert_eq!(t, CurrentTemperatures::default());
}

#[test]
fn json_values_to_u8() {
    assert_eq!(value_to_u8(&JsonField::Number(Some(42))), Some(42));
    assert_eq!(value_to_u8(&JsonField::Number(Some(256))), None);
    assert_eq!(value_to_u8(&JsonField::Text(" 7 ".to_string())), Some(7));
    assert_eq!(value_to_u8(&JsonField::Text("x".to_string())), None);
    assert_eq!(value_to_u8(&JsonField::Bool(true)), None);
    assert_eq!(get_u8(&[JsonField::Absent, JsonField::Number(Some(9))]), Some(9));
}

#[test]
fn apply_detail_with_and_without_speeds() {
    assert_eq!(
        build_apply_detail("max", "Ctx.", 0x0040_0008, Some(100), Some(100)),
        "Fan profile max was applied through direct AcerGamingFunction WMI/ACPI calls. Ctx. Behavior input 0x00400008. CPU speed 100%, GPU speed 100%. RPM movement is verified separately through telemetry."
    );
    assert_eq!(
        build_apply_detail("auto", "Ctx.", 0xAB, None, None),
        "Fan profile auto was applied through direct AcerGamingFunction WMI/ACPI calls. Ctx. Behavior input 0x000000AB. No explicit per-fan speed write was required for this profile. RPM movement is verified separately through telemetry."
    );
}

#[test]
fn fan_writes_run_in_order_and_stop_at_the_first_failure() {
    let plan = plan_fan_profile(&ApplyFanProfileRequest { profile_id: FanProfileId::Max }).unwrap();
    let (apply, write) = match start_fan_apply(plan, 7) {
        FanStep::Write(apply, write) => (apply, write),
        FanStep::Finish(_) => panic!("expected a write"),
    };
    assert_eq!(write, FanWrite::Behavior(7));
    let (apply, write) = match next_fan_action(apply, Ok(()), None, 1) {
        FanStep::Write(apply, write) => (apply, write),
        FanStep::Finish(_) => panic!("expected a write"),
    };
    assert_eq!(write, FanWrite::CpuSpeed(100));
    match next_fan_action(apply, Err("WMI refused".to_string()), None, 1) {
        FanStep::Finish(Err(e)) => assert_eq!(e, "WMI refused"),
        _ => panic!("expected the error"),
    }

    let plan = plan_fan_profile(&ApplyFanProfileRequest { profile_id: FanProfileId::Auto }).unwrap();
    let apply = match start_fan_apply(plan, 3) {
        FanStep::Write(apply, _) => apply,
        FanStep::Finish(_) => panic!("expected a write"),
    };
    match next_fan_action(apply, Ok(()), Some("{}".to_string()), 9) {
        FanStep::Finish(Ok(a)) => {
            assert_eq!(a.profile_id, FanProfileId::Auto);
            assert_eq!(a.cpu_speed_percent, None);
            assert_eq!(a.readback, Some("{}".to_string()));
            assert_eq!(a.applied_at_unix, 9);
        }
        _ => panic!("expected the snapshot"),
    }
}
