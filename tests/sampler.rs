use batfi::estimator::PowerTrend;
use batfi::sampler::{
    energy_from, read_current, read_energy_values, read_health, read_power, BatteryMonitor,
    BatterySources,
};
use batfi::sensors::{HwmonChannel, HwmonGroup, TemperatureMonitor};

fn empty_sources() -> BatterySources {
    BatterySources {
        present: true,
        status: None,
        capacity: None,
        voltage_now: None,
        current_now: None,
        cycle_count: None,
        energy_now: None,
        energy_full: None,
        energy_full_design: None,
        charge_now: None,
        charge_full: None,
        charge_full_design: None,
        power_now: None,
        manufacturer: None,
        model_name: None,
        technology: None,
    }
}

fn discharging_sources() -> BatterySources {
    let mut s = empty_sources();
    s.status = Some("Discharging".to_string());
    s.capacity = Some(83);
    s.voltage_now = Some(12_000_000);
    s.current_now = Some(-1_250_000);
    s.cycle_count = Some(42);
    s.energy_now = Some(50_000_000);
    s.energy_full = Some(60_000_000);
    s.energy_full_design = Some(80_000_000);
    s.power_now = Some(15_000_000);
    s.manufacturer = Some("ACME".to_string());
    s.model_name = Some("X1".to_string());
    s.technology = Some("Li-ion".to_string());
    s
}

fn monitor() -> BatteryMonitor {
    BatteryMonitor::new(TemperatureMonitor::new(&vec![], &vec![], &vec![]))
}

#[test]
fn absent_battery_gives_nothing() {
    let mut m = monitor();
    let mut s = discharging_sources();
    s.present = false;
    assert!(m.get_battery_info(&s, &vec![], &vec![], 5).is_none());
    assert_eq!(m.readings_len(), 0);
    assert_eq!(m.last_update(), 0);
}

#[test]
fn polling_cycles_build_an_estimate() {
    let mut m = monitor();
    let s = discharging_sources();
    let first = m.get_battery_info(&s, &vec![], &vec![], 100).unwrap();
    assert_eq!(first.status, "Discharging");
    assert_eq!(first.capacity_percent, 83);
    assert_eq!(first.health_hundredths, 7500);
    assert_eq!(first.cycles, Some(42));
    assert_eq!(first.voltage_uv, Some(12_000_000));
    assert_eq!(first.current_ma, Some(-1250));
    assert_eq!(first.power_uw, Some(15_000_000));
    assert_eq!(first.smoothed_power_uw, Some(15_000_000));
    assert_eq!(first.energy_now_uwh, Some(50_000_000));
    assert_eq!(first.energy_full_uwh, Some(60_000_000));
    assert_eq!(first.manufacturer, "ACME");
    assert_eq!(first.model, "X1");
    assert_eq!(first.technology, "Li-ion");
    assert_eq!(first.time_remaining_minutes, None);
    assert_eq!(first.power_trend, PowerTrend::Stable);
    assert_eq!(first.cpu_temperature_millicelsius, None);
    assert_eq!(first.temperature_millicelsius, None);
    m.get_battery_info(&s, &vec![], &vec![], 102).unwrap();
    let third = m.get_battery_info(&s, &vec![], &vec![], 104).unwrap();
    // 50 Wh at 15 W.
    assert_eq!(third.time_remaining_minutes, Some(200));
    assert_eq!(m.readings_len(), 3);
    assert_eq!(m.last_update(), 104);
    assert_eq!(m.estimator().history_len(), 3);
}

#[test]
fn missing_sources_use_defaults() {
    let mut m = monitor();
    let mut s = empty_sources();
    s.capacity = Some(150);
    let info = m.get_battery_info(&s, &vec![], &vec![], 1).unwrap();
    assert_eq!(info.status, "Unknown");
    assert_eq!(info.manufacturer, "Unknown");
    assert_eq!(info.model, "Unknown");
    assert_eq!(info.technology, "Unknown");
    assert_eq!(info.capacity_percent, 0);
    assert_eq!(info.health_hundredths, 0);
    assert_eq!(info.power_uw, None);
    assert_eq!(info.smoothed_power_uw, None);
    assert_eq!(info.time_remaining_minutes, None);
    assert_eq!(m.estimator().history_len(), 0);
}

#[test]
fn power_without_energy_is_smoothed_but_not_recorded() {
    let mut m = monitor();
    let mut s = empty_sources();
    s.power_now = Some(8_000_000);
    let info = m.get_battery_info(&s, &vec![], &vec![], 1).unwrap();
    assert_eq!(info.smoothed_power_uw, Some(8_000_000));
    assert_eq!(m.estimator().history_len(), 0);
    assert_eq!(m.estimator().window_len(), 1);
}

#[test]
fn temperatures_are_queried() {
    let groups = vec![HwmonGroup {
        device_name: Some("coretemp".to_string()),
        channels: vec![HwmonChannel {
            number: "1".to_string(),
            input_path: "/hw/temp1_input".to_string(),
            label: None,
            raw: Some(50_000),
        }],
    }];
    let mut m = BatteryMonitor::new(TemperatureMonitor::new(&groups, &vec![], &vec![]));
    let info = m.get_battery_info(&discharging_sources(), &vec![Some(55_000)], &vec![], 3).unwrap();
    assert_eq!(info.cpu_temperature_millicelsius, Some(55_000));
    assert_eq!(m.temperature_monitor().last_cpu_temp.as_ref().unwrap().raw_millicelsius, 55_000);
    let t = m.get_cpu_temperature(&vec![Some(150_000)], 4);
    assert!(t.is_none());
    assert!(m.get_battery_temperature(&vec![Some(300)], 4).is_none());
}

#[test]
fn energy_fallback_from_charge() {
    assert_eq!(energy_from(Some(7), Some(1), Some(1)), Some(7));
    // 4 Ah at 12 V is 48 Wh.
    assert_eq!(energy_from(None, Some(4_000_000), Some(12_000_000)), Some(48_000_000));
    assert_eq!(energy_from(None, Some(4_000_000), None), None);
    assert_eq!(energy_from(None, None, Some(12_000_000)), None);
    let mut s = empty_sources();
    s.charge_now = Some(2_000_000);
    s.charge_full = Some(4_000_000);
    s.voltage_now = Some(11_000_000);
    assert_eq!(read_energy_values(&s), (Some(22_000_000), Some(44_000_000)));
}

#[test]
fn implausible_values_are_treated_as_missing() {
    assert_eq!(energy_from(Some(i64::MAX), None, None), None);
    assert_eq!(energy_from(Some(i64::MAX), Some(1_000_000), Some(1_000_000)), Some(1_000_000));
}

#[test]
fn power_fallback_from_voltage_and_current() {
    let mut s = empty_sources();
    s.voltage_now = Some(12_000_000);
    s.current_now = Some(-1_500_000);
    assert_eq!(read_current(&s), Some(-1500));
    assert_eq!(read_power(&s), Some(18_000_000));
    s.power_now = Some(9_000_000);
    assert_eq!(read_power(&s), Some(9_000_000));
    s.power_now = None;
    s.current_now = None;
    assert_eq!(read_power(&s), None);
}

#[test]
fn current_rounds_toward_zero() {
    let mut s = empty_sources();
    s.current_now = Some(-1_999);
    assert_eq!(read_current(&s), Some(-1));
    s.current_now = Some(1_999);
    assert_eq!(read_current(&s), Some(1));
    s.current_now = Some(i32::MIN);
    assert_eq!(read_current(&s), Some(-2_147_483));
}

#[test]
fn health_fallbacks() {
    let mut s = empty_sources();
    s.energy_full = Some(45_000_000);
    s.energy_full_design = Some(50_000_000);
    assert_eq!(read_health(&s), 9000);
    s.energy_full_design = Some(0);
    assert_eq!(read_health(&s), 0);
    s.charge_full = Some(3_000_000);
    s.charge_full_design = Some(4_000_000);
    assert_eq!(read_health(&s), 7500);
}

#[test]
fn reading_history_is_bounded() {
    let mut m = monitor();
    let s = discharging_sources();
    for t in 1..=305u64 {
        m.get_battery_info(&s, &vec![], &vec![], t).unwrap();
    }
    assert_eq!(m.readings_len(), 300);
    assert_eq!(m.capacity_history().len(), 300);
    assert_eq!(m.estimator().history_len(), 300);
    assert_eq!(m.estimator().history()[0].timestamp, 6);
    assert_eq!(m.estimator().window_len(), 10);
}
