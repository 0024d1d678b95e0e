use batfi::sensors::{
    discover_battery_sensors, discover_cpu_sensors, family_of, is_cpu_temp_sensor,
    is_valid_temperature, is_virtual_device, label_accepted, normalize_battery_temperature,
    DeviceFamily, HwmonChannel, HwmonGroup, SupplyEntry, TemperatureMonitor, ThermalZoneEntry,
};

fn label(s: &str) -> Option<String> {
    Some(s.to_string())
}

fn channel(number: &str, lbl: Option<&str>, raw: Option<i32>) -> HwmonChannel {
    HwmonChannel {
        number: number.to_string(),
        input_path: format!("/hw/temp{}_input", number),
        label: lbl.map(|l| l.to_string()),
        raw,
    }
}

fn group(name: &str, channels: Vec<HwmonChannel>) -> HwmonGroup {
    HwmonGroup { device_name: Some(name.to_string()), channels }
}

#[test]
fn coretemp_labels() {
    assert!(is_cpu_temp_sensor("coretemp", &None));
    assert!(is_cpu_temp_sensor("coretemp", &label("Package id 0")));
    assert!(is_cpu_temp_sensor("coretemp", &label("package id 1")));
    assert!(is_cpu_temp_sensor("coretemp", &label("PACKAGE")));
    assert!(!is_cpu_temp_sensor("coretemp", &label("Core 0")));
}

#[test]
fn k10temp_labels() {
    assert!(is_cpu_temp_sensor("k10temp", &None));
    assert!(is_cpu_temp_sensor("k10temp", &label("Tctl")));
    assert!(is_cpu_temp_sensor("k10temp", &label("TDIE")));
    assert!(!is_cpu_temp_sensor("k10temp", &label("Tccd1")));
    assert!(!is_cpu_temp_sensor("k10temp", &label("die")));
}

#[test]
fn zenpower_labels() {
    assert!(is_cpu_temp_sensor("zenpower", &None));
    assert!(is_cpu_temp_sensor("zenpower", &label("Tdie")));
    assert!(is_cpu_temp_sensor("zenpower", &label("Tctl")));
    assert!(is_cpu_temp_sensor("zenpower", &label("CPU Die")));
    assert!(!is_cpu_temp_sensor("zenpower", &label("Tccd1")));
}

#[test]
fn amdgpu_labels() {
    assert!(!is_cpu_temp_sensor("amdgpu", &None));
    assert!(is_cpu_temp_sensor("amdgpu", &label("edge")));
    assert!(is_cpu_temp_sensor("amdgpu", &label("Edge")));
    assert!(!is_cpu_temp_sensor("amdgpu", &label("junction")));
}

#[test]
fn other_families_rejected() {
    assert!(!is_cpu_temp_sensor("nvme", &None));
    assert!(!is_cpu_temp_sensor("acpitz", &label("package")));
    assert!(!is_cpu_temp_sensor("Coretemp", &None));
}

#[test]
fn label_rule_on_lowered_labels() {
    assert!(label_accepted(DeviceFamily::Coretemp, Some("package id 0")));
    assert!(!label_accepted(DeviceFamily::Coretemp, Some("Package id 0")));
    assert!(label_accepted(DeviceFamily::K10Temp, None));
    assert!(!label_accepted(DeviceFamily::AmdGpu, None));
    assert!(!label_accepted(DeviceFamily::Other, None));
}

#[test]
fn family_tags() {
    assert_eq!(family_of("coretemp"), DeviceFamily::Coretemp);
    assert_eq!(family_of("k10temp"), DeviceFamily::K10Temp);
    assert_eq!(family_of("zenpower"), DeviceFamily::ZenPower);
    assert_eq!(family_of("amdgpu"), DeviceFamily::AmdGpu);
    assert_eq!(family_of("coretemp2"), DeviceFamily::Other);
}

#[test]
fn virtual_devices() {
    assert!(is_virtual_device("acpitz"));
    assert!(is_virtual_device("virtual_thermal"));
    assert!(is_virtual_device("my-virtual"));
    assert!(!is_virtual_device("acpitz2"));
    assert!(!is_virtual_device("coretemp"));
}

#[test]
fn battery_normalization_examples() {
    assert_eq!(normalize_battery_temperature(25000), 25000);
    assert_eq!(normalize_battery_temperature(350), 35000);
    assert_eq!(normalize_battery_temperature(42), 42000);
    assert_eq!(normalize_battery_temperature(1000), 100000);
    assert_eq!(normalize_battery_temperature(1001), 1001);
    assert_eq!(normalize_battery_temperature(200), 200000);
    assert_eq!(normalize_battery_temperature(201), 20100);
}

#[test]
fn battery_normalization_idempotent_on_whole_degrees() {
    for raw in [25000, 350, 42, 300, 150] {
        let m = normalize_battery_temperature(raw);
        assert_eq!(m % 1000, 0);
        assert_eq!(normalize_battery_temperature((m / 1000) as i32), m);
    }
}

#[test]
fn temperature_band() {
    assert!(is_valid_temperature(10_000));
    assert!(is_valid_temperature(110_000));
    assert!(is_valid_temperature(45_500));
    assert!(!is_valid_temperature(9_999));
    assert!(!is_valid_temperature(110_001));
    assert!(!is_valid_temperature(-5_000));
}

#[test]
fn coretemp_preferred_over_k10temp() {
    let groups = vec![
        group("k10temp", vec![channel("1", Some("Tctl"), Some(50_000))]),
        group("coretemp", vec![channel("1", Some("Package id 0"), Some(60_000))]),
    ];
    let mut monitor = TemperatureMonitor::new(&groups, &vec![], &vec![]);
    assert_eq!(monitor.cpu_sensors.len(), 2);
    assert_eq!(monitor.cpu_sensors[0].sensor_type, "coretemp");
    assert_eq!(monitor.cpu_sensors[1].sensor_type, "k10temp");
    let reading = monitor.get_cpu_temp(&vec![Some(61_000), Some(51_000)], 7).unwrap();
    assert_eq!(reading.sensor_info.sensor_type, "coretemp");
    assert_eq!(reading.raw_millicelsius, 61_000);
    assert_eq!(reading.smoothed_millicelsius, 61_000);
    assert_eq!(reading.timestamp, 7);
    assert_eq!(monitor.last_cpu_temp.as_ref().unwrap().raw_millicelsius, 61_000);
}

#[test]
fn query_falls_through_to_next_valid_sensor() {
    let groups = vec![
        group("k10temp", vec![channel("1", Some("Tctl"), Some(50_000))]),
        group("coretemp", vec![channel("1", None, Some(60_000))]),
    ];
    let mut monitor = TemperatureMonitor::new(&groups, &vec![], &vec![]);
    let reading = monitor.get_cpu_temp(&vec![Some(200_000), Some(52_000)], 1).unwrap();
    assert_eq!(reading.sensor_info.sensor_type, "k10temp");
    assert_eq!(reading.raw_millicelsius, 52_000);
    assert!(monitor.get_cpu_temp(&vec![None, Some(5_000)], 2).is_none());
    assert_eq!(monitor.last_cpu_temp.as_ref().unwrap().raw_millicelsius, 52_000);
    assert!(monitor.get_cpu_temp(&vec![], 3).is_none());
}

#[test]
fn discovery_filters_channels() {
    let groups = vec![
        group("acpitz", vec![channel("1", None, Some(40_000))]),
        group("coretemp", vec![
            channel("1", Some("Package id 0"), Some(45_000)),
            channel("2", Some("Core 0"), Some(45_000)),
            channel("3", Some("Package id 1"), Some(150_000)),
            channel("4", Some("Package id 2"), None),
        ]),
        HwmonGroup { device_name: None, channels: vec![channel("1", None, Some(40_000))] },
        group("amdgpu", vec![channel("1", Some("edge"), Some(55_000))]),
        group("zenpower", vec![channel("2", None, Some(42_000))]),
    ];
    let sensors = discover_cpu_sensors(&groups);
    let kinds: Vec<&str> = sensors.iter().map(|s| s.sensor_type.as_str()).collect();
    assert_eq!(kinds, vec!["coretemp", "zenpower", "amdgpu"]);
    assert_eq!(sensors[0].name, "coretemp Package id 0");
    assert_eq!(sensors[0].path, "/hw/temp1_input");
    assert_eq!(sensors[0].label.as_deref(), Some("Package id 0"));
    assert_eq!(sensors[1].name, "zenpower temp2");
    assert_eq!(sensors[1].label, None);
}

#[test]
fn discovery_keeps_order_within_family() {
    let groups = vec![
        group("k10temp", vec![channel("1", Some("Tctl"), Some(40_000))]),
        group("k10temp", vec![channel("2", Some("Tdie"), Some(41_000))]),
        group("coretemp", vec![channel("5", None, Some(42_000))]),
    ];
    let sensors = discover_cpu_sensors(&groups);
    let names: Vec<&str> = sensors.iter().map(|s| s.name.as_str()).collect();
    assert_eq!(names, vec!["coretemp temp5", "k10temp Tctl", "k10temp Tdie"]);
}

#[test]
fn battery_sensor_discovery() {
    let supplies = vec![
        SupplyEntry { name: "AC".to_string(), temp_path: "/ps/AC/temp".to_string(), temp_raw: Some(300) },
        SupplyEntry { name: "BAT0".to_string(), temp_path: "/ps/BAT0/temp".to_string(), temp_raw: Some(305) },
        SupplyEntry { name: "BAT1".to_string(), temp_path: "/ps/BAT1/temp".to_string(), temp_raw: None },
        SupplyEntry { name: "battery".to_string(), temp_path: "/ps/battery/temp".to_string(), temp_raw: Some(5) },
    ];
    let zones = vec![
        ThermalZoneEntry {
            name: "thermal_zone0".to_string(),
            zone_type: Some("x86_pkg_temp".to_string()),
            temp_path: "/tz0/temp".to_string(),
            temp_raw: Some(40_000),
        },
        ThermalZoneEntry {
            name: "thermal_zone1".to_string(),
            zone_type: Some("battery".to_string()),
            temp_path: "/tz1/temp".to_string(),
            temp_raw: Some(31_000),
        },
    ];
    let sensors = discover_battery_sensors(&supplies, &zones);
    assert_eq!(sensors.len(), 2);
    assert_eq!(sensors[0].sensor_type, "battery");
    assert_eq!(sensors[0].name, "Battery BAT0");
    assert_eq!(sensors[0].label.as_deref(), Some("BAT0"));
    assert_eq!(sensors[1].sensor_type, "thermal_zone");
    assert_eq!(sensors[1].name, "Battery Thermal thermal_zone1");
    assert_eq!(sensors[1].label.as_deref(), Some("battery"));

    let mut monitor = TemperatureMonitor::new(&vec![], &supplies, &zones);
    let reading = monitor.get_battery_temp(&vec![Some(2_000), Some(29_500)], 9).unwrap();
    assert_eq!(reading.sensor_info.name, "Battery Thermal thermal_zone1");
    assert_eq!(reading.raw_millicelsius, 29_500);
    let reading = monitor.get_battery_temp(&vec![Some(312), None], 10).unwrap();
    assert_eq!(reading.raw_millicelsius, 31_200);
    assert!(monitor.last_cpu_temp.is_none());
}

#[test]
fn no_sensors_is_a_valid_state() {
    let mut monitor = TemperatureMonitor::new(&vec![], &vec![], &vec![]);
    assert!(monitor.get_cpu_temp(&vec![Some(50_000)], 1).is_none());
    assert!(monitor.get_battery_temp(&vec![Some(30)], 1).is_none());
}
