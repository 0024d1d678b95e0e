use batfi::display::{celsius_to_fahrenheit, generate_countdown_dots, generate_pacman_cat_animation};
use batfi::sampler::{BatteryMonitor, BatterySources};
use batfi::sensors::TemperatureMonitor;

fn monitor() -> BatteryMonitor {
    BatteryMonitor::new(TemperatureMonitor::new(&vec![], &vec![], &vec![]))
}

#[test]
fn pacman_frames() {
    assert_eq!(generate_pacman_cat_animation(0), format!("C{}", "●".repeat(20)));
    assert_eq!(generate_pacman_cat_animation(5), format!("c{}", "●".repeat(15)));
    assert_eq!(generate_pacman_cat_animation(18), format!("o{}", "●".repeat(2)));
    assert_eq!(generate_pacman_cat_animation(19), "O●");
    assert_eq!(generate_pacman_cat_animation(20), "All dots eaten!");
    assert_eq!(generate_pacman_cat_animation(1000), "All dots eaten!");
}

#[test]
fn countdown_lines() {
    assert_eq!(generate_countdown_dots(0), format!("[{}] 20s remaining", "●".repeat(20)));
    assert_eq!(generate_countdown_dots(5), format!("     [{}] 15s remaining", "●".repeat(15)));
    assert_eq!(generate_countdown_dots(25), format!("{}[] 0s remaining", " ".repeat(20)));
}

#[test]
fn time_formatting() {
    let m = monitor();
    assert_eq!(m.format_time(125), "2h 05m");
    assert_eq!(m.format_time(60), "1h 00m");
    assert_eq!(m.format_time(45), "45m");
    assert_eq!(m.format_time(0), "0m");
    assert_eq!(m.format_time(1439), "23h 59m");
}

#[test]
fn battery_bars() {
    let m = monitor();
    assert_eq!(m.get_battery_bar(50, 10), format!("\x1b[32m{}{}\x1b[0m", "█".repeat(5), "░".repeat(5)));
    assert_eq!(m.get_battery_bar(10, 10), format!("\x1b[31m{}{}\x1b[0m", "█".repeat(1), "░".repeat(9)));
    assert_eq!(m.get_battery_bar(30, 4), format!("\x1b[33m{}{}\x1b[0m", "█".repeat(1), "░".repeat(3)));
    assert_eq!(m.get_battery_bar(100, 3), format!("\x1b[36m{}\x1b[0m", "█".repeat(3)));
}

#[test]
fn capacity_trend_arrows() {
    let mut m = monitor();
    assert_eq!(m.get_trend_indicator(), "━");
    let mut s = BatterySources {
        present: true,
        status: None,
        capacity: Some(50),
        voltage_now: None,
        current_now: None,
        cycle_count: None,
        energy_now: None,
        energy_full: None,
        energy_full_design: None,
        charge_now: None,
        charge_full: None,
        charge_full_design: None,
        power_now: None,
        manufacturer: None,
        model_name: None,
        technology: None,
    };
    m.get_battery_info(&s, &vec![], &vec![], 1);
    assert_eq!(m.get_trend_indicator(), "━");
    m.get_battery_info(&s, &vec![], &vec![], 2);
    assert_eq!(m.get_trend_indicator(), "\x1b[37m━\x1b[0m");
    s.capacity = Some(49);
    m.get_battery_info(&s, &vec![], &vec![], 3);
    assert_eq!(m.get_trend_indicator(), "\x1b[31m↘\x1b[0m");
    s.capacity = Some(52);
    m.get_battery_info(&s, &vec![], &vec![], 4);
    assert_eq!(m.get_trend_indicator(), "\x1b[32m↗\x1b[0m");
}

#[test]
fn fahrenheit_conversion() {
    assert_eq!(celsius_to_fahrenheit(100_000), 212_000);
    assert_eq!(celsius_to_fahrenheit(0), 32_000);
    assert_eq!(celsius_to_fahrenheit(-40_000), -40_000);
    assert_eq!(celsius_to_fahrenheit(37_000), 98_600);
}

#[test]
fn power_graphs() {
    let mut m = monitor();
    assert_eq!(m.get_power_graph(4), "    ");
    let mut s = BatterySources {
        present: true,
        status: None,
        capacity: Some(50),
        voltage_now: None,
        current_now: None,
        cycle_count: None,
        energy_now: Some(40_000_000),
        energy_full: None,
        energy_full_design: None,
        charge_now: None,
        charge_full: None,
        charge_full_design: None,
        power_now: Some(10_000_000),
        manufacturer: None,
        model_name: None,
        technology: None,
    };
    m.get_battery_info(&s, &vec![], &vec![], 1);
    assert_eq!(m.get_power_graph(3), "   ");
    s.power_now = Some(12_000_000);
    m.get_battery_info(&s, &vec![], &vec![], 2);
    s.power_now = Some(20_000_000);
    m.get_battery_info(&s, &vec![], &vec![], 3);
    assert_eq!(m.get_power_graph(60), "▁▂█");
    assert_eq!(m.get_power_graph(2), "▂█");
    assert_eq!(m.get_power_graph(0), "");
}

#[test]
fn flat_power_graph() {
    let mut m = monitor();
    let s = BatterySources {
        present: true,
        status: None,
        capacity: Some(50),
        voltage_now: None,
        current_now: None,
        cycle_count: None,
        energy_now: Some(40_000_000),
        energy_full: None,
        energy_full_design: None,
        charge_now: None,
        charge_full: None,
        charge_full_design: None,
        power_now: Some(10_000_000),
        manufacturer: None,
        model_name: None,
        technology: None,
    };
    m.get_battery_info(&s, &vec![], &vec![], 1);
    m.get_battery_info(&s, &vec![], &vec![], 2);
    assert_eq!(m.get_power_graph(5), "▁▁");
}
