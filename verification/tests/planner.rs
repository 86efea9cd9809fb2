use adaptive_display::gamma::{CurveSamples, GammaTriple};
use adaptive_display::planner::{command_arguments, format_gamma, format_level, plan, MonitorPlan};
use adaptive_display::units::{ColorTemperature, Level};

fn lvl(micros: u32) -> Level {
    Level::from_micros(micros).unwrap()
}

fn monitor_list(list: &[&str]) -> Vec<String> {
    list.iter().map(|s| s.to_string()).collect()
}

#[test]
fn plan_has_one_entry_per_monitor_in_order() {
    let monitors = monitor_list(&["DP-0", "HDMI-0", "eDP-1"]);
    let samples = CurveSamples { red: 0, green: 755_035, blue: 552_261 };
    let plans = plan(lvl(800_000), ColorTemperature::from_kelvin(3500).unwrap(), samples, &monitors);
    assert_eq!(plans.len(), 3);
    for (entry, name) in plans.iter().zip(monitors.iter()) {
        assert_eq!(&entry.monitor_name, name);
        assert_eq!(entry.brightness, lvl(800_000));
        assert_eq!(entry.brightness.micros(), 800_000);
        assert_eq!(entry.gamma.red.micros(), 1_000_000);
        assert_eq!(entry.gamma.green.micros(), 755_035);
        assert_eq!(entry.gamma.blue.micros(), 552_261);
    }
}

#[test]
fn plan_for_no_monitor_is_empty() {
    let samples = CurveSamples { red: 0, green: 0, blue: 0 };
    let plans = plan(lvl(600_000), ColorTemperature::from_kelvin(6500).unwrap(), samples, &Vec::new());
    assert!(plans.is_empty());
}

#[test]
fn plan_keeps_repeated_names() {
    let monitors = monitor_list(&["DP-0", "DP-0", ""]);
    let samples = CurveSamples { red: 900_000, green: 950_000, blue: 0 };
    let plans = plan(lvl(1_000_000), ColorTemperature::from_kelvin(7000).unwrap(), samples, &monitors);
    assert_eq!(plans.len(), 3);
    assert_eq!(plans[0].monitor_name, "DP-0");
    assert_eq!(plans[1].monitor_name, "DP-0");
    assert_eq!(plans[2].monitor_name, "");
    assert_eq!(plans[0].gamma, plans[2].gamma);
    assert_eq!(plans[1].gamma.red.micros(), 900_000);
    assert_eq!(plans[1].gamma.green.micros(), 950_000);
    assert_eq!(plans[1].gamma.blue.micros(), 1_000_000);
}

#[test]
fn plan_is_deterministic() {
    let monitors = monitor_list(&["DP-0", "HDMI-0"]);
    let samples = CurveSamples { red: 1, green: 2, blue: 3 };
    let temp = ColorTemperature::from_kelvin(5000).unwrap();
    let first = plan(lvl(654_321), temp, samples, &monitors);
    let second = plan(lvl(654_321), temp, samples, &monitors);
    assert_eq!(first, second);
}

#[test]
fn level_text_has_three_decimals() {
    assert_eq!(format_level(lvl(0)), "0.000");
    assert_eq!(format_level(lvl(600_000)), "0.600");
    assert_eq!(format_level(lvl(800_000)), "0.800");
    assert_eq!(format_level(lvl(1_000_000)), "1.000");
    assert_eq!(format_level(lvl(123_456)), "0.123");
    assert_eq!(format_level(lvl(7_000)), "0.007");
    assert_eq!(format_level(lvl(50_000)), "0.050");
}

#[test]
fn level_text_rounds_halves_upward() {
    assert_eq!(format_level(lvl(499)), "0.000");
    assert_eq!(format_level(lvl(500)), "0.001");
    assert_eq!(format_level(lvl(123_499)), "0.123");
    assert_eq!(format_level(lvl(123_500)), "0.124");
    assert_eq!(format_level(lvl(999_499)), "0.999");
    assert_eq!(format_level(lvl(999_500)), "1.000");
    assert_eq!(format_level(lvl(999_999)), "1.000");
}

#[test]
fn gamma_text_joins_the_channels_with_colons() {
    let gamma = GammaTriple { red: lvl(1_000_000), green: lvl(755_035), blue: lvl(552_261) };
    assert_eq!(format_gamma(gamma), "1.000:0.755:0.552");
    let dark = GammaTriple { red: lvl(0), green: lvl(0), blue: lvl(0) };
    assert_eq!(format_gamma(dark), "0.000:0.000:0.000");
}

#[test]
fn command_sets_brightness_and_gamma_of_one_output() {
    let entry = MonitorPlan {
        monitor_name: "HDMI-0".to_string(),
        brightness: lvl(800_000),
        gamma: GammaTriple { red: lvl(1_000_000), green: lvl(849_600), blue: lvl(700_400) },
    };
    assert_eq!(
        command_arguments(&entry),
        vec!["--output", "HDMI-0", "--brightness", "0.800", "--gamma", "1.000:0.850:0.700"]
    );
}

#[test]
fn command_passes_the_name_through_unchanged() {
    let entry = MonitorPlan {
        monitor_name: "Bildschirm grün".to_string(),
        brightness: lvl(600_000),
        gamma: GammaTriple { red: lvl(1_000_000), green: lvl(1_000_000), blue: lvl(1_000_000) },
    };
    let arguments = command_arguments(&entry);
    assert_eq!(arguments.len(), 6);
    assert_eq!(arguments[1], "Bildschirm grün");
    assert_eq!(arguments[3], "0.600");
    assert_eq!(arguments[5], "1.000:1.000:1.000");
}
