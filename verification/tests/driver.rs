use perfmode::driver::{
    all_nodes, candidates, detect_all, is_readonly, resolve_path, Node, NodeState, Subsystem,
    Sysfs,
};
use perfmode::error::Error;

fn node(present: bool, readonly: Option<bool>, contents: &str) -> NodeState {
    NodeState { present, readonly, contents: Ok(contents.to_string()) }
}

#[test]
fn resolve_missing_path_returns_error() {
    // None of the sysfs nodes exist on a development machine.
    let sysfs = Sysfs::new();
    let result = resolve_path(Subsystem::Fan, false, &sysfs);
    assert!(result.is_err());
}

#[test]
fn resolve_battery_missing_returns_battery_not_supported() {
    let sysfs = Sysfs::new();
    let result = resolve_path(Subsystem::Battery, false, &sysfs);
    assert!(matches!(
        result,
        Err(Error::BatteryNotSupported) | Err(Error::PermissionDenied { .. })
    ));
}

#[test]
fn detect_all_returns_entries_for_every_subsystem() {
    let sysfs = Sysfs::new();
    let results = detect_all(&sysfs);
    assert_eq!(results.len(), 4);
    let subsystems: Vec<_> = results.iter().map(|(s, _)| *s).collect();
    assert!(subsystems.contains(&Subsystem::Fan));
    assert!(subsystems.contains(&Subsystem::Thermal));
    assert!(subsystems.contains(&Subsystem::Led));
    assert!(subsystems.contains(&Subsystem::Battery));
}

#[test]
fn detect_all_lists_subsystems_in_order() {
    let sysfs = Sysfs::new().with_node(Node::LedBrightness, node(true, Some(false), "1"));
    let results = detect_all(&sysfs);
    let subsystems: Vec<Subsystem> = results.iter().map(|(s, _)| *s).collect();
    assert_eq!(
        subsystems,
        vec![Subsystem::Fan, Subsystem::Thermal, Subsystem::Led, Subsystem::Battery]
    );
    assert!(matches!(results[0].1, Err(Error::NoDriverDetected)));
    assert!(matches!(results[1].1, Err(Error::NoDriverDetected)));
    assert_eq!(
        results[2].1.as_ref().unwrap(),
        "/sys/class/leds/asus::kbd_backlight/brightness"
    );
    assert!(matches!(results[3].1, Err(Error::BatteryNotSupported)));
}

#[test]
fn resolve_prefers_asus_over_faustus() {
    let both = Sysfs::new()
        .with_node(Node::AsusFan, node(true, Some(false), "0"))
        .with_node(Node::FaustusFan, node(true, Some(false), "0"));
    assert_eq!(
        resolve_path(Subsystem::Fan, false, &both).unwrap(),
        "/sys/devices/platform/asus-nb-wmi/fan_boost_mode"
    );
    let faustus = Sysfs::new().with_node(Node::FaustusThermal, node(true, Some(false), "0"));
    assert_eq!(
        resolve_path(Subsystem::Thermal, false, &faustus).unwrap(),
        "/sys/devices/platform/faustus/throttle_thermal_policy"
    );
    assert!(matches!(
        resolve_path(Subsystem::Fan, false, &faustus),
        Err(Error::NoDriverDetected)
    ));
}

#[test]
fn resolve_battery_tries_each_location() {
    let batt = Sysfs::new().with_node(Node::BattLimit, node(true, Some(false), "80"));
    assert_eq!(
        resolve_path(Subsystem::Battery, false, &batt).unwrap(),
        "/sys/class/power_supply/BATT/charge_control_end_threshold"
    );
    let two = batt.with_node(Node::Bat1Limit, node(true, Some(false), "60"));
    assert_eq!(
        resolve_path(Subsystem::Battery, false, &two).unwrap(),
        "/sys/class/power_supply/BAT1/charge_control_end_threshold"
    );
}

#[test]
fn resolve_led_missing_names_the_node() {
    match resolve_path(Subsystem::Led, true, &Sysfs::new()) {
        Err(Error::NodeNotFound { path }) => {
            assert_eq!(path, "/sys/class/leds/asus::kbd_backlight/brightness")
        }
        other => panic!("unexpected result: {:?}", other),
    }
}

#[test]
fn resolve_for_write_refuses_readonly_nodes() {
    let ro = Sysfs::new().with_node(Node::AsusFan, node(true, Some(true), "0"));
    match resolve_path(Subsystem::Fan, true, &ro) {
        Err(Error::PermissionDenied { path }) => {
            assert_eq!(path, "/sys/devices/platform/asus-nb-wmi/fan_boost_mode")
        }
        other => panic!("unexpected result: {:?}", other),
    }
    // Reading is not refused.
    assert!(resolve_path(Subsystem::Fan, false, &ro).is_ok());
    // Unknown permissions count as read-only.
    let unknown = Sysfs::new().with_node(Node::Bat0Limit, node(true, None, "80"));
    assert!(matches!(
        resolve_path(Subsystem::Battery, true, &unknown),
        Err(Error::PermissionDenied { .. })
    ));
    let rw = Sysfs::new().with_node(Node::Bat0Limit, node(true, Some(false), "80"));
    assert!(resolve_path(Subsystem::Battery, true, &rw).is_ok());
}

#[test]
fn is_readonly_treats_unknown_as_readonly() {
    assert!(is_readonly(Some(true)));
    assert!(!is_readonly(Some(false)));
    assert!(is_readonly(None));
}

#[test]
fn nodes_are_listed_in_index_order() {
    let nodes = all_nodes();
    assert_eq!(nodes.len(), 8);
    for (i, n) in nodes.iter().enumerate() {
        assert_eq!(n.index(), i);
    }
    assert_eq!(Node::Bat0Limit.path(), "/sys/class/power_supply/BAT0/charge_control_end_threshold");
    assert_eq!(Node::AsusThermal.path(), "/sys/devices/platform/asus-nb-wmi/throttle_thermal_policy");
}

#[test]
fn candidates_follow_probe_order() {
    assert_eq!(candidates(Subsystem::Fan), vec![Node::AsusFan, Node::FaustusFan]);
    assert_eq!(candidates(Subsystem::Thermal), vec![Node::AsusThermal, Node::FaustusThermal]);
    assert_eq!(candidates(Subsystem::Led), vec![Node::LedBrightness]);
    assert_eq!(
        candidates(Subsystem::Battery),
        vec![Node::Bat0Limit, Node::Bat1Limit, Node::BattLimit]
    );
}

#[test]
fn subsystem_names() {
    assert_eq!(Subsystem::Fan.name(), "fan");
    assert_eq!(Subsystem::Thermal.name(), "thermal");
    assert_eq!(Subsystem::Led.name(), "led");
    assert_eq!(Subsystem::Battery.name(), "battery");
}

#[test]
fn absent_nodes_are_reported_absent() {
    let sysfs = Sysfs::new().with_node(Node::BattLimit, node(true, Some(true), "80"));
    assert!(sysfs.is_present(Node::BattLimit));
    assert!(!sysfs.is_present(Node::AsusFan));
    assert!(sysfs.readonly(Node::BattLimit));
    assert!(sysfs.readonly(Node::AsusFan));
}
