use perfmode::cli::ProfileName;
use perfmode::driver::{Node, NodeState, Subsystem, Sysfs};
use perfmode::error::Error;
use perfmode::operations::{
    battery_set, decode, fan_balanced, fan_silent, fan_turbo, get_current, led_max, led_med,
    led_min, led_off, profile_outcome, profile_settings, read_raw, status_report, ProfileRun,
    thermal_default, thermal_overboost, thermal_silent, Reading, Setting,
};

fn node(contents: &str) -> NodeState {
    NodeState { present: true, readonly: Some(false), contents: Ok(contents.to_string()) }
}

fn node_for(subsystem: Subsystem) -> Node {
    match subsystem {
        Subsystem::Fan => Node::AsusFan,
        Subsystem::Thermal => Node::AsusThermal,
        Subsystem::Led => Node::LedBrightness,
        Subsystem::Battery => Node::Bat0Limit,
    }
}

#[test]
fn decode_fan_values() {
    let p = "/tmp/fake";
    assert_eq!(decode(Subsystem::Fan, "0", p).unwrap(), "balanced");
    assert_eq!(decode(Subsystem::Fan, "1", p).unwrap(), "turbo");
    assert_eq!(decode(Subsystem::Fan, "2", p).unwrap(), "silent");
    assert!(decode(Subsystem::Fan, "9", p).is_err());
}

#[test]
fn decode_thermal_values() {
    let p = "/tmp/fake";
    assert_eq!(decode(Subsystem::Thermal, "0", p).unwrap(), "default");
    assert_eq!(decode(Subsystem::Thermal, "1", p).unwrap(), "overboost");
    assert_eq!(decode(Subsystem::Thermal, "2", p).unwrap(), "silent");
    assert!(decode(Subsystem::Thermal, "5", p).is_err());
}

#[test]
fn decode_led_values() {
    let p = "/tmp/fake";
    assert_eq!(decode(Subsystem::Led, "0", p).unwrap(), "off");
    assert_eq!(decode(Subsystem::Led, "1", p).unwrap(), "min");
    assert_eq!(decode(Subsystem::Led, "2", p).unwrap(), "med");
    assert_eq!(decode(Subsystem::Led, "3", p).unwrap(), "max");
    assert!(decode(Subsystem::Led, "7", p).is_err());
}

#[test]
fn decode_battery_appends_percent() {
    assert_eq!(decode(Subsystem::Battery, "80", "/tmp/fake").unwrap(), "80%");
    assert_eq!(decode(Subsystem::Battery, "", "/tmp/fake").unwrap(), "%");
}

#[test]
fn decode_unexpected_value_reports_path_and_value() {
    match decode(Subsystem::Led, "4", "/tmp/fake") {
        Err(Error::UnexpectedValue { path, value }) => {
            assert_eq!(path, "/tmp/fake");
            assert_eq!(value, "4");
        }
        other => panic!("unexpected result: {:?}", other),
    }
    // No trimming happens in decode itself.
    assert!(decode(Subsystem::Fan, " 1", "/tmp/fake").is_err());
}

#[test]
fn setters_write_documented_values() {
    let check = |s: Setting, sub: Subsystem, value: &str, label: &str| {
        assert_eq!(s.subsystem, sub);
        assert_eq!(s.value, value);
        assert_eq!(s.label, label);
    };
    check(fan_silent(), Subsystem::Fan, "2", "silent");
    check(fan_balanced(), Subsystem::Fan, "0", "balanced");
    check(fan_turbo(), Subsystem::Fan, "1", "turbo");
    check(thermal_silent(), Subsystem::Thermal, "2", "silent");
    check(thermal_default(), Subsystem::Thermal, "0", "default");
    check(thermal_overboost(), Subsystem::Thermal, "1", "overboost");
    check(led_off(), Subsystem::Led, "0", "off");
    check(led_min(), Subsystem::Led, "1", "min");
    check(led_med(), Subsystem::Led, "2", "med");
    check(led_max(), Subsystem::Led, "3", "max");
}

#[test]
fn battery_set_renders_limit_in_decimal() {
    for (limit, text) in [(0u8, "0"), (7, "7"), (60, "60"), (80, "80"), (100, "100"), (255, "255")] {
        let s = battery_set(limit);
        assert_eq!(s.subsystem, Subsystem::Battery);
        assert_eq!(s.value, text);
        assert_eq!(s.label, format!("{}%", text));
        assert_eq!(s.value, limit.to_string());
    }
}

#[test]
fn get_current_trims_and_decodes() {
    let sysfs = Sysfs::new()
        .with_node(Node::AsusFan, node("1\n"))
        .with_node(Node::AsusThermal, node(" 2 "))
        .with_node(Node::LedBrightness, node("3"))
        .with_node(Node::Bat1Limit, node("80\n"));
    assert_eq!(get_current(Subsystem::Fan, &sysfs).unwrap(), "turbo");
    assert_eq!(get_current(Subsystem::Thermal, &sysfs).unwrap(), "silent");
    assert_eq!(get_current(Subsystem::Led, &sysfs).unwrap(), "max");
    assert_eq!(get_current(Subsystem::Battery, &sysfs).unwrap(), "80%");
}

#[test]
fn get_current_reports_each_failure() {
    let empty = Sysfs::new();
    assert!(matches!(get_current(Subsystem::Fan, &empty), Err(Error::NoDriverDetected)));
    assert!(matches!(
        get_current(Subsystem::Battery, &empty),
        Err(Error::BatteryNotSupported)
    ));
    assert!(matches!(get_current(Subsystem::Led, &empty), Err(Error::NodeNotFound { .. })));

    let unreadable = Sysfs::new().with_node(
        Node::AsusFan,
        NodeState { present: true, readonly: Some(false), contents: Err("denied".to_string()) },
    );
    match get_current(Subsystem::Fan, &unreadable) {
        Err(Error::ReadFailed { path, source }) => {
            assert_eq!(path, "/sys/devices/platform/asus-nb-wmi/fan_boost_mode");
            assert_eq!(source, "denied");
        }
        other => panic!("unexpected result: {:?}", other),
    }

    let odd = Sysfs::new().with_node(Node::FaustusThermal, node("\t9\n"));
    match get_current(Subsystem::Thermal, &odd) {
        Err(Error::UnexpectedValue { path, value }) => {
            assert_eq!(path, "/sys/devices/platform/faustus/throttle_thermal_policy");
            assert_eq!(value, "9");
        }
        other => panic!("unexpected result: {:?}", other),
    }
}

#[test]
fn read_raw_trims_unicode_whitespace() {
    let sysfs = Sysfs::new().with_node(Node::LedBrightness, node("\u{3000} 2\u{a0}\r\n"));
    assert_eq!(read_raw(&sysfs, Node::LedBrightness).unwrap(), "2");
    assert!(matches!(read_raw(&sysfs, Node::AsusFan), Err(Error::ReadFailed { .. })));
}

#[test]
fn read_after_write_gives_the_label() {
    let mut settings = vec![
        fan_silent(),
        fan_balanced(),
        fan_turbo(),
        thermal_silent(),
        thermal_default(),
        thermal_overboost(),
        led_off(),
        led_min(),
        led_med(),
        led_max(),
    ];
    settings.push(battery_set(80));
    settings.push(battery_set(100));
    for s in settings {
        let written = Sysfs::new().with_node(node_for(s.subsystem), node(&format!("{}\n", s.value)));
        assert_eq!(get_current(s.subsystem, &written).unwrap(), s.label);
    }
}

#[test]
fn profiles_combine_fan_thermal_and_led() {
    let labels = |name: ProfileName| -> Vec<(Subsystem, String, String)> {
        profile_settings(name).into_iter().map(|s| (s.subsystem, s.value, s.label)).collect()
    };
    let t = |s: Subsystem, v: &str, l: &str| (s, v.to_string(), l.to_string());
    assert_eq!(
        labels(ProfileName::Silent),
        vec![
            t(Subsystem::Fan, "2", "silent"),
            t(Subsystem::Thermal, "2", "silent"),
            t(Subsystem::Led, "0", "off")
        ]
    );
    assert_eq!(
        labels(ProfileName::Balanced),
        vec![
            t(Subsystem::Fan, "0", "balanced"),
            t(Subsystem::Thermal, "0", "default"),
            t(Subsystem::Led, "1", "min")
        ]
    );
    assert_eq!(
        labels(ProfileName::Gaming),
        vec![
            t(Subsystem::Fan, "1", "turbo"),
            t(Subsystem::Thermal, "1", "overboost"),
            t(Subsystem::Led, "3", "max")
        ]
    );
}

#[test]
fn profile_outcome_fails_when_any_subsystem_failed() {
    assert!(profile_outcome(Vec::new()).is_ok());
    let failed = vec![(Subsystem::Led, Error::NodeNotFound { path: "x".to_string() })];
    match profile_outcome(failed) {
        Err(Error::NodeNotFound { path }) => assert_eq!(path, "x"),
        other => panic!("unexpected result: {:?}", other),
    }
    let two = vec![
        (Subsystem::Fan, Error::NoDriverDetected),
        (Subsystem::Led, Error::NodeNotFound { path: "x".to_string() }),
    ];
    assert!(matches!(profile_outcome(two), Err(Error::NoDriverDetected)));
}

#[test]
fn profile_run_attempts_every_step_after_a_failure() {
    let mut run = ProfileRun::start(ProfileName::Gaming);
    let mut attempted: Vec<(Subsystem, String)> = Vec::new();
    let mut outcomes = vec![
        Err(Error::PermissionDenied { path: "fan".to_string() }),
        Ok(()),
        Err(Error::NodeNotFound { path: "led".to_string() }),
    ]
    .into_iter();
    while let Some(setting) = run.next_step() {
        attempted.push((setting.subsystem, setting.label.clone()));
        run.record(outcomes.next().unwrap());
    }
    assert_eq!(
        attempted,
        vec![
            (Subsystem::Fan, "turbo".to_string()),
            (Subsystem::Thermal, "overboost".to_string()),
            (Subsystem::Led, "max".to_string())
        ]
    );
    let failed: Vec<Subsystem> = run.failures().iter().map(|(s, _)| *s).collect();
    assert_eq!(failed, vec![Subsystem::Fan, Subsystem::Led]);
    // Recording past the end changes nothing.
    run.record(Err(Error::NoDriverDetected));
    assert_eq!(run.failures().len(), 2);
    match run.finish() {
        Err(Error::PermissionDenied { path }) => assert_eq!(path, "fan"),
        other => panic!("unexpected result: {:?}", other),
    }
}

#[test]
fn profile_run_succeeds_when_every_step_succeeds() {
    let mut run = ProfileRun::start(ProfileName::Silent);
    let mut n = 0;
    while run.next_step().is_some() {
        run.record(Ok(()));
        n += 1;
    }
    assert_eq!(n, 3);
    assert!(run.failures().is_empty());
    assert!(run.finish().is_ok());
}

#[test]
fn status_report_covers_every_subsystem() {
    let sysfs = Sysfs::new()
        .with_node(Node::FaustusFan, node("0\n"))
        .with_node(Node::LedBrightness, node("8"))
        .with_node(
            Node::BattLimit,
            NodeState { present: true, readonly: None, contents: Err("io".to_string()) },
        );
    let report = status_report(&sysfs);
    assert_eq!(report.len(), 4);
    assert_eq!(report[0].0, Subsystem::Fan);
    assert!(matches!(&report[0].1, Reading::Value(v) if v == "balanced"));
    assert_eq!(report[1].0, Subsystem::Thermal);
    assert!(matches!(&report[1].1, Reading::Unavailable(Error::NoDriverDetected)));
    assert_eq!(report[2].0, Subsystem::Led);
    assert!(matches!(&report[2].1, Reading::Failed(Error::UnexpectedValue { .. })));
    assert_eq!(report[3].0, Subsystem::Battery);
    assert!(matches!(&report[3].1, Reading::Failed(Error::ReadFailed { .. })));
}

#[test]
fn decoded_modes_are_settable_and_distinct() {
    let setters = vec![
        fan_silent(),
        fan_balanced(),
        fan_turbo(),
        thermal_silent(),
        thermal_default(),
        thermal_overboost(),
        led_off(),
        led_min(),
        led_med(),
        led_max(),
    ];
    for sub in [Subsystem::Fan, Subsystem::Thermal, Subsystem::Led] {
        let mut labels: Vec<String> = Vec::new();
        for raw in ["0", "1", "2", "3", "4", "10", ""] {
            if let Ok(label) = decode(sub, raw, "/tmp/fake") {
                assert!(setters
                    .iter()
                    .any(|s| s.subsystem == sub && s.value == raw && s.label == label));
                assert!(!labels.contains(&label));
                labels.push(label);
            }
        }
        assert_eq!(labels.len(), if sub == Subsystem::Led { 4 } else { 3 });
    }
}
