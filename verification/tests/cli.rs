use perfmode::cli::{
    BatteryAction, Cli, Command, FanAction, LedAction, ProfileName, Request, ThermalAction,
};
use perfmode::driver::Subsystem;

fn write_of(command: Command) -> (Subsystem, String, String) {
    match (Cli { command }).request() {
        Request::Write(s) => (s.subsystem, s.value, s.label),
        _ => panic!("expected a write"),
    }
}

fn get_of(command: Command) -> Subsystem {
    match (Cli { command }).request() {
        Request::Get(s) => s,
        _ => panic!("expected a read"),
    }
}

#[test]
fn commands_map_to_settings() {
    let w = |s: Subsystem, v: &str, l: &str| (s, v.to_string(), l.to_string());
    assert_eq!(write_of(Command::Fan { action: FanAction::Silent }), w(Subsystem::Fan, "2", "silent"));
    assert_eq!(write_of(Command::Fan { action: FanAction::Balanced }), w(Subsystem::Fan, "0", "balanced"));
    assert_eq!(write_of(Command::Fan { action: FanAction::Turbo }), w(Subsystem::Fan, "1", "turbo"));
    assert_eq!(
        write_of(Command::Thermal { action: ThermalAction::Overboost }),
        w(Subsystem::Thermal, "1", "overboost")
    );
    assert_eq!(
        write_of(Command::Thermal { action: ThermalAction::Default }),
        w(Subsystem::Thermal, "0", "default")
    );
    assert_eq!(write_of(Command::Led { action: LedAction::Med }), w(Subsystem::Led, "2", "med"));
    assert_eq!(
        write_of(Command::Battery { action: BatteryAction::SetLimit { limit: 60 } }),
        w(Subsystem::Battery, "60", "60%")
    );
}

#[test]
fn get_commands_read_their_subsystem() {
    assert_eq!(get_of(Command::Fan { action: FanAction::Get }), Subsystem::Fan);
    assert_eq!(get_of(Command::Thermal { action: ThermalAction::Get }), Subsystem::Thermal);
    assert_eq!(get_of(Command::Led { action: LedAction::Get }), Subsystem::Led);
    assert_eq!(get_of(Command::Battery { action: BatteryAction::Get }), Subsystem::Battery);
}

#[test]
fn status_and_profile_commands() {
    assert!(matches!((Cli { command: Command::Status }).request(), Request::Status));
    assert!(matches!(
        (Cli { command: Command::Profile { name: ProfileName::Gaming } }).request(),
        Request::Profile(ProfileName::Gaming)
    ));
    assert_eq!(ProfileName::Silent.name(), "silent");
    assert_eq!(ProfileName::Balanced.name(), "balanced");
    assert_eq!(ProfileName::Gaming.name(), "gaming");
}
