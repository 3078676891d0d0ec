//! The commands perfmode understands, and what each one asks for.
use vstd::prelude::*;

use crate::driver::Subsystem;
use crate::operations::{
    battery_set, fan_balanced, fan_silent, fan_turbo, led_max, led_med, led_min, led_off,
    setting, thermal_default, thermal_overboost, thermal_silent, Setting, SettingView,
};
use crate::text::decimal;

verus! {

/// A parsed command line.
pub struct Cli {
    pub command: Command,
}

/// The top-level command.
#[allow(inconsistent_fields)]
pub enum Command {
    /// Control the fan boost mode.
    Fan { action: FanAction },
    /// Control the thermal throttle policy.
    Thermal { action: ThermalAction },
    /// Control the keyboard backlight brightness.
    Led { action: LedAction },
    /// Control the battery charge limit.
    Battery { action: BatteryAction },
    /// Show the current status of all subsystems.
    Status,
    /// Apply a predefined profile.
    Profile { name: ProfileName },
}

/// What to do with the fan.
#[derive(Debug, Clone, Copy, PartialEq, Eq, Structural)]
pub enum FanAction {
    Silent,
    Balanced,
    Turbo,
    Get,
}

/// What to do with the thermal policy.
#[derive(Debug, Clone, Copy, PartialEq, Eq, Structural)]
pub enum ThermalAction {
    Silent,
    Default,
    Overboost,
    Get,
}

/// What to do with the keyboard backlight.
#[derive(Debug, Clone, Copy, PartialEq, Eq, Structural)]
pub enum LedAction {
    Off,
    Min,
    Med,
    Max,
    Get,
}

/// What to do with the battery charge limit.
#[derive(Debug, Clone, Copy, PartialEq, Eq, Structural)]
pub enum BatteryAction {
    /// Set the charge limit to this percentage.
    SetLimit { limit: u8 },
    Get,
}

/// A predefined profile.
#[derive(Debug, Clone, Copy, PartialEq, Eq, Structural)]
pub enum ProfileName {
    /// Silent fan, silent thermal policy, backlight off.
    Silent,
    /// Balanced fan, default thermal policy, backlight at its minimum.
    Balanced,
    /// Turbo fan, overboost thermal policy, backlight at its maximum.
    Gaming,
}

/// The name under which a profile is announced.
pub open spec fn profile_name(p: ProfileName) -> Seq<char> {
    match p {
        ProfileName::Silent => "silent"@,
        ProfileName::Balanced => "balanced"@,
        ProfileName::Gaming => "gaming"@,
    }
}

impl ProfileName {
    /// The name under which the profile is announced.
    pub fn name(&self) -> (s: &'static str)
        ensures
            s@ == profile_name(*self),
    {
        match self {
            ProfileName::Silent => "silent",
            ProfileName::Balanced => "balanced",
            ProfileName::Gaming => "gaming",
        }
    }
}

/// What a command asks perfmode to do.
pub enum Request {
    /// Write a setting.
    Write(Setting),
    /// Show the current state of a subsystem.
    Get(Subsystem),
    /// Show the state of every subsystem.
    Status,
    /// Apply a profile.
    Profile(ProfileName),
}

/// A [`Request`] with its text taken as character sequences.
pub enum RequestView {
    Write(SettingView),
    Get(Subsystem),
    Status,
    Profile(ProfileName),
}

impl View for Request {
    type V = RequestView;

    open spec fn view(&self) -> RequestView {
        match self {
            Request::Write(s) => RequestView::Write(s@),
            Request::Get(s) => RequestView::Get(*s),
            Request::Status => RequestView::Status,
            Request::Profile(p) => RequestView::Profile(*p),
        }
    }
}

/// What command `c` asks for.
pub open spec fn request_spec(c: Command) -> RequestView {
    match c {
        Command::Fan { action } => match action {
            FanAction::Silent => RequestView::Write(setting(Subsystem::Fan, "2"@, "silent"@)),
            FanAction::Balanced => RequestView::Write(setting(Subsystem::Fan, "0"@, "balanced"@)),
            FanAction::Turbo => RequestView::Write(setting(Subsystem::Fan, "1"@, "turbo"@)),
            FanAction::Get => RequestView::Get(Subsystem::Fan),
        },
        Command::Thermal { action } => match action {
            ThermalAction::Silent => RequestView::Write(
                setting(Subsystem::Thermal, "2"@, "silent"@),
            ),
            ThermalAction::Default => RequestView::Write(
                setting(Subsystem::Thermal, "0"@, "default"@),
            ),
            ThermalAction::Overboost => RequestView::Write(
                setting(Subsystem::Thermal, "1"@, "overboost"@),
            ),
            ThermalAction::Get => RequestView::Get(Subsystem::Thermal),
        },
        Command::Led { action } => match action {
            LedAction::Off => RequestView::Write(setting(Subsystem::Led, "0"@, "off"@)),
            LedAction::Min => RequestView::Write(setting(Subsystem::Led, "1"@, "min"@)),
            LedAction::Med => RequestView::Write(setting(Subsystem::Led, "2"@, "med"@)),
            LedAction::Max => RequestView::Write(setting(Subsystem::Led, "3"@, "max"@)),
            LedAction::Get => RequestView::Get(Subsystem::Led),
        },
        Command::Battery { action } => match action {
            BatteryAction::SetLimit { limit } => RequestView::Write(
                setting(
                    Subsystem::Battery,
                    decimal(limit as nat),
                    decimal(limit as nat) + "%"@,
                ),
            ),
            BatteryAction::Get => RequestView::Get(Subsystem::Battery),
        },
        Command::Status => RequestView::Status,
        Command::Profile { name } => RequestView::Profile(name),
    }
}

impl Cli {
    /// What the command line asks perfmode to do.
    pub fn request(&self) -> (r: Request)
        ensures
            r@ == request_spec(self.command),
    {
        match &self.command {
            Command::Fan { action } => match action {
                FanAction::Silent => Request::Write(fan_silent()),
                FanAction::Balanced => Request::Write(fan_balanced()),
                FanAction::Turbo => Request::Write(fan_turbo()),
                FanAction::Get => Request::Get(Subsystem::Fan),
            },
            Command::Thermal { action } => match action {
                ThermalAction::Silent => Request::Write(thermal_silent()),
                ThermalAction::Default => Request::Write(thermal_default()),
                ThermalAction::Overboost => Request::Write(thermal_overboost()),
                ThermalAction::Get => Request::Get(Subsystem::Thermal),
            },
            Command::Led { action } => match action {
                LedAction::Off => Request::Write(led_off()),
                LedAction::Min => Request::Write(led_min()),
                LedAction::Med => Request::Write(led_med()),
                LedAction::Max => Request::Write(led_max()),
                LedAction::Get => Request::Get(Subsystem::Led),
            },
            Command::Battery { action } => match action {
                BatteryAction::SetLimit { limit } => Request::Write(battery_set(*limit)),
                BatteryAction::Get => Request::Get(Subsystem::Battery),
            },
            Command::Status => Request::Status,
            Command::Profile { name } => Request::Profile(*name),
        }
    }
}

} // verus!
