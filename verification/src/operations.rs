//! What perfmode reads from and writes to each subsystem: the encoding of
//! modes as sysfs values, the reading of a subsystem's current state, the
//! settings behind each command and profile, and the status report.
use vstd::prelude::*;

use crate::cli::ProfileName;
use crate::driver::{
    all_subsystems, locate, locate_spec, node_path, resolve_path, resolve_spec, state_of,
    Node, NodeView, Subsystem, Sysfs,
};
use crate::error::{view_result, Error, ErrorView};
use crate::text::{decimal, str_eq, trim, trimmed, u8_decimal};

verus! {

// ── Encoding ─────────────────────────────────────────────────────────

/// The label that a raw sysfs value stands for, where it stands for one.
/// Fan: 0 balanced, 1 turbo, 2 silent. Thermal: 0 default, 1 overboost,
/// 2 silent. LED: 0 off, 1 min, 2 med, 3 max. Battery: the percentage.
pub open spec fn label_of(s: Subsystem, raw: Seq<char>) -> Option<Seq<char>> {
    match s {
        Subsystem::Led => if raw == "0"@ {
            Some("off"@)
        } else if raw == "1"@ {
            Some("min"@)
        } else if raw == "2"@ {
            Some("med"@)
        } else if raw == "3"@ {
            Some("max"@)
        } else {
            None
        },
        Subsystem::Fan => if raw == "0"@ {
            Some("balanced"@)
        } else if raw == "1"@ {
            Some("turbo"@)
        } else if raw == "2"@ {
            Some("silent"@)
        } else {
            None
        },
        Subsystem::Thermal => if raw == "0"@ {
            Some("default"@)
        } else if raw == "1"@ {
            Some("overboost"@)
        } else if raw == "2"@ {
            Some("silent"@)
        } else {
            None
        },
        Subsystem::Battery => Some(raw + "%"@),
    }
}

/// The label for `raw` read from `path`, or `UnexpectedValue` where `raw`
/// stands for none.
pub open spec fn decode_spec(s: Subsystem, raw: Seq<char>, path: Seq<char>) -> Result<
    Seq<char>,
    ErrorView,
> {
    match label_of(s, raw) {
        Some(l) => Ok(l),
        None => Err(ErrorView::UnexpectedValue { path, value: raw }),
    }
}

fn unexpected(path: &str, raw: &str) -> (e: Error)
    ensures
        e@ == (ErrorView::UnexpectedValue { path: path@, value: raw@ }),
{
    Error::UnexpectedValue { path: path.to_owned(), value: raw.to_owned() }
}

/// Turns a raw sysfs value of subsystem `subsystem`, read from `path`,
/// into a human-readable label.
pub fn decode(subsystem: Subsystem, raw: &str, path: &str) -> (r: Result<String, Error>)
    ensures
        view_result(r) == decode_spec(subsystem, raw@, path@),
{
    match subsystem {
        Subsystem::Led => {
            if str_eq(raw, "0") {
                Ok("off".to_owned())
            } else if str_eq(raw, "1") {
                Ok("min".to_owned())
            } else if str_eq(raw, "2") {
                Ok("med".to_owned())
            } else if str_eq(raw, "3") {
                Ok("max".to_owned())
            } else {
                Err(unexpected(path, raw))
            }
        },
        Subsystem::Fan => {
            if str_eq(raw, "0") {
                Ok("balanced".to_owned())
            } else if str_eq(raw, "1") {
                Ok("turbo".to_owned())
            } else if str_eq(raw, "2") {
                Ok("silent".to_owned())
            } else {
                Err(unexpected(path, raw))
            }
        },
        Subsystem::Thermal => {
            if str_eq(raw, "0") {
                Ok("default".to_owned())
            } else if str_eq(raw, "1") {
                Ok("overboost".to_owned())
            } else if str_eq(raw, "2") {
                Ok("silent".to_owned())
            } else {
                Err(unexpected(path, raw))
            }
        },
        Subsystem::Battery => {
            let mut label: String = raw.to_owned();
            label.append("%");
            Ok(label)
        },
    }
}

// ── Reading ──────────────────────────────────────────────────────────

/// What reading `node` gives: its contents without surrounding whitespace,
/// or `ReadFailed` with the cause.
pub open spec fn read_spec(env: Seq<NodeView>, node: Node) -> Result<Seq<char>, ErrorView> {
    match state_of(env, node).contents {
        Ok(text) => Ok(trimmed(text)),
        Err(cause) => Err(ErrorView::ReadFailed { path: node_path(node), source: cause }),
    }
}

/// The contents of `node`, without surrounding whitespace.
pub fn read_raw(sysfs: &Sysfs, node: Node) -> (r: Result<String, Error>)
    ensures
        view_result(r) == read_spec(sysfs@, node),
{
    let idx: usize = node.index();
    if idx < sysfs.nodes.len() {
        match &sysfs.nodes[idx].contents {
            Ok(text) => Ok(trim(text.as_str()).to_owned()),
            Err(cause) => Err(
                Error::ReadFailed { path: node.path().to_owned(), source: cause.clone() },
            ),
        }
    } else {
        Err(Error::ReadFailed { path: node.path().to_owned(), source: String::new() })
    }
}

/// The label of the current state of subsystem `s` in `env`: its node is
/// located for reading, read, and decoded.
pub open spec fn current_spec(s: Subsystem, env: Seq<NodeView>) -> Result<Seq<char>, ErrorView> {
    match locate_spec(s, false, env) {
        Err(e) => Err(e),
        Ok(n) => match read_spec(env, n) {
            Err(e) => Err(e),
            Ok(raw) => decode_spec(s, raw, node_path(n)),
        },
    }
}

/// The human-readable label of the current state of `subsystem`.
pub fn get_current(subsystem: Subsystem, sysfs: &Sysfs) -> (r: Result<String, Error>)
    ensures
        view_result(r) == current_spec(subsystem, sysfs@),
{
    let node: Node = match locate(subsystem, false, sysfs) {
        Ok(n) => n,
        Err(e) => return Err(e),
    };
    let raw: String = match read_raw(sysfs, node) {
        Ok(raw) => raw,
        Err(e) => return Err(e),
    };
    decode(subsystem, raw.as_str(), node.path())
}

// ── Settings ─────────────────────────────────────────────────────────

/// A value to write to a subsystem, with the label under which it is
/// reported.
pub struct Setting {
    pub subsystem: Subsystem,
    pub value: String,
    pub label: String,
}

/// A [`Setting`] with its text taken as character sequences.
pub struct SettingView {
    pub subsystem: Subsystem,
    pub value: Seq<char>,
    pub label: Seq<char>,
}

impl View for Setting {
    type V = SettingView;

    open spec fn view(&self) -> SettingView {
        SettingView { subsystem: self.subsystem, value: self.value@, label: self.label@ }
    }
}

/// The setting that writes `value` to `s`, reported as `label`.
pub open spec fn setting(s: Subsystem, value: Seq<char>, label: Seq<char>) -> SettingView {
    SettingView { subsystem: s, value, label }
}

fn make_setting(subsystem: Subsystem, value: &str, label: &str) -> (r: Setting)
    ensures
        r@ == setting(subsystem, value@, label@),
{
    Setting { subsystem, value: value.to_owned(), label: label.to_owned() }
}

/// Fan in silent mode.
pub fn fan_silent() -> (r: Setting)
    ensures
        r@ == setting(Subsystem::Fan, "2"@, "silent"@),
{
    make_setting(Subsystem::Fan, "2", "silent")
}

/// Fan in balanced mode.
pub fn fan_balanced() -> (r: Setting)
    ensures
        r@ == setting(Subsystem::Fan, "0"@, "balanced"@),
{
    make_setting(Subsystem::Fan, "0", "balanced")
}

/// Fan in turbo mode.
pub fn fan_turbo() -> (r: Setting)
    ensures
        r@ == setting(Subsystem::Fan, "1"@, "turbo"@),
{
    make_setting(Subsystem::Fan, "1", "turbo")
}

/// Silent thermal policy.
pub fn thermal_silent() -> (r: Setting)
    ensures
        r@ == setting(Subsystem::Thermal, "2"@, "silent"@),
{
    make_setting(Subsystem::Thermal, "2", "silent")
}

/// Default (balanced) thermal policy.
pub fn thermal_default() -> (r: Setting)
    ensures
        r@ == setting(Subsystem::Thermal, "0"@, "default"@),
{
    make_setting(Subsystem::Thermal, "0", "default")
}

/// Overboost (performance) thermal policy.
pub fn thermal_overboost() -> (r: Setting)
    ensures
        r@ == setting(Subsystem::Thermal, "1"@, "overboost"@),
{
    make_setting(Subsystem::Thermal, "1", "overboost")
}

/// Keyboard backlight off.
pub fn led_off() -> (r: Setting)
    ensures
        r@ == setting(Subsystem::Led, "0"@, "off"@),
{
    make_setting(Subsystem::Led, "0", "off")
}

/// Keyboard backlight at its minimum.
pub fn led_min() -> (r: Setting)
    ensures
        r@ == setting(Subsystem::Led, "1"@, "min"@),
{
    make_setting(Subsystem::Led, "1", "min")
}

/// Keyboard backlight at medium.
pub fn led_med() -> (r: Setting)
    ensures
        r@ == setting(Subsystem::Led, "2"@, "med"@),
{
    make_setting(Subsystem::Led, "2", "med")
}

/// Keyboard backlight at its maximum.
pub fn led_max() -> (r: Setting)
    ensures
        r@ == setting(Subsystem::Led, "3"@, "max"@),
{
    make_setting(Subsystem::Led, "3", "max")
}

/// Battery charging capped at `limit` percent: the value is `limit` in
/// decimal, the label that number followed by `%`.
pub fn battery_set(limit: u8) -> (r: Setting)
    ensures
        r@ == setting(Subsystem::Battery, decimal(limit as nat), decimal(limit as nat) + "%"@),
{
    let value: String = u8_decimal(limit);
    let mut label: String = value.clone();
    label.append("%");
    Setting { subsystem: Subsystem::Battery, value, label }
}

// ── Profiles ─────────────────────────────────────────────────────────

/// The settings that a profile applies, in order: fan, thermal, LED.
pub open spec fn profile_spec(name: ProfileName) -> Seq<SettingView> {
    match name {
        ProfileName::Silent => seq![
            setting(Subsystem::Fan, "2"@, "silent"@),
            setting(Subsystem::Thermal, "2"@, "silent"@),
            setting(Subsystem::Led, "0"@, "off"@),
        ],
        ProfileName::Balanced => seq![
            setting(Subsystem::Fan, "0"@, "balanced"@),
            setting(Subsystem::Thermal, "0"@, "default"@),
            setting(Subsystem::Led, "1"@, "min"@),
        ],
        ProfileName::Gaming => seq![
            setting(Subsystem::Fan, "1"@, "turbo"@),
            setting(Subsystem::Thermal, "1"@, "overboost"@),
            setting(Subsystem::Led, "3"@, "max"@),
        ],
    }
}

/// The settings that profile `name` applies: silent fan, silent thermal
/// policy and backlight off; balanced fan, default thermal policy and
/// backlight at its minimum; turbo fan, overboost thermal policy and
/// backlight at its maximum.
pub fn profile_settings(name: ProfileName) -> (v: Vec<Setting>)
    ensures
        v.len() == 3,
        forall|i: int| 0 <= i < 3 ==> (#[trigger] v@[i])@ == profile_spec(name)[i],
{
    let mut v: Vec<Setting> = Vec::new();
    match name {
        ProfileName::Silent => {
            v.push(fan_silent());
            v.push(thermal_silent());
            v.push(led_off());
        },
        ProfileName::Balanced => {
            v.push(fan_balanced());
            v.push(thermal_default());
            v.push(led_min());
        },
        ProfileName::Gaming => {
            v.push(fan_turbo());
            v.push(thermal_overboost());
            v.push(led_max());
        },
    }
    v
}

/// How applying a profile ends, given the subsystems that failed, in the
/// order their settings were attempted: success where none failed, otherwise
/// the error of the first failure.
pub fn profile_outcome(failed: Vec<(Subsystem, Error)>) -> (r: Result<(), Error>)
    ensures
        r is Ok <==> failed.len() == 0,
        failed.len() > 0 ==> (r matches Err(e) && e@ == failed@[0].1@),
{
    if failed.len() == 0 {
        Ok(())
    } else {
        let mut failed: Vec<(Subsystem, Error)> = failed;
        let first: (Subsystem, Error) = failed.remove(0);
        Err(first.1)
    }
}

/// A profile being applied: its settings, how many of them have been
/// attempted, and the subsystems whose setting failed, with their errors.
pub struct ProfileRun {
    steps: Vec<Setting>,
    next: usize,
    failed: Vec<(Subsystem, Error)>,
}

/// A [`ProfileRun`] with its text taken as character sequences.
pub struct RunView {
    pub steps: Seq<SettingView>,
    pub next: nat,
    pub failed: Seq<(Subsystem, ErrorView)>,
}

/// The run of profile `name` before any setting has been attempted.
pub open spec fn run_start(name: ProfileName) -> RunView {
    RunView { steps: profile_spec(name), next: 0, failed: Seq::empty() }
}

/// The run `r` once the outcome `o` of its next setting has been recorded:
/// the following setting comes next whatever `o` was, and a failure is
/// added to the failures.
pub open spec fn run_record(r: RunView, o: Result<(), ErrorView>) -> RunView {
    if r.next < r.steps.len() {
        RunView {
            steps: r.steps,
            next: r.next + 1,
            failed: match o {
                Ok(_) => r.failed,
                Err(e) => r.failed.push((r.steps[r.next as int].subsystem, e)),
            },
        }
    } else {
        r
    }
}

/// An outcome taken with its error as a view.
pub open spec fn view_outcome(o: Result<(), Error>) -> Result<(), ErrorView> {
    match o {
        Ok(_) => Ok(()),
        Err(e) => Err(e@),
    }
}

impl View for ProfileRun {
    type V = RunView;

    closed spec fn view(&self) -> RunView {
        RunView {
            steps: self.steps@.map_values(|s: Setting| s@),
            next: self.next as nat,
            failed: self.failed@.map_values(|f: (Subsystem, Error)| (f.0, f.1@)),
        }
    }
}

impl ProfileRun {
    /// Begins applying profile `name`; nothing has been attempted yet.
    pub fn start(name: ProfileName) -> (r: ProfileRun)
        ensures
            r@ == run_start(name),
    {
        let steps: Vec<Setting> = profile_settings(name);
        let r: ProfileRun = ProfileRun { steps, next: 0, failed: Vec::new() };
        assert(r@.steps =~= profile_spec(name));
        assert(r@.failed =~= Seq::<(Subsystem, ErrorView)>::empty());
        r
    }

    /// The setting to attempt now, or `None` once every setting has been
    /// attempted.
    pub fn next_step(&self) -> (s: Option<&Setting>)
        ensures
            self@.next < self@.steps.len() ==> (s matches Some(t) && t@
                == self@.steps[self@.next as int]),
            self@.next >= self@.steps.len() ==> s is None,
    {
        if self.next < self.steps.len() {
            Some(&self.steps[self.next])
        } else {
            None
        }
    }

    /// Records the outcome of the setting just attempted and moves on to the
    /// next one, whatever the outcome was.
    pub fn record(&mut self, outcome: Result<(), Error>)
        ensures
            final(self)@ == run_record(old(self)@, view_outcome(outcome)),
    {
        let ghost before = self@;
        if self.next < self.steps.len() {
            let subsystem: Subsystem = self.steps[self.next].subsystem;
            match outcome {
                Ok(()) => {},
                Err(e) => {
                    self.failed.push((subsystem, e));
                },
            }
            self.next = self.next + 1;
            assert(self@.steps =~= before.steps);
            assert(self@.failed =~= run_record(before, view_outcome(outcome)).failed);
        }
    }

    /// The subsystems whose setting failed so far, with their errors, in the
    /// order their settings were attempted.
    pub fn failures(&self) -> (f: &Vec<(Subsystem, Error)>)
        ensures
            f@.map_values(|p: (Subsystem, Error)| (p.0, p.1@)) == self@.failed,
    {
        &self.failed
    }

    /// How applying the profile ends: success where no setting failed,
    /// otherwise the error of the first failure.
    pub fn finish(self) -> (r: Result<(), Error>)
        ensures
            r is Ok <==> self@.failed.len() == 0,
            self@.failed.len() > 0 ==> (r matches Err(e) && e@ == self@.failed[0].1),
    {
        profile_outcome(self.failed)
    }
}

// ── Status ───────────────────────────────────────────────────────────

/// What the status report shows for one subsystem.
pub enum Reading {
    /// The subsystem's current label.
    Value(String),
    /// The subsystem's node was found but could not be read or decoded.
    Failed(Error),
    /// No node serves the subsystem.
    Unavailable(Error),
}

/// What the status report shows for subsystem `s` in `env`.
pub open spec fn reading_matches(r: Reading, s: Subsystem, env: Seq<NodeView>) -> bool {
    match resolve_spec(s, false, env) {
        Err(e) => r matches Reading::Unavailable(f) && f@ == e,
        Ok(_) => match current_spec(s, env) {
            Ok(label) => r matches Reading::Value(v) && v@ == label,
            Err(e) => r matches Reading::Failed(f) && f@ == e,
        },
    }
}

fn reading_for(s: Subsystem, sysfs: &Sysfs) -> (r: Reading)
    ensures
        reading_matches(r, s, sysfs@),
{
    match resolve_path(s, false, sysfs) {
        Ok(_path) => match get_current(s, sysfs) {
            Ok(label) => Reading::Value(label),
            Err(e) => Reading::Failed(e),
        },
        Err(e) => Reading::Unavailable(e),
    }
}

/// The current state of every subsystem, in the order fan, thermal, LED,
/// battery: its label, or why it could not be read, or why no node serves it.
pub fn status_report(sysfs: &Sysfs) -> (v: Vec<(Subsystem, Reading)>)
    ensures
        v.len() == 4,
        forall|i: int|
            0 <= i < 4 ==> (#[trigger] v@[i]).0 == all_subsystems()[i] && reading_matches(
                v@[i].1,
                all_subsystems()[i],
                sysfs@,
            ),
{
    let mut v: Vec<(Subsystem, Reading)> = Vec::new();
    v.push((Subsystem::Fan, reading_for(Subsystem::Fan, sysfs)));
    v.push((Subsystem::Thermal, reading_for(Subsystem::Thermal, sysfs)));
    v.push((Subsystem::Led, reading_for(Subsystem::Led, sysfs)));
    v.push((Subsystem::Battery, reading_for(Subsystem::Battery, sysfs)));
    v
}

} // verus!
