//! Properties that hold across the library's functions, stated over the
//! specifications that their contracts use, and proved.
use vstd::prelude::*;

use crate::driver::{
    first_existing, locate_spec, node_index, node_path, resolve_spec, state_of, Node, NodeView,
    Subsystem,
};
use crate::error::ErrorView;
use crate::cli::{
    profile_name, request_spec, BatteryAction, Command, FanAction, LedAction, ProfileName,
    RequestView, ThermalAction,
};
use crate::driver::subsystem_name;
use crate::operations::{
    current_spec, decode_spec, label_of, profile_spec, reading_matches, run_record, run_start,
    setting, Reading, RunView, SettingView,
};
use crate::driver::{all_subsystems, candidates_spec};
use crate::text::{digit, is_space, trimmed};
use crate::text::{all_space, decimal, lemma_decimal_tight, lemma_trim_padded, tight};

verus! {

/// The settings that the setters (`fan_*`, `thermal_*`, `led_*` and
/// `battery_set`) produce.
pub open spec fn known_setting(st: SettingView) -> bool {
    ||| st == setting(Subsystem::Fan, "2"@, "silent"@)
    ||| st == setting(Subsystem::Fan, "0"@, "balanced"@)
    ||| st == setting(Subsystem::Fan, "1"@, "turbo"@)
    ||| st == setting(Subsystem::Thermal, "2"@, "silent"@)
    ||| st == setting(Subsystem::Thermal, "0"@, "default"@)
    ||| st == setting(Subsystem::Thermal, "1"@, "overboost"@)
    ||| st == setting(Subsystem::Led, "0"@, "off"@)
    ||| st == setting(Subsystem::Led, "1"@, "min"@)
    ||| st == setting(Subsystem::Led, "2"@, "med"@)
    ||| st == setting(Subsystem::Led, "3"@, "max"@)
    ||| exists|limit: u8|
        st == setting(
            Subsystem::Battery,
            decimal(limit as nat),
            decimal(limit as nat) + "%"@,
        )
}

/// The snapshot `env` after `text` has been written to `node`.
pub open spec fn after_write(env: Seq<NodeView>, node: Node, text: Seq<char>) -> Seq<NodeView> {
    if node_index(node) < env.len() {
        let old = env[node_index(node) as int];
        env.update(
            node_index(node) as int,
            NodeView { present: old.present, readonly: old.readonly, contents: Ok(text) },
        )
    } else {
        env
    }
}

proof fn lemma_first_existing_presence(a: Seq<NodeView>, b: Seq<NodeView>, cands: Seq<Node>)
    requires
        forall|m: Node| #[trigger] state_of(a, m).present == state_of(b, m).present,
    ensures
        first_existing(a, cands) == first_existing(b, cands),
    decreases cands.len(),
{
    if cands.len() > 0 {
        assert(state_of(a, cands[0]).present == state_of(b, cands[0]).present);
        lemma_first_existing_presence(a, b, cands.drop_first());
    }
}

proof fn lemma_first_existing_present(env: Seq<NodeView>, cands: Seq<Node>)
    ensures
        first_existing(env, cands) matches Some(n) ==> state_of(env, n).present,
    decreases cands.len(),
{
    if cands.len() > 0 {
        lemma_first_existing_present(env, cands.drop_first());
    }
}

proof fn lemma_literals()
    ensures
        "0"@ =~= seq!['0'],
        "1"@ =~= seq!['1'],
        "2"@ =~= seq!['2'],
        "3"@ =~= seq!['3'],
{
    reveal_strlit("0");
    reveal_strlit("1");
    reveal_strlit("2");
    reveal_strlit("3");
}

/// What a read gives back of a write: once the value of any setting has been
/// written to the node that serves its subsystem (with any whitespace around
/// it, such as the newline a sysfs node adds), reading that subsystem gives
/// the setting's label.
pub proof fn law_read_after_write(
    st: SettingView,
    env: Seq<NodeView>,
    pre: Seq<char>,
    post: Seq<char>,
)
    requires
        known_setting(st),
        locate_spec(st.subsystem, true, env) is Ok,
        all_space(pre),
        all_space(post),
    ensures
        current_spec(
            st.subsystem,
            after_write(env, locate_spec(st.subsystem, true, env)->Ok_0, pre + st.value + post),
        ) == Ok::<Seq<char>, ErrorView>(st.label),
{
    let s = st.subsystem;
    let n = locate_spec(s, true, env)->Ok_0;
    let text = pre + st.value + post;
    let env2 = after_write(env, n, text);
    lemma_first_existing_present(env, crate::driver::candidates_spec(s));
    assert(state_of(env, n).present);
    assert(node_index(n) < env.len());
    assert forall|m: Node| #[trigger] state_of(env, m).present == state_of(env2, m).present by {
        if node_index(m) == node_index(n) {
        }
    }
    lemma_first_existing_presence(env, env2, crate::driver::candidates_spec(s));
    assert(locate_spec(s, false, env2) == Ok::<Node, ErrorView>(n));
    assert(state_of(env2, n).contents == Ok::<Seq<char>, Seq<char>>(text));
    lemma_literals();
    if s == Subsystem::Battery {
        let limit = choose|limit: u8|
            st == setting(
                Subsystem::Battery,
                decimal(limit as nat),
                decimal(limit as nat) + "%"@,
            );
        lemma_decimal_tight(limit as nat);
        lemma_trim_padded(pre, st.value, post);
    } else {
        assert(tight(st.value));
        lemma_trim_padded(pre, st.value, post);
    }
}

/// Writing locates the node that reading locates: a write is served by the
/// same node as a read, or refused with `PermissionDenied` on that node; and
/// where reading finds no node, writing fails with the same error.
pub proof fn law_write_uses_read_node(s: Subsystem, env: Seq<NodeView>)
    ensures
        resolve_spec(s, true, env) is Ok ==> resolve_spec(s, false, env) == resolve_spec(
            s,
            true,
            env,
        ),
        resolve_spec(s, false, env) matches Ok(p) ==> (resolve_spec(s, true, env) == Ok::<
            Seq<char>,
            ErrorView,
        >(p) || resolve_spec(s, true, env) == Err::<Seq<char>, ErrorView>(
            ErrorView::PermissionDenied { path: p },
        )),
        resolve_spec(s, false, env) is Err ==> resolve_spec(s, true, env) == resolve_spec(
            s,
            false,
            env,
        ),
{
}

/// The asus-nb-wmi driver is probed before the faustus driver: for fan and
/// thermal, a present asus-nb-wmi node is the one read; the faustus node is
/// read only where the asus-nb-wmi node is absent; with neither there is no
/// driver. The batteries are tried in the order BAT0, BAT1, BATT.
pub proof fn law_probe_order(env: Seq<NodeView>)
    ensures
        state_of(env, Node::LedBrightness).present ==> resolve_spec(Subsystem::Led, false, env)
            == Ok::<Seq<char>, ErrorView>(node_path(Node::LedBrightness)),
        !state_of(env, Node::LedBrightness).present ==> resolve_spec(Subsystem::Led, false, env)
            == Err::<Seq<char>, ErrorView>(
            ErrorView::NodeNotFound { path: node_path(Node::LedBrightness) },
        ),
        state_of(env, Node::AsusFan).present ==> resolve_spec(Subsystem::Fan, false, env) == Ok::<
            Seq<char>,
            ErrorView,
        >(node_path(Node::AsusFan)),
        !state_of(env, Node::AsusFan).present && state_of(env, Node::FaustusFan).present
            ==> resolve_spec(Subsystem::Fan, false, env) == Ok::<Seq<char>, ErrorView>(
            node_path(Node::FaustusFan),
        ),
        !state_of(env, Node::AsusFan).present && !state_of(env, Node::FaustusFan).present
            ==> resolve_spec(Subsystem::Fan, false, env) == Err::<Seq<char>, ErrorView>(
            ErrorView::NoDriverDetected,
        ),
        state_of(env, Node::AsusThermal).present ==> resolve_spec(Subsystem::Thermal, false, env)
            == Ok::<Seq<char>, ErrorView>(node_path(Node::AsusThermal)),
        !state_of(env, Node::AsusThermal).present && state_of(env, Node::FaustusThermal).present
            ==> resolve_spec(Subsystem::Thermal, false, env) == Ok::<Seq<char>, ErrorView>(
            node_path(Node::FaustusThermal),
        ),
        !state_of(env, Node::AsusThermal).present && !state_of(env, Node::FaustusThermal).present
            ==> resolve_spec(Subsystem::Thermal, false, env) == Err::<Seq<char>, ErrorView>(
            ErrorView::NoDriverDetected,
        ),
        state_of(env, Node::Bat0Limit).present ==> resolve_spec(Subsystem::Battery, false, env)
            == Ok::<Seq<char>, ErrorView>(node_path(Node::Bat0Limit)),
        !state_of(env, Node::Bat0Limit).present && state_of(env, Node::Bat1Limit).present
            ==> resolve_spec(Subsystem::Battery, false, env) == Ok::<Seq<char>, ErrorView>(
            node_path(Node::Bat1Limit),
        ),
        !state_of(env, Node::Bat0Limit).present && !state_of(env, Node::Bat1Limit).present
            && state_of(env, Node::BattLimit).present ==> resolve_spec(
            Subsystem::Battery,
            false,
            env,
        ) == Ok::<Seq<char>, ErrorView>(node_path(Node::BattLimit)),
        !state_of(env, Node::Bat0Limit).present && !state_of(env, Node::Bat1Limit).present
            && !state_of(env, Node::BattLimit).present ==> resolve_spec(
            Subsystem::Battery,
            false,
            env,
        ) == Err::<Seq<char>, ErrorView>(ErrorView::BatteryNotSupported),
{
    reveal_with_fuel(first_existing, 4);
    let f = crate::driver::candidates_spec(Subsystem::Fan);
    assert(f.drop_first() =~= seq![Node::FaustusFan]);
    assert(f.drop_first().drop_first().len() == 0);
    let t = crate::driver::candidates_spec(Subsystem::Thermal);
    assert(t.drop_first() =~= seq![Node::FaustusThermal]);
    assert(t.drop_first().drop_first().len() == 0);
    let b = crate::driver::candidates_spec(Subsystem::Battery);
    assert(b.drop_first() =~= seq![Node::Bat1Limit, Node::BattLimit]);
    assert(b.drop_first().drop_first() =~= seq![Node::BattLimit]);
    assert(b.drop_first().drop_first().drop_first().len() == 0);
}

/// Every mode that reading the fan, the thermal policy or the backlight can
/// report is one that a setter writes, under the same label.
pub proof fn law_modes_settable(s: Subsystem, raw: Seq<char>)
    requires
        s != Subsystem::Battery,
        label_of(s, raw) is Some,
    ensures
        known_setting(setting(s, raw, label_of(s, raw)->Some_0)),
{
}

/// Reading never reports two different raw values under one label.
pub proof fn law_labels_distinct(s: Subsystem, a: Seq<char>, b: Seq<char>)
    requires
        label_of(s, a) is Some,
        label_of(s, a) == label_of(s, b),
    ensures
        a == b,
{
    lemma_literals();
    reveal_strlit("off");
    reveal_strlit("min");
    reveal_strlit("med");
    reveal_strlit("max");
    reveal_strlit("balanced");
    reveal_strlit("turbo");
    reveal_strlit("silent");
    reveal_strlit("default");
    reveal_strlit("overboost");
    reveal_strlit("%");
    if s == Subsystem::Battery {
        assert(a + "%"@ == b + "%"@);
        assert(a.len() == b.len());
        assert forall|i: int| 0 <= i < a.len() implies a[i] == b[i] by {
            assert((a + "%"@)[i] == a[i]);
            assert((b + "%"@)[i] == b[i]);
        }
        assert(a =~= b);
    } else {
        assert("min"@[1] != "med"@[1]);
        assert("min"@[0] != "off"@[0]);
        assert("min"@[1] != "max"@[1]);
        assert("med"@[1] != "max"@[1]);
        assert("off"@[0] != "med"@[0]);
        assert("off"@[0] != "max"@[0]);
        assert("balanced"@.len() != "turbo"@.len());
        assert("balanced"@.len() != "silent"@.len());
        assert("turbo"@.len() != "silent"@.len());
        assert("default"@.len() != "overboost"@.len());
        assert("default"@.len() != "silent"@.len());
        assert("overboost"@.len() != "silent"@.len());
    }
}

/// The failures recorded once the outcomes `o[0..k]` of `steps[0..k]` have
/// been recorded: the subsystem and error of each outcome that failed, in order.
pub open spec fn failures_upto(
    steps: Seq<SettingView>,
    o: Seq<Result<(), ErrorView>>,
    k: nat,
) -> Seq<(Subsystem, ErrorView)>
    decreases k,
{
    if k == 0 {
        Seq::empty()
    } else {
        let f = failures_upto(steps, o, (k - 1) as nat);
        match o[k - 1] {
            Ok(_) => f,
            Err(e) => f.push((steps[k - 1].subsystem, e)),
        }
    }
}

/// The run of profile `name` once the outcomes `o[0..k]` have been recorded.
pub open spec fn run_after(name: ProfileName, o: Seq<Result<(), ErrorView>>, k: nat) -> RunView
    decreases k,
{
    if k == 0 {
        run_start(name)
    } else {
        run_record(run_after(name, o, (k - 1) as nat), o[k - 1])
    }
}

/// Applying a profile attempts every one of its settings, in order, whatever
/// the earlier ones returned: once `k` outcomes have been recorded, exactly
/// `k` settings have been attempted and the failures are those of the
/// outcomes that failed, in order, each with its subsystem. After all three,
/// no failure was recorded exactly when every setting succeeded.
pub proof fn law_profile_attempts_every_step(
    name: ProfileName,
    o: Seq<Result<(), ErrorView>>,
    k: nat,
)
    requires
        k <= 3,
    ensures
        run_after(name, o, k).steps == profile_spec(name),
        run_after(name, o, k).next == k,
        run_after(name, o, k).failed == failures_upto(profile_spec(name), o, k),
        (failures_upto(profile_spec(name), o, k).len() == 0) <==> (forall|i: int|
            0 <= i < k ==> #[trigger] o[i] is Ok),
    decreases k,
{
    if k > 0 {
        law_profile_attempts_every_step(name, o, (k - 1) as nat);
        let f = failures_upto(profile_spec(name), o, (k - 1) as nat);
        if o[k - 1] is Ok {
            if f.len() == 0 {
                assert forall|i: int| 0 <= i < k implies #[trigger] o[i] is Ok by {
                    if i < k - 1 {
                        assert(o[i] is Ok);
                    }
                }
            }
        } else {
            assert(!(o[k - 1] is Ok));
        }
    }
}

/// What each command asks for, stated with the documented values: `fan
/// silent|balanced|turbo` writes 2|0|1 to the fan, `thermal
/// silent|default|overboost` writes 2|0|1 to the thermal policy, `led
/// off|min|med|max` writes 0|1|2|3 to the backlight, `battery set N` writes
/// N in decimal and reports "N%", each `get` reads its own subsystem,
/// `status` shows the status, and `profile NAME` applies the profile it names.
pub proof fn law_commands(limit: u8, name: ProfileName)
    ensures
        request_spec(Command::Fan { action: FanAction::Silent }) == RequestView::Write(SettingView { subsystem: Subsystem::Fan, value: "2"@, label: "silent"@ }),
        request_spec(Command::Fan { action: FanAction::Balanced }) == RequestView::Write(SettingView { subsystem: Subsystem::Fan, value: "0"@, label: "balanced"@ }),
        request_spec(Command::Fan { action: FanAction::Turbo }) == RequestView::Write(SettingView { subsystem: Subsystem::Fan, value: "1"@, label: "turbo"@ }),
        request_spec(Command::Fan { action: FanAction::Get }) == RequestView::Get(Subsystem::Fan),
        request_spec(Command::Thermal { action: ThermalAction::Silent }) == RequestView::Write(SettingView { subsystem: Subsystem::Thermal, value: "2"@, label: "silent"@ }),
        request_spec(Command::Thermal { action: ThermalAction::Default }) == RequestView::Write(SettingView { subsystem: Subsystem::Thermal, value: "0"@, label: "default"@ }),
        request_spec(Command::Thermal { action: ThermalAction::Overboost }) == RequestView::Write(SettingView { subsystem: Subsystem::Thermal, value: "1"@, label: "overboost"@ }),
        request_spec(Command::Thermal { action: ThermalAction::Get }) == RequestView::Get(Subsystem::Thermal),
        request_spec(Command::Led { action: LedAction::Off }) == RequestView::Write(SettingView { subsystem: Subsystem::Led, value: "0"@, label: "off"@ }),
        request_spec(Command::Led { action: LedAction::Min }) == RequestView::Write(SettingView { subsystem: Subsystem::Led, value: "1"@, label: "min"@ }),
        request_spec(Command::Led { action: LedAction::Med }) == RequestView::Write(SettingView { subsystem: Subsystem::Led, value: "2"@, label: "med"@ }),
        request_spec(Command::Led { action: LedAction::Max }) == RequestView::Write(SettingView { subsystem: Subsystem::Led, value: "3"@, label: "max"@ }),
        request_spec(Command::Led { action: LedAction::Get }) == RequestView::Get(Subsystem::Led),
        request_spec(Command::Battery { action: BatteryAction::Get }) == RequestView::Get(Subsystem::Battery),
        request_spec(Command::Battery { action: BatteryAction::SetLimit { limit } })
            == RequestView::Write(
            SettingView {
                subsystem: Subsystem::Battery,
                value: decimal(limit as nat),
                label: decimal(limit as nat) + "%"@,
            },
        ),
        request_spec(Command::Status) == RequestView::Status,
        request_spec(Command::Profile { name }) == RequestView::Profile(name),
        subsystem_name(Subsystem::Fan) == "fan"@,
        subsystem_name(Subsystem::Thermal) == "thermal"@,
        subsystem_name(Subsystem::Led) == "led"@,
        subsystem_name(Subsystem::Battery) == "battery"@,
        profile_name(ProfileName::Silent) == "silent"@,
        profile_name(ProfileName::Balanced) == "balanced"@,
        profile_name(ProfileName::Gaming) == "gaming"@,
{
}

/// Each known node has its documented sysfs path, and no two nodes share a
/// path.
pub proof fn law_node_paths()
    ensures
        node_path(Node::AsusThermal) == "/sys/devices/platform/asus-nb-wmi/throttle_thermal_policy"@,
        node_path(Node::AsusFan) == "/sys/devices/platform/asus-nb-wmi/fan_boost_mode"@,
        node_path(Node::FaustusThermal) == "/sys/devices/platform/faustus/throttle_thermal_policy"@,
        node_path(Node::FaustusFan) == "/sys/devices/platform/faustus/fan_boost_mode"@,
        node_path(Node::LedBrightness) == "/sys/class/leds/asus::kbd_backlight/brightness"@,
        node_path(Node::Bat0Limit) == "/sys/class/power_supply/BAT0/charge_control_end_threshold"@,
        node_path(Node::Bat1Limit) == "/sys/class/power_supply/BAT1/charge_control_end_threshold"@,
        node_path(Node::BattLimit) == "/sys/class/power_supply/BATT/charge_control_end_threshold"@,
        forall|a: Node, b: Node| a != b ==> node_path(a) != node_path(b),
{
    reveal_strlit("/sys/devices/platform/asus-nb-wmi/throttle_thermal_policy");
    reveal_strlit("/sys/devices/platform/asus-nb-wmi/fan_boost_mode");
    reveal_strlit("/sys/devices/platform/faustus/throttle_thermal_policy");
    reveal_strlit("/sys/devices/platform/faustus/fan_boost_mode");
    reveal_strlit("/sys/class/leds/asus::kbd_backlight/brightness");
    reveal_strlit("/sys/class/power_supply/BAT0/charge_control_end_threshold");
    reveal_strlit("/sys/class/power_supply/BAT1/charge_control_end_threshold");
    reveal_strlit("/sys/class/power_supply/BATT/charge_control_end_threshold");
    assert(node_path(Node::AsusThermal).len() != node_path(Node::AsusFan).len());
    assert(node_path(Node::AsusThermal).len() != node_path(Node::FaustusThermal).len());
    assert(node_path(Node::AsusThermal).len() != node_path(Node::FaustusFan).len());
    assert(node_path(Node::AsusThermal).len() != node_path(Node::LedBrightness).len());
    assert(node_path(Node::AsusThermal)[5] != node_path(Node::Bat0Limit)[5]);
    assert(node_path(Node::AsusThermal)[5] != node_path(Node::Bat1Limit)[5]);
    assert(node_path(Node::AsusThermal)[5] != node_path(Node::BattLimit)[5]);
    assert(node_path(Node::AsusFan).len() != node_path(Node::FaustusThermal).len());
    assert(node_path(Node::AsusFan).len() != node_path(Node::FaustusFan).len());
    assert(node_path(Node::AsusFan).len() != node_path(Node::LedBrightness).len());
    assert(node_path(Node::AsusFan).len() != node_path(Node::Bat0Limit).len());
    assert(node_path(Node::AsusFan).len() != node_path(Node::Bat1Limit).len());
    assert(node_path(Node::AsusFan).len() != node_path(Node::BattLimit).len());
    assert(node_path(Node::FaustusThermal).len() != node_path(Node::FaustusFan).len());
    assert(node_path(Node::FaustusThermal).len() != node_path(Node::LedBrightness).len());
    assert(node_path(Node::FaustusThermal).len() != node_path(Node::Bat0Limit).len());
    assert(node_path(Node::FaustusThermal).len() != node_path(Node::Bat1Limit).len());
    assert(node_path(Node::FaustusThermal).len() != node_path(Node::BattLimit).len());
    assert(node_path(Node::FaustusFan).len() != node_path(Node::LedBrightness).len());
    assert(node_path(Node::FaustusFan).len() != node_path(Node::Bat0Limit).len());
    assert(node_path(Node::FaustusFan).len() != node_path(Node::Bat1Limit).len());
    assert(node_path(Node::FaustusFan).len() != node_path(Node::BattLimit).len());
    assert(node_path(Node::LedBrightness).len() != node_path(Node::Bat0Limit).len());
    assert(node_path(Node::LedBrightness).len() != node_path(Node::Bat1Limit).len());
    assert(node_path(Node::LedBrightness).len() != node_path(Node::BattLimit).len());
    assert(node_path(Node::Bat0Limit)[27] != node_path(Node::Bat1Limit)[27]);
    assert(node_path(Node::Bat0Limit)[27] != node_path(Node::BattLimit)[27]);
    assert(node_path(Node::Bat1Limit)[27] != node_path(Node::BattLimit)[27]);
}

/// Writing is refused exactly on a read-only node: where reading locates a
/// node whose permission bits say it is writable, writing locates the same
/// node; where they say it is read-only, or cannot be read, writing is
/// refused with `PermissionDenied` on that node.
pub proof fn law_write_refused_exactly_when_readonly(s: Subsystem, env: Seq<NodeView>)
    ensures
        locate_spec(s, false, env) matches Ok(n) ==> (state_of(env, n).readonly == Some(false)
            ==> resolve_spec(s, true, env) == Ok::<Seq<char>, ErrorView>(node_path(n))),
        locate_spec(s, false, env) matches Ok(n) ==> (state_of(env, n).readonly != Some(false)
            ==> resolve_spec(s, true, env) == Err::<Seq<char>, ErrorView>(
            ErrorView::PermissionDenied { path: node_path(n) },
        )),
        locate_spec(s, false, env) matches Ok(n) ==> resolve_spec(s, false, env) == Ok::<
            Seq<char>,
            ErrorView,
        >(node_path(n)),
{
}

/// The status entry of a subsystem is about that subsystem: where no node
/// serves it, the entry is that error; otherwise it is that subsystem's own
/// current label, or the error that reading it gave.
pub proof fn law_status_entry(r: Reading, s: Subsystem, env: Seq<NodeView>)
    requires
        reading_matches(r, s, env),
    ensures
        resolve_spec(s, false, env) matches Err(e) ==> (r matches Reading::Unavailable(f) && f@
            == e),
        resolve_spec(s, false, env) is Ok ==> (current_spec(s, env) matches Ok(l) ==> (r matches Reading::Value(
            v,
        ) && v@ == l)),
        resolve_spec(s, false, env) is Ok ==> (current_spec(s, env) matches Err(e) ==> (r matches Reading::Failed(
            f,
        ) && f@ == e)),
{
}

/// After the value of any setting has been written to the node that serves
/// its subsystem, the status entry of that subsystem shows the setting's label.
pub proof fn law_status_after_write(
    r: Reading,
    st: SettingView,
    env: Seq<NodeView>,
    pre: Seq<char>,
    post: Seq<char>,
)
    requires
        known_setting(st),
        locate_spec(st.subsystem, true, env) is Ok,
        all_space(pre),
        all_space(post),
        reading_matches(
            r,
            st.subsystem,
            after_write(env, locate_spec(st.subsystem, true, env)->Ok_0, pre + st.value + post),
        ),
    ensures
        r matches Reading::Value(v) && v@ == st.label,
{
    law_read_after_write(st, env, pre, post);
}

/// The values that reading accepts, and what it shows for them: fan 0, 1, 2
/// as balanced, turbo, silent; thermal 0, 1, 2 as default, overboost,
/// silent; backlight 0, 1, 2, 3 as off, min, med, max; a battery value as
/// that value followed by `%`. Any other fan, thermal or backlight value is
/// refused as unexpected, naming the path and the value.
pub proof fn law_decode_table(raw: Seq<char>, path: Seq<char>)
    ensures
        decode_spec(Subsystem::Fan, "0"@, path) == Ok::<Seq<char>, ErrorView>("balanced"@),
        decode_spec(Subsystem::Fan, "1"@, path) == Ok::<Seq<char>, ErrorView>("turbo"@),
        decode_spec(Subsystem::Fan, "2"@, path) == Ok::<Seq<char>, ErrorView>("silent"@),
        decode_spec(Subsystem::Thermal, "0"@, path) == Ok::<Seq<char>, ErrorView>("default"@),
        decode_spec(Subsystem::Thermal, "1"@, path) == Ok::<Seq<char>, ErrorView>("overboost"@),
        decode_spec(Subsystem::Thermal, "2"@, path) == Ok::<Seq<char>, ErrorView>("silent"@),
        decode_spec(Subsystem::Led, "0"@, path) == Ok::<Seq<char>, ErrorView>("off"@),
        decode_spec(Subsystem::Led, "1"@, path) == Ok::<Seq<char>, ErrorView>("min"@),
        decode_spec(Subsystem::Led, "2"@, path) == Ok::<Seq<char>, ErrorView>("med"@),
        decode_spec(Subsystem::Led, "3"@, path) == Ok::<Seq<char>, ErrorView>("max"@),
        decode_spec(Subsystem::Battery, raw, path) == Ok::<Seq<char>, ErrorView>(raw + "%"@),
        raw != "0"@ && raw != "1"@ && raw != "2"@ ==> decode_spec(Subsystem::Fan, raw, path)
            == Err::<Seq<char>, ErrorView>(ErrorView::UnexpectedValue { path, value: raw }),
        raw != "0"@ && raw != "1"@ && raw != "2"@ ==> decode_spec(Subsystem::Thermal, raw, path)
            == Err::<Seq<char>, ErrorView>(ErrorView::UnexpectedValue { path, value: raw }),
        raw != "0"@ && raw != "1"@ && raw != "2"@ && raw != "3"@ ==> decode_spec(
            Subsystem::Led,
            raw,
            path,
        ) == Err::<Seq<char>, ErrorView>(ErrorView::UnexpectedValue { path, value: raw }),
{
    lemma_literals();
    assert("1"@[0] != "0"@[0]);
    assert("2"@[0] != "0"@[0]);
    assert("2"@[0] != "1"@[0]);
    assert("3"@[0] != "0"@[0]);
    assert("3"@[0] != "1"@[0]);
    assert("3"@[0] != "2"@[0]);
}

/// Where the node that serves a subsystem cannot be read, reading the
/// subsystem fails with `ReadFailed`, naming that node's path and the cause.
pub proof fn law_read_failure(s: Subsystem, env: Seq<NodeView>, cause: Seq<char>)
    requires
        locate_spec(s, false, env) is Ok,
        state_of(env, locate_spec(s, false, env)->Ok_0).contents == Err::<Seq<char>, Seq<char>>(
            cause,
        ),
    ensures
        current_spec(s, env) == Err::<Seq<char>, ErrorView>(
            ErrorView::ReadFailed {
                path: node_path(locate_spec(s, false, env)->Ok_0),
                source: cause,
            },
        ),
{
}

/// Subsystems are reported in the order fan, thermal, LED, battery.
pub proof fn law_report_order()
    ensures
        all_subsystems() == seq![
            Subsystem::Fan,
            Subsystem::Thermal,
            Subsystem::Led,
            Subsystem::Battery,
        ],
{
}

/// The profiles as documented: silent is fan silent (2), thermal silent (2)
/// and backlight off (0); balanced is fan balanced (0), thermal default (0)
/// and backlight min (1); gaming is fan turbo (1), thermal overboost (1) and
/// backlight max (3); each applied in the order fan, thermal, backlight.
pub proof fn law_profiles()
    ensures
        profile_spec(ProfileName::Silent) == seq![
            SettingView { subsystem: Subsystem::Fan, value: "2"@, label: "silent"@ },
            SettingView { subsystem: Subsystem::Thermal, value: "2"@, label: "silent"@ },
            SettingView { subsystem: Subsystem::Led, value: "0"@, label: "off"@ },
        ],
        profile_spec(ProfileName::Balanced) == seq![
            SettingView { subsystem: Subsystem::Fan, value: "0"@, label: "balanced"@ },
            SettingView { subsystem: Subsystem::Thermal, value: "0"@, label: "default"@ },
            SettingView { subsystem: Subsystem::Led, value: "1"@, label: "min"@ },
        ],
        profile_spec(ProfileName::Gaming) == seq![
            SettingView { subsystem: Subsystem::Fan, value: "1"@, label: "turbo"@ },
            SettingView { subsystem: Subsystem::Thermal, value: "1"@, label: "overboost"@ },
            SettingView { subsystem: Subsystem::Led, value: "3"@, label: "max"@ },
        ],
{
}

/// The nodes tried for each subsystem, in order.
pub proof fn law_candidates()
    ensures
        candidates_spec(Subsystem::Fan) == seq![Node::AsusFan, Node::FaustusFan],
        candidates_spec(Subsystem::Thermal) == seq![Node::AsusThermal, Node::FaustusThermal],
        candidates_spec(Subsystem::Led) == seq![Node::LedBrightness],
        candidates_spec(Subsystem::Battery) == seq![
            Node::Bat0Limit,
            Node::Bat1Limit,
            Node::BattLimit,
        ],
{
}

/// Every known node has its own slot in a snapshot, among the first eight.
pub proof fn law_node_slots()
    ensures
        forall|a: Node| node_index(a) < 8,
        forall|a: Node, b: Node| a != b ==> node_index(a) != node_index(b),
{
}

/// The number a string of decimal digits denotes.
pub open spec fn number(s: Seq<char>) -> nat
    decreases s.len(),
{
    if s.len() == 0 {
        0
    } else {
        number(s.drop_last()) * 10 + ((s.last() as nat) - ('0' as nat)) as nat
    }
}

proof fn lemma_digit_value(d: nat)
    requires
        d < 10,
    ensures
        digit(d) as nat == '0' as nat + d,
{
}

/// The decimal rendering of `n` denotes `n` and has no leading zero.
pub proof fn law_decimal_denotes(n: nat)
    ensures
        number(decimal(n)) == n,
        decimal(n).len() > 1 ==> decimal(n)[0] != '0',
    decreases n,
{
    let d = decimal(n);
    if n < 10 {
        lemma_digit_value(n);
        assert(d.drop_last() =~= Seq::<char>::empty());
        assert(number(Seq::<char>::empty()) == 0);
        assert(number(d) == n);
    } else {
        law_decimal_denotes(n / 10);
        lemma_digit_value(n % 10);
        assert(d.drop_last() =~= decimal(n / 10));
        assert(d.last() == digit(n % 10));
        assert(number(d) == number(decimal(n / 10)) * 10 + n % 10);
        assert((n / 10) * 10 + n % 10 == n);
        assert(number(d) == n);
        assert(d[0] == decimal(n / 10)[0]);
        if n / 10 < 10 {
            lemma_digit_value(n / 10);
            assert(decimal(n / 10) == seq![digit(n / 10)]);
            assert(decimal(n / 10)[0] != '0');
        } else {
            crate::text::lemma_decimal_digits(n / 10 / 10);
            assert(decimal(n / 10).len() > 1);
        }
    }
}

/// Whitespace is what trimming removes: spaces, tabs, line feeds and
/// carriage returns among others, and never a digit or a letter; a value with
/// a trailing newline trims to the value.
pub proof fn law_whitespace()
    ensures
        is_space(' '),
        is_space('\t'),
        is_space('\n'),
        is_space('\r'),
        forall|c: char| '0' <= c <= '9' ==> !is_space(c),
        forall|c: char| 'a' <= c <= 'z' ==> !is_space(c),
        forall|c: char| 'A' <= c <= 'Z' ==> !is_space(c),
        trimmed(seq!['8', '0', '\n']) == seq!['8', '0'],
        trimmed(seq![' ', '1']) == seq!['1'],
{
    reveal_with_fuel(crate::text::strip_leading, 3);
    reveal_with_fuel(crate::text::strip_trailing, 3);
    assert(seq!['8', '0', '\n'].drop_last() =~= seq!['8', '0']);
    assert(seq![' ', '1'].drop_first() =~= seq!['1']);
    assert(seq!['8', '0', '\n'][0] == '8');
}

} // verus!
