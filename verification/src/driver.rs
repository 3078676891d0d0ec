//! Which sysfs node serves each subsystem, and how perfmode finds it.
//!
//! The filesystem is seen through a [`Sysfs`] snapshot: for each known node,
//! whether it exists, what its permission bits say and what reading it gives.
//! Locating a node is then a function of the snapshot.
use vstd::prelude::*;

use crate::error::{view_result, Error, ErrorView};

verus! {

/// A hardware subsystem that perfmode can control.
#[derive(Debug, Clone, Copy, PartialEq, Eq, Structural)]
pub enum Subsystem {
    Fan,
    Thermal,
    Led,
    Battery,
}

/// The name under which a subsystem is shown.
pub open spec fn subsystem_name(s: Subsystem) -> Seq<char> {
    match s {
        Subsystem::Fan => "fan"@,
        Subsystem::Thermal => "thermal"@,
        Subsystem::Led => "led"@,
        Subsystem::Battery => "battery"@,
    }
}

impl Subsystem {
    /// The name under which the subsystem is shown.
    pub fn name(&self) -> (s: &'static str)
        ensures
            s@ == subsystem_name(*self),
    {
        match self {
            Subsystem::Fan => "fan",
            Subsystem::Thermal => "thermal",
            Subsystem::Led => "led",
            Subsystem::Battery => "battery",
        }
    }
}

/// The subsystems in the order in which they are reported.
pub open spec fn all_subsystems() -> Seq<Subsystem> {
    seq![Subsystem::Fan, Subsystem::Thermal, Subsystem::Led, Subsystem::Battery]
}

/// A sysfs node that perfmode knows.
#[derive(Debug, Clone, Copy, PartialEq, Eq, Structural)]
pub enum Node {
    /// Thermal policy of the asus-nb-wmi driver.
    AsusThermal,
    /// Fan boost mode of the asus-nb-wmi driver.
    AsusFan,
    /// Thermal policy of the faustus driver.
    FaustusThermal,
    /// Fan boost mode of the faustus driver.
    FaustusFan,
    /// Keyboard backlight brightness.
    LedBrightness,
    /// Charge limit of battery BAT0.
    Bat0Limit,
    /// Charge limit of battery BAT1.
    Bat1Limit,
    /// Charge limit of battery BATT.
    BattLimit,
}

/// The number of known nodes.
pub open spec fn node_count() -> nat {
    8
}

/// The position of a node in a [`Sysfs`] snapshot.
pub open spec fn node_index(n: Node) -> nat {
    match n {
        Node::AsusThermal => 0,
        Node::AsusFan => 1,
        Node::FaustusThermal => 2,
        Node::FaustusFan => 3,
        Node::LedBrightness => 4,
        Node::Bat0Limit => 5,
        Node::Bat1Limit => 6,
        Node::BattLimit => 7,
    }
}

/// The sysfs path of a node.
pub open spec fn node_path(n: Node) -> Seq<char> {
    match n {
        Node::AsusThermal => "/sys/devices/platform/asus-nb-wmi/throttle_thermal_policy"@,
        Node::AsusFan => "/sys/devices/platform/asus-nb-wmi/fan_boost_mode"@,
        Node::FaustusThermal => "/sys/devices/platform/faustus/throttle_thermal_policy"@,
        Node::FaustusFan => "/sys/devices/platform/faustus/fan_boost_mode"@,
        Node::LedBrightness => "/sys/class/leds/asus::kbd_backlight/brightness"@,
        Node::Bat0Limit => "/sys/class/power_supply/BAT0/charge_control_end_threshold"@,
        Node::Bat1Limit => "/sys/class/power_supply/BAT1/charge_control_end_threshold"@,
        Node::BattLimit => "/sys/class/power_supply/BATT/charge_control_end_threshold"@,
    }
}

/// The known nodes, each at its own index.
pub open spec fn all_nodes_spec() -> Seq<Node> {
    seq![
        Node::AsusThermal,
        Node::AsusFan,
        Node::FaustusThermal,
        Node::FaustusFan,
        Node::LedBrightness,
        Node::Bat0Limit,
        Node::Bat1Limit,
        Node::BattLimit,
    ]
}

impl Node {
    /// The position of the node in a [`Sysfs`] snapshot.
    pub fn index(&self) -> (i: usize)
        ensures
            i == node_index(*self),
    {
        match self {
            Node::AsusThermal => 0,
            Node::AsusFan => 1,
            Node::FaustusThermal => 2,
            Node::FaustusFan => 3,
            Node::LedBrightness => 4,
            Node::Bat0Limit => 5,
            Node::Bat1Limit => 6,
            Node::BattLimit => 7,
        }
    }

    /// The sysfs path of the node.
    pub fn path(&self) -> (p: &'static str)
        ensures
            p@ == node_path(*self),
    {
        match self {
            Node::AsusThermal => "/sys/devices/platform/asus-nb-wmi/throttle_thermal_policy",
            Node::AsusFan => "/sys/devices/platform/asus-nb-wmi/fan_boost_mode",
            Node::FaustusThermal => "/sys/devices/platform/faustus/throttle_thermal_policy",
            Node::FaustusFan => "/sys/devices/platform/faustus/fan_boost_mode",
            Node::LedBrightness => "/sys/class/leds/asus::kbd_backlight/brightness",
            Node::Bat0Limit => "/sys/class/power_supply/BAT0/charge_control_end_threshold",
            Node::Bat1Limit => "/sys/class/power_supply/BAT1/charge_control_end_threshold",
            Node::BattLimit => "/sys/class/power_supply/BATT/charge_control_end_threshold",
        }
    }
}

/// All known nodes, in index order: the order in which a [`Sysfs`] snapshot
/// lists them.
pub fn all_nodes() -> (v: Vec<Node>)
    ensures
        v@ == all_nodes_spec(),
        forall|i: int| 0 <= i < v.len() ==> node_index(#[trigger] v@[i]) == i,
{
    let v: Vec<Node> = vec![
        Node::AsusThermal,
        Node::AsusFan,
        Node::FaustusThermal,
        Node::FaustusFan,
        Node::LedBrightness,
        Node::Bat0Limit,
        Node::Bat1Limit,
        Node::BattLimit,
    ];
    assert(v@ =~= all_nodes_spec());
    v
}

/// What probing one sysfs node found.
pub struct NodeState {
    /// Whether the path exists.
    pub present: bool,
    /// Whether its permission bits mark it read-only; `None` where its
    /// metadata could not be read.
    pub readonly: Option<bool>,
    /// Its contents, or the description of why reading it failed.
    pub contents: Result<String, String>,
}

/// A [`NodeState`] with its text taken as character sequences.
pub struct NodeView {
    pub present: bool,
    pub readonly: Option<bool>,
    pub contents: Result<Seq<char>, Seq<char>>,
}

impl View for NodeState {
    type V = NodeView;

    open spec fn view(&self) -> NodeView {
        NodeView {
            present: self.present,
            readonly: self.readonly,
            contents: match self.contents {
                Ok(s) => Ok(s@),
                Err(e) => Err(e@),
            },
        }
    }
}

/// The state of a node that is not there.
pub open spec fn absent_node() -> NodeView {
    NodeView { present: false, readonly: None, contents: Err(Seq::empty()) }
}

/// A snapshot of the known sysfs nodes: `nodes[i]` describes the node whose
/// index is `i`; a node past the end of `nodes` does not exist.
pub struct Sysfs {
    pub nodes: Vec<NodeState>,
}

impl View for Sysfs {
    type V = Seq<NodeView>;

    open spec fn view(&self) -> Seq<NodeView> {
        self.nodes@.map_values(|n: NodeState| n@)
    }
}

/// The state of `node` in the snapshot `env`.
pub open spec fn state_of(env: Seq<NodeView>, node: Node) -> NodeView {
    if node_index(node) < env.len() {
        env[node_index(node) as int]
    } else {
        absent_node()
    }
}

/// Whether a node counts as read-only: a node whose metadata cannot be read
/// is taken to be read-only.
pub open spec fn readonly_spec(v: NodeView) -> bool {
    match v.readonly {
        Some(b) => b,
        None => true,
    }
}

/// Whether a node counts as read-only, from its permission bits (`None`
/// where its metadata could not be read).
pub fn is_readonly(readonly: Option<bool>) -> (b: bool)
    ensures
        b == match readonly {
            Some(r) => r,
            None => true,
        },
{
    match readonly {
        Some(r) => r,
        None => true,
    }
}

impl Sysfs {
    /// A snapshot in which no node exists.
    pub fn new() -> (s: Sysfs)
        ensures
            forall|n: Node| state_of(s@, n) == absent_node(),
    {
        Sysfs { nodes: Vec::new() }
    }

    /// This snapshot with the state of `node` replaced by `state`.
    pub fn with_node(self, node: Node, state: NodeState) -> (s: Sysfs)
        ensures
            forall|n: Node|
                #[trigger] state_of(s@, n) == if n == node {
                    state@
                } else {
                    state_of(self@, n)
                },
    {
        let ghost old_view = self@;
        let idx: usize = node.index();
        let mut nodes: Vec<NodeState> = self.nodes;
        while nodes.len() <= idx
            invariant
                idx == node_index(node),
                idx < node_count(),
                nodes@.len() >= old_view.len(),
                forall|i: int|
                    0 <= i < old_view.len() ==> #[trigger] nodes@[i]@ == old_view[i],
                forall|i: int|
                    old_view.len() <= i < nodes@.len() ==> #[trigger] nodes@[i]@
                        == absent_node(),
            decreases idx + 1 - nodes.len(),
        {
            nodes.push(NodeState { present: false, readonly: None, contents: Err(String::new()) });
        }
        nodes.set(idx, state);
        let s: Sysfs = Sysfs { nodes };
        assert forall|n: Node|
            #[trigger] state_of(s@, n) == if n == node {
                state@
            } else {
                state_of(old_view, n)
            } by {
            if n != node {
                assert(node_index(n) != node_index(node));
            }
        }
        s
    }

    /// Whether `node` exists.
    pub fn is_present(&self, node: Node) -> (b: bool)
        ensures
            b == state_of(self@, node).present,
    {
        let idx: usize = node.index();
        if idx < self.nodes.len() {
            self.nodes[idx].present
        } else {
            false
        }
    }

    /// Whether `node` counts as read-only.
    pub fn readonly(&self, node: Node) -> (b: bool)
        ensures
            b == readonly_spec(state_of(self@, node)),
    {
        let idx: usize = node.index();
        if idx < self.nodes.len() {
            is_readonly(self.nodes[idx].readonly)
        } else {
            is_readonly(None)
        }
    }
}

/// The nodes that can serve a subsystem, in the order they are tried:
/// the asus-nb-wmi driver before the faustus driver, and the batteries in
/// the order BAT0, BAT1, BATT.
pub open spec fn candidates_spec(s: Subsystem) -> Seq<Node> {
    match s {
        Subsystem::Fan => seq![Node::AsusFan, Node::FaustusFan],
        Subsystem::Thermal => seq![Node::AsusThermal, Node::FaustusThermal],
        Subsystem::Led => seq![Node::LedBrightness],
        Subsystem::Battery => seq![Node::Bat0Limit, Node::Bat1Limit, Node::BattLimit],
    }
}

/// The nodes that can serve a subsystem, in the order they are tried.
pub fn candidates(s: Subsystem) -> (v: Vec<Node>)
    ensures
        v@ == candidates_spec(s),
{
    let v: Vec<Node> = match s {
        Subsystem::Fan => vec![Node::AsusFan, Node::FaustusFan],
        Subsystem::Thermal => vec![Node::AsusThermal, Node::FaustusThermal],
        Subsystem::Led => vec![Node::LedBrightness],
        Subsystem::Battery => vec![Node::Bat0Limit, Node::Bat1Limit, Node::BattLimit],
    };
    assert(v@ =~= candidates_spec(s));
    v
}

/// The first of `cands` that exists in `env`.
pub open spec fn first_existing(env: Seq<NodeView>, cands: Seq<Node>) -> Option<Node>
    decreases cands.len(),
{
    if cands.len() == 0 {
        None
    } else if state_of(env, cands[0]).present {
        Some(cands[0])
    } else {
        first_existing(env, cands.drop_first())
    }
}

/// The error for a subsystem none of whose nodes exists.
pub open spec fn missing_error(s: Subsystem) -> ErrorView {
    match s {
        Subsystem::Fan | Subsystem::Thermal => ErrorView::NoDriverDetected,
        Subsystem::Led => ErrorView::NodeNotFound { path: node_path(Node::LedBrightness) },
        Subsystem::Battery => ErrorView::BatteryNotSupported,
    }
}

/// The node that serves subsystem `s` in `env`: the first of its candidates
/// that exists; where `need_write` holds, a read-only node is refused.
pub open spec fn locate_spec(s: Subsystem, need_write: bool, env: Seq<NodeView>) -> Result<
    Node,
    ErrorView,
> {
    match first_existing(env, candidates_spec(s)) {
        None => Err(missing_error(s)),
        Some(n) => if need_write && readonly_spec(state_of(env, n)) {
            Err(ErrorView::PermissionDenied { path: node_path(n) })
        } else {
            Ok(n)
        },
    }
}

/// The path of the node that serves subsystem `s` in `env`, or why there is none.
pub open spec fn resolve_spec(s: Subsystem, need_write: bool, env: Seq<NodeView>) -> Result<
    Seq<char>,
    ErrorView,
> {
    match locate_spec(s, need_write, env) {
        Ok(n) => Ok(node_path(n)),
        Err(e) => Err(e),
    }
}

/// The error that refuses writing to a read-only node.
fn permission_denied(node: Node) -> (e: Error)
    ensures
        e@ == (ErrorView::PermissionDenied { path: node_path(node) }),
{
    Error::PermissionDenied { path: node.path().to_owned() }
}

/// The first of `cands` that exists, refused where it is read-only and
/// `need_write` holds; `missing` where none exists.
fn probe_first(cands: &Vec<Node>, need_write: bool, sysfs: &Sysfs, missing: Error) -> (r: Result<
    Node,
    Error,
>)
    ensures
        match first_existing(sysfs@, cands@) {
            None => r matches Err(e) && e@ == missing@,
            Some(n) => if need_write && readonly_spec(state_of(sysfs@, n)) {
                r matches Err(e) && e@ == (ErrorView::PermissionDenied { path: node_path(n) })
            } else {
                r == Ok::<Node, Error>(n)
            },
        },
{
    let mut i: usize = 0;
    assert(cands@.skip(0) =~= cands@);
    while i < cands.len()
        invariant
            i <= cands@.len(),
            first_existing(sysfs@, cands@) == first_existing(sysfs@, cands@.skip(i as int)),
        decreases cands.len() - i,
    {
        let node: Node = cands[i];
        assert(cands@.skip(i as int)[0] == node);
        if sysfs.is_present(node) {
            if need_write && sysfs.readonly(node) {
                return Err(permission_denied(node));
            }
            return Ok(node);
        }
        assert(cands@.skip(i as int).drop_first() =~= cands@.skip(i + 1));
        i = i + 1;
    }
    assert(cands@.skip(i as int).len() == 0);
    Err(missing)
}

/// `node` where it exists, refused where it is read-only and `need_write`
/// holds; `NodeNotFound` where it does not exist.
fn probe_single(node: Node, need_write: bool, sysfs: &Sysfs) -> (r: Result<Node, Error>)
    ensures
        !state_of(sysfs@, node).present ==> (r matches Err(e) && e@ == (ErrorView::NodeNotFound {
            path: node_path(node),
        })),
        state_of(sysfs@, node).present && need_write && readonly_spec(state_of(sysfs@, node))
            ==> (r matches Err(e) && e@ == (ErrorView::PermissionDenied { path: node_path(node) })),
        state_of(sysfs@, node).present && !(need_write && readonly_spec(state_of(sysfs@, node)))
            ==> r == Ok::<Node, Error>(node),
{
    if !sysfs.is_present(node) {
        return Err(Error::NodeNotFound { path: node.path().to_owned() });
    }
    if need_write && sysfs.readonly(node) {
        return Err(permission_denied(node));
    }
    Ok(node)
}

/// The node that serves subsystem `s`, as `locate_spec` says.
pub fn locate(s: Subsystem, need_write: bool, sysfs: &Sysfs) -> (r: Result<Node, Error>)
    ensures
        match (r, locate_spec(s, need_write, sysfs@)) {
            (Ok(n), Ok(m)) => n == m,
            (Err(e), Err(f)) => e@ == f,
            _ => false,
        },
{
    match s {
        Subsystem::Fan => probe_first(&candidates(s), need_write, sysfs, Error::NoDriverDetected),
        Subsystem::Thermal => probe_first(
            &candidates(s),
            need_write,
            sysfs,
            Error::NoDriverDetected,
        ),
        Subsystem::Led => {
            let r: Result<Node, Error> = probe_single(Node::LedBrightness, need_write, sysfs);
            proof {
                let c = candidates_spec(s);
                assert(c.drop_first().len() == 0);
                assert(first_existing(sysfs@, c.drop_first()) is None);
            }
            r
        },
        Subsystem::Battery => probe_first(
            &candidates(s),
            need_write,
            sysfs,
            Error::BatteryNotSupported,
        ),
    }
}

/// The sysfs path that serves subsystem `s`: the asus-nb-wmi node before the
/// faustus one for fan and thermal, the one backlight node for the LED, and
/// the first battery node that exists for the battery. Where `need_write`
/// holds, a read-only node gives `PermissionDenied`.
pub fn resolve_path(subsystem: Subsystem, need_write: bool, sysfs: &Sysfs) -> (r: Result<
    String,
    Error,
>)
    ensures
        view_result(r) == resolve_spec(subsystem, need_write, sysfs@),
{
    match locate(subsystem, need_write, sysfs) {
        Ok(n) => Ok(n.path().to_owned()),
        Err(e) => Err(e),
    }
}

/// Every subsystem, in the order fan, thermal, LED, battery, each with the
/// path that serves it for reading, or why there is none.
pub fn detect_all(sysfs: &Sysfs) -> (v: Vec<(Subsystem, Result<String, Error>)>)
    ensures
        v.len() == 4,
        forall|i: int|
            0 <= i < 4 ==> (#[trigger] v@[i]).0 == all_subsystems()[i] && view_result(v@[i].1)
                == resolve_spec(all_subsystems()[i], false, sysfs@),
{
    let mut v: Vec<(Subsystem, Result<String, Error>)> = Vec::new();
    v.push((Subsystem::Fan, resolve_path(Subsystem::Fan, false, sysfs)));
    v.push((Subsystem::Thermal, resolve_path(Subsystem::Thermal, false, sysfs)));
    v.push((Subsystem::Led, resolve_path(Subsystem::Led, false, sysfs)));
    v.push((Subsystem::Battery, resolve_path(Subsystem::Battery, false, sysfs)));
    v
}

} // verus!
