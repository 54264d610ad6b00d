use vstd::prelude::*;
use vstd::string::*;

use crate::process::{ProcessName, ProcessState};
use crate::text::{decimal, decimal_string};

verus! {

/// The kinds of desktop notification a user can subscribe to.
#[derive(Debug, Clone, Copy, PartialEq, Eq, Structural)]
pub enum Notification {
    FirstP2poolShare,
    Payout,
    DisconnectedMiner,
    FailedService,
}

/// The notifications the user subscribed to. They are kept here so that the
/// service does not have to restart when the user changes their preference.
pub struct NotificationApi {
    pub notifications: Vec<Notification>,
}

/// What the notification service reads of the processes and their APIs when it
/// handles one notification.
#[derive(Debug, Clone, Copy, PartialEq, Eq, Structural)]
pub struct Observation {
    pub node: ProcessState,
    pub p2pool: ProcessState,
    pub xmrig: ProcessState,
    pub xmrig_proxy: ProcessState,
    pub xvb: ProcessState,
    /// Shares found by this P2Pool instance, if known.
    pub shares_found: Option<u64>,
    /// Payouts received so far.
    pub payouts: u128,
    /// Miners connected to the Proxy.
    pub miners: u16,
}

/// An event the user is to be notified of.
#[derive(Debug, Clone, Copy, PartialEq, Eq, Structural)]
pub enum Alert {
    FirstShare,
    /// A new payout; its message carries the XMR amount, which the caller formats.
    Payout,
    /// The number of connected miners changed by this much.
    MinersDisconnected(u16),
    NodeSyncing,
    NodeFailed,
    P2poolSyncing,
    P2poolFailed,
    ProxyNotMining,
    ProxyFailed,
    XmrigNotMining,
    XmrigFailed,
    XvbOfflinePools,
    XvbFailed,
    XvbWaiting,
}

/// The state the notification service keeps between two passes.
#[derive(Debug, Clone, Copy, PartialEq, Eq, Structural)]
pub struct NotificationService {
    pub first_share_found: bool,
    pub last_payouts_count: u128,
    pub last_connected_miners: u16,
    pub node_alive: bool,
    pub p2pool_alive: bool,
    pub xmrig_alive: bool,
    pub proxy_alive: bool,
    pub xvb_alive: bool,
}

pub open spec fn abs_diff(a: u16, b: u16) -> int {
    if a >= b { a - b } else { b - a }
}

pub open spec fn opt_seq(a: Option<Alert>) -> Seq<Alert> {
    match a {
        Some(x) => seq![x],
        None => seq![],
    }
}

/// A watched process is reported when it was seen alive and is now in one of its bad states.
pub open spec fn node_alert(was_alive: bool, s: ProcessState) -> Option<Alert> {
    if was_alive && s == ProcessState::Syncing { Some(Alert::NodeSyncing) }
    else if was_alive && s == ProcessState::Failed { Some(Alert::NodeFailed) }
    else { None }
}

pub open spec fn p2pool_alert(was_alive: bool, s: ProcessState) -> Option<Alert> {
    if was_alive && s == ProcessState::Syncing { Some(Alert::P2poolSyncing) }
    else if was_alive && s == ProcessState::Failed { Some(Alert::P2poolFailed) }
    else { None }
}

pub open spec fn proxy_alert(was_alive: bool, s: ProcessState) -> Option<Alert> {
    if was_alive && s == ProcessState::NotMining { Some(Alert::ProxyNotMining) }
    else if was_alive && s == ProcessState::Failed { Some(Alert::ProxyFailed) }
    else { None }
}

pub open spec fn xmrig_alert(was_alive: bool, s: ProcessState) -> Option<Alert> {
    if was_alive && s == ProcessState::NotMining { Some(Alert::XmrigNotMining) }
    else if was_alive && s == ProcessState::Failed { Some(Alert::XmrigFailed) }
    else { None }
}

pub open spec fn xvb_alert(was_alive: bool, s: ProcessState) -> Option<Alert> {
    if was_alive && s == ProcessState::OfflinePoolsAll { Some(Alert::XvbOfflinePools) }
    else if was_alive && s == ProcessState::Failed { Some(Alert::XvbFailed) }
    else if was_alive && s == ProcessState::Syncing { Some(Alert::XvbWaiting) }
    else { None }
}

/// A process is marked alive when seen `Alive`, and unmarked when it is reported.
pub open spec fn next_alive(was_alive: bool, s: ProcessState, alert: Option<Alert>) -> bool {
    if s == ProcessState::Alive { true } else if alert is Some { false } else { was_alive }
}

/// The alerts of a service check: for each process in turn, its report if any.
pub open spec fn check_alerts(s: NotificationService, obs: Observation) -> Seq<Alert> {
    opt_seq(node_alert(s.node_alive || obs.node == ProcessState::Alive, obs.node))
        + opt_seq(p2pool_alert(s.p2pool_alive || obs.p2pool == ProcessState::Alive, obs.p2pool))
        + opt_seq(proxy_alert(s.proxy_alive || obs.xmrig_proxy == ProcessState::Alive, obs.xmrig_proxy))
        + opt_seq(xmrig_alert(s.xmrig_alive || obs.xmrig == ProcessState::Alive, obs.xmrig))
        + opt_seq(xvb_alert(s.xvb_alive || obs.xvb == ProcessState::Alive, obs.xvb))
}

/// The state after handling `n` against `obs`, and the alerts that are raised.
pub open spec fn step(s: NotificationService, n: Notification, obs: Observation) -> (NotificationService, Seq<Alert>) {
    match n {
        Notification::FirstP2poolShare => {
            if obs.p2pool == ProcessState::Alive && !s.first_share_found && obs.shares_found == Some(1u64) {
                (NotificationService { first_share_found: true, ..s }, seq![Alert::FirstShare])
            } else {
                (s, seq![])
            }
        },
        Notification::Payout => {
            if obs.p2pool == ProcessState::Alive && obs.payouts > s.last_payouts_count {
                (NotificationService { last_payouts_count: obs.payouts, ..s }, seq![Alert::Payout])
            } else {
                (s, seq![])
            }
        },
        Notification::DisconnectedMiner => {
            if obs.xmrig_proxy == ProcessState::Alive && obs.miners != s.last_connected_miners {
                (
                    NotificationService { last_connected_miners: obs.miners, ..s },
                    seq![Alert::MinersDisconnected(abs_diff(obs.miners, s.last_connected_miners) as u16)],
                )
            } else {
                (s, seq![])
            }
        },
        Notification::FailedService => {
            let node = node_alert(s.node_alive || obs.node == ProcessState::Alive, obs.node);
            let p2pool = p2pool_alert(s.p2pool_alive || obs.p2pool == ProcessState::Alive, obs.p2pool);
            let proxy = proxy_alert(s.proxy_alive || obs.xmrig_proxy == ProcessState::Alive, obs.xmrig_proxy);
            let xmrig = xmrig_alert(s.xmrig_alive || obs.xmrig == ProcessState::Alive, obs.xmrig);
            let xvb = xvb_alert(s.xvb_alive || obs.xvb == ProcessState::Alive, obs.xvb);
            (
                NotificationService {
                    node_alive: next_alive(s.node_alive, obs.node, node),
                    p2pool_alive: next_alive(s.p2pool_alive, obs.p2pool, p2pool),
                    proxy_alive: next_alive(s.proxy_alive, obs.xmrig_proxy, proxy),
                    xmrig_alive: next_alive(s.xmrig_alive, obs.xmrig, xmrig),
                    xvb_alive: next_alive(s.xvb_alive, obs.xvb, xvb),
                    ..s
                },
                check_alerts(s, obs),
            )
        },
    }
}

/// The text shown for an alert; a payout's text carries an amount and is not fixed.
pub open spec fn alert_text(a: Alert) -> Option<Seq<char>> {
    match a {
        Alert::FirstShare => Some("Gupax just found it's first P2Pool share !"@),
        Alert::Payout => None,
        Alert::MinersDisconnected(d) => if d > 1 {
            Some(decimal(d as nat) + " miners have been disconnected from the Proxy"@)
        } else {
            Some("A miner has been disconnected from the Proxy"@)
        },
        Alert::NodeSyncing => Some("The Monero Node was synced but is now syncing again\nCheck your network"@),
        Alert::NodeFailed => Some("The Monero Node is now in a failed state\nCheck your network"@),
        Alert::P2poolSyncing => Some("The P2Pool node was synced but is now syncing again\nCheck your network"@),
        Alert::P2poolFailed => Some("The P2Pool node is now in a failed state\nCheck your network"@),
        Alert::ProxyNotMining => Some("The Proxy was mining correctly but is not anymore\nCheck your network and the connection to the P2Pool node"@),
        Alert::ProxyFailed => Some("The Proxy is now in a failed state"@),
        Alert::XmrigNotMining => Some("XMRig was mining correctly but is not anymore\nCheck your network and the connection to the P2Pool node/Proxy"@),
        Alert::XmrigFailed => Some("The XMRig is now in a failed state"@),
        Alert::XvbOfflinePools => Some("XvB process is disconnected from all XvB Pool.It might be an issue with XvB server and not from Gupax"@),
        Alert::XvbFailed => Some("XvB process is now in a failed state"@),
        Alert::XvbWaiting => Some("XvB process is stopped while waiting for P2Pool or XMRig or the Proxy"@),
    }
}

impl Alert {
    /// The notification body for this alert. A payout's body holds the XMR
    /// amount received, which the caller formats: `None` for it.
    pub fn message(&self) -> (r: Option<String>)
        ensures
            r is Some <==> alert_text(*self) is Some,
            r matches Some(m) ==> m@ == alert_text(*self)->0,
    {
        match self {
            Alert::FirstShare => Some(String::from_str("Gupax just found it's first P2Pool share !")),
            Alert::Payout => None,
            Alert::MinersDisconnected(d) => if *d > 1 {
                let mut m = decimal_string(*d as u64);
                m.append(" miners have been disconnected from the Proxy");
                Some(m)
            } else {
                Some(String::from_str("A miner has been disconnected from the Proxy"))
            },
            Alert::NodeSyncing => Some(String::from_str("The Monero Node was synced but is now syncing again\nCheck your network")),
            Alert::NodeFailed => Some(String::from_str("The Monero Node is now in a failed state\nCheck your network")),
            Alert::P2poolSyncing => Some(String::from_str("The P2Pool node was synced but is now syncing again\nCheck your network")),
            Alert::P2poolFailed => Some(String::from_str("The P2Pool node is now in a failed state\nCheck your network")),
            Alert::ProxyNotMining => Some(String::from_str("The Proxy was mining correctly but is not anymore\nCheck your network and the connection to the P2Pool node")),
            Alert::ProxyFailed => Some(String::from_str("The Proxy is now in a failed state")),
            Alert::XmrigNotMining => Some(String::from_str("XMRig was mining correctly but is not anymore\nCheck your network and the connection to the P2Pool node/Proxy")),
            Alert::XmrigFailed => Some(String::from_str("The XMRig is now in a failed state")),
            Alert::XvbOfflinePools => Some(String::from_str("XvB process is disconnected from all XvB Pool.It might be an issue with XvB server and not from Gupax")),
            Alert::XvbFailed => Some(String::from_str("XvB process is now in a failed state")),
            Alert::XvbWaiting => Some(String::from_str("XvB process is stopped while waiting for P2Pool or XMRig or the Proxy")),
        }
    }
}

/// Handling the same notification twice against the same observation raises
/// nothing the second time: each event is notified once, when it happens.
pub proof fn lemma_repeat_is_silent(s: NotificationService, n: Notification, obs: Observation)
    ensures
        step(step(s, n, obs).0, n, obs).1 =~= Seq::<Alert>::empty(),
{
}

/// Once the first share has been notified it is never notified again.
pub proof fn lemma_first_share_once(s: NotificationService, n: Notification, obs: Observation)
    requires
        s.first_share_found,
    ensures
        step(s, n, obs).0.first_share_found,
        !step(s, n, obs).1.contains(Alert::FirstShare),
{
    if n == Notification::FailedService {
        let r = step(s, n, obs).1;
        if r.contains(Alert::FirstShare) {
            let i = choose|i: int| 0 <= i < r.len() && r[i] == Alert::FirstShare;
            assert(r[i] != Alert::FirstShare);
        }
    } else {
        assert(!step(s, n, obs).1.contains(Alert::FirstShare));
    }
}

/// A service failure is only reported for a process that had been seen alive
/// since its last report.
pub proof fn lemma_failure_follows_alive(s: NotificationService, obs: Observation)
    ensures
        ({
            let r = step(s, Notification::FailedService, obs).1;
            &&& (r.contains(Alert::NodeSyncing) || r.contains(Alert::NodeFailed)) ==> s.node_alive
            &&& (r.contains(Alert::P2poolSyncing) || r.contains(Alert::P2poolFailed)) ==> s.p2pool_alive
            &&& (r.contains(Alert::ProxyNotMining) || r.contains(Alert::ProxyFailed)) ==> s.proxy_alive
            &&& (r.contains(Alert::XmrigNotMining) || r.contains(Alert::XmrigFailed)) ==> s.xmrig_alive
            &&& (r.contains(Alert::XvbOfflinePools) || r.contains(Alert::XvbFailed)
                || r.contains(Alert::XvbWaiting)) ==> s.xvb_alive
        }),
{
    let node = node_alert(s.node_alive || obs.node == ProcessState::Alive, obs.node);
    let p2pool = p2pool_alert(s.p2pool_alive || obs.p2pool == ProcessState::Alive, obs.p2pool);
    let proxy = proxy_alert(s.proxy_alive || obs.xmrig_proxy == ProcessState::Alive, obs.xmrig_proxy);
    let xmrig = xmrig_alert(s.xmrig_alive || obs.xmrig == ProcessState::Alive, obs.xmrig);
    let xvb = xvb_alert(s.xvb_alive || obs.xvb == ProcessState::Alive, obs.xvb);
    let r = step(s, Notification::FailedService, obs).1;
    assert(r == opt_seq(node) + opt_seq(p2pool) + opt_seq(proxy) + opt_seq(xmrig) + opt_seq(xvb));
    assert forall|i: int| 0 <= i < r.len() implies
        (r[i] == node->0 && node is Some) || (r[i] == p2pool->0 && p2pool is Some)
        || (r[i] == proxy->0 && proxy is Some) || (r[i] == xmrig->0 && xmrig is Some)
        || (r[i] == xvb->0 && xvb is Some) by {
        let a = opt_seq(node);
        let b = opt_seq(p2pool);
        let c = opt_seq(proxy);
        let d = opt_seq(xmrig);
        let e = opt_seq(xvb);
        assert(r == a + b + c + d + e);
        if i < a.len() {
        } else if i < a.len() + b.len() {
            assert(r[i] == b[i - a.len()]);
        } else if i < a.len() + b.len() + c.len() {
            assert(r[i] == c[i - a.len() - b.len()]);
        } else if i < a.len() + b.len() + c.len() + d.len() {
            assert(r[i] == d[i - a.len() - b.len() - c.len()]);
        } else {
            assert(r[i] == e[i - a.len() - b.len() - c.len() - d.len()]);
        }
    }
}

impl NotificationService {
    /// A service that has seen nothing yet.
    pub fn new() -> (r: Self)
        ensures
            r == (NotificationService {
                first_share_found: false,
                last_payouts_count: 0,
                last_connected_miners: 0,
                node_alive: false,
                p2pool_alive: false,
                xmrig_alive: false,
                proxy_alive: false,
                xvb_alive: false,
            }),
    {
        NotificationService {
            first_share_found: false,
            last_payouts_count: 0,
            last_connected_miners: 0,
            node_alive: false,
            p2pool_alive: false,
            xmrig_alive: false,
            proxy_alive: false,
            xvb_alive: false,
        }
    }

    /// Handles one subscribed notification against what was just read of the
    /// processes, and returns the alerts to show, in order.
    pub fn handle(&mut self, n: Notification, obs: &Observation) -> (alerts: Vec<Alert>)
        ensures
            *final(self) == step(*old(self), n, *obs).0,
            alerts@ == step(*old(self), n, *obs).1,
    {
        let mut alerts: Vec<Alert> = Vec::new();
        match n {
            Notification::FirstP2poolShare => {
                if obs.p2pool == ProcessState::Alive {
                    let one = match obs.shares_found {
                        Some(s) => s == 1,
                        None => false,
                    };
                    if !self.first_share_found && one {
                        self.first_share_found = true;
                        alerts.push(Alert::FirstShare);
                    }
                }
            },
            Notification::Payout => {
                if obs.p2pool == ProcessState::Alive {
                    if obs.payouts > self.last_payouts_count {
                        self.last_payouts_count = obs.payouts;
                        alerts.push(Alert::Payout);
                    }
                }
            },
            Notification::DisconnectedMiner => {
                if obs.xmrig_proxy == ProcessState::Alive {
                    let diff = if obs.miners >= self.last_connected_miners {
                        obs.miners - self.last_connected_miners
                    } else {
                        self.last_connected_miners - obs.miners
                    };
                    if diff != 0 {
                        self.last_connected_miners = obs.miners;
                        alerts.push(Alert::MinersDisconnected(diff));
                    }
                }
            },
            Notification::FailedService => {
                let ghost a0 = alerts@;
                Self::watch_node(&mut self.node_alive, obs.node, &mut alerts);
                Self::watch_p2pool(&mut self.p2pool_alive, obs.p2pool, &mut alerts);
                Self::watch_proxy(&mut self.proxy_alive, obs.xmrig_proxy, &mut alerts);
                Self::watch_xmrig(&mut self.xmrig_alive, obs.xmrig, &mut alerts);
                Self::watch_xvb(&mut self.xvb_alive, obs.xvb, &mut alerts);
                assert(alerts@ =~= a0 + step(*old(self), n, *obs).1);
            },
        }
        alerts
    }

    fn watch_node(alive: &mut bool, s: ProcessState, alerts: &mut Vec<Alert>)
        ensures
            *final(alive) == next_alive(*old(alive), s, node_alert(*old(alive) || s == ProcessState::Alive, s)),
            final(alerts)@ == old(alerts)@ + opt_seq(node_alert(*old(alive) || s == ProcessState::Alive, s)),
    {
        if s == ProcessState::Alive && !*alive {
            *alive = true;
        }
        if *alive && s == ProcessState::Syncing {
            alerts.push(Alert::NodeSyncing);
            *alive = false;
        }
        if *alive && s == ProcessState::Failed {
            alerts.push(Alert::NodeFailed);
            *alive = false;
        }
    }

    fn watch_p2pool(alive: &mut bool, s: ProcessState, alerts: &mut Vec<Alert>)
        ensures
            *final(alive) == next_alive(*old(alive), s, p2pool_alert(*old(alive) || s == ProcessState::Alive, s)),
            final(alerts)@ == old(alerts)@ + opt_seq(p2pool_alert(*old(alive) || s == ProcessState::Alive, s)),
    {
        if s == ProcessState::Alive && !*alive {
            *alive = true;
        }
        if *alive && s == ProcessState::Syncing {
            alerts.push(Alert::P2poolSyncing);
            *alive = false;
        }
        if *alive && s == ProcessState::Failed {
            alerts.push(Alert::P2poolFailed);
            *alive = false;
        }
    }

    fn watch_proxy(alive: &mut bool, s: ProcessState, alerts: &mut Vec<Alert>)
        ensures
            *final(alive) == next_alive(*old(alive), s, proxy_alert(*old(alive) || s == ProcessState::Alive, s)),
            final(alerts)@ == old(alerts)@ + opt_seq(proxy_alert(*old(alive) || s == ProcessState::Alive, s)),
    {
        if s == ProcessState::Alive && !*alive {
            *alive = true;
        }
        if *alive && s == ProcessState::NotMining {
            alerts.push(Alert::ProxyNotMining);
            *alive = false;
        }
        if *alive && s == ProcessState::Failed {
            alerts.push(Alert::ProxyFailed);
            *alive = false;
        }
    }

    fn watch_xmrig(alive: &mut bool, s: ProcessState, alerts: &mut Vec<Alert>)
        ensures
            *final(alive) == next_alive(*old(alive), s, xmrig_alert(*old(alive) || s == ProcessState::Alive, s)),
            final(alerts)@ == old(alerts)@ + opt_seq(xmrig_alert(*old(alive) || s == ProcessState::Alive, s)),
    {
        if s == ProcessState::Alive && !*alive {
            *alive = true;
        }
        if *alive && s == ProcessState::NotMining {
            alerts.push(Alert::XmrigNotMining);
            *alive = false;
        }
        if *alive && s == ProcessState::Failed {
            alerts.push(Alert::XmrigFailed);
            *alive = false;
        }
    }

    fn watch_xvb(alive: &mut bool, s: ProcessState, alerts: &mut Vec<Alert>)
        ensures
            *final(alive) == next_alive(*old(alive), s, xvb_alert(*old(alive) || s == ProcessState::Alive, s)),
            final(alerts)@ == old(alerts)@ + opt_seq(xvb_alert(*old(alive) || s == ProcessState::Alive, s)),
    {
        if s == ProcessState::Alive && !*alive {
            *alive = true;
        }
        if *alive && s == ProcessState::OfflinePoolsAll {
            alerts.push(Alert::XvbOfflinePools);
            *alive = false;
        }
        if *alive && s == ProcessState::Failed {
            alerts.push(Alert::XvbFailed);
            *alive = false;
        }
        if *alive && s == ProcessState::Syncing {
            alerts.push(Alert::XvbWaiting);
            *alive = false;
        }
    }
}

} // verus!

verus! {

/// The state of a service that started as `s` after handling the first `k`
/// of `events`, each a notification with what was read for it.
pub open spec fn state_after(s: NotificationService, events: Seq<(Notification, Observation)>, k: int) -> NotificationService
    decreases k,
{
    if k <= 0 {
        s
    } else {
        step(state_after(s, events, k - 1), events[k - 1].0, events[k - 1].1).0
    }
}

/// The alerts raised by the `k`-th of `events`.
pub open spec fn alerts_at(s: NotificationService, events: Seq<(Notification, Observation)>, k: int) -> Seq<Alert> {
    step(state_after(s, events, k), events[k].0, events[k].1).1
}

/// The notification an alert belongs to.
pub open spec fn alert_kind(a: Alert) -> Notification {
    match a {
        Alert::FirstShare => Notification::FirstP2poolShare,
        Alert::Payout => Notification::Payout,
        Alert::MinersDisconnected(_) => Notification::DisconnectedMiner,
        _ => Notification::FailedService,
    }
}

/// Whether the service holds `p` as seen alive since its last failure report.
pub open spec fn watched_alive(s: NotificationService, p: ProcessName) -> bool {
    match p {
        ProcessName::Node => s.node_alive,
        ProcessName::P2pool => s.p2pool_alive,
        ProcessName::Xmrig => s.xmrig_alive,
        ProcessName::XmrigProxy => s.proxy_alive,
        ProcessName::Xvb => s.xvb_alive,
    }
}

/// The state read of `p`.
pub open spec fn watched_state(obs: Observation, p: ProcessName) -> ProcessState {
    match p {
        ProcessName::Node => obs.node,
        ProcessName::P2pool => obs.p2pool,
        ProcessName::Xmrig => obs.xmrig,
        ProcessName::XmrigProxy => obs.xmrig_proxy,
        ProcessName::Xvb => obs.xvb,
    }
}

/// The states of `p` that are reported as a failure.
pub open spec fn is_failure_state(p: ProcessName, st: ProcessState) -> bool {
    match p {
        ProcessName::Node | ProcessName::P2pool => st == ProcessState::Syncing || st == ProcessState::Failed,
        ProcessName::Xmrig | ProcessName::XmrigProxy => st == ProcessState::NotMining || st == ProcessState::Failed,
        ProcessName::Xvb => st == ProcessState::OfflinePoolsAll || st == ProcessState::Failed
            || st == ProcessState::Syncing,
    }
}

/// Whether `a` reports a failure of `p`.
pub open spec fn is_failure_of(a: Alert, p: ProcessName) -> bool {
    match p {
        ProcessName::Node => a == Alert::NodeSyncing || a == Alert::NodeFailed,
        ProcessName::P2pool => a == Alert::P2poolSyncing || a == Alert::P2poolFailed,
        ProcessName::Xmrig => a == Alert::XmrigNotMining || a == Alert::XmrigFailed,
        ProcessName::XmrigProxy => a == Alert::ProxyNotMining || a == Alert::ProxyFailed,
        ProcessName::Xvb => a == Alert::XvbOfflinePools || a == Alert::XvbFailed || a == Alert::XvbWaiting,
    }
}

/// Whether `alerts` report a failure of `p`.
pub open spec fn reports_failure(alerts: Seq<Alert>, p: ProcessName) -> bool {
    exists|i: int| 0 <= i < alerts.len() && is_failure_of(alerts[i], p)
}

/// Whether an event is a service check that reads `p` as alive.
pub open spec fn sees_alive(e: (Notification, Observation), p: ProcessName) -> bool {
    e.0 == Notification::FailedService && watched_state(e.1, p) == ProcessState::Alive
}

/// Whether `p` was read alive at some event before the `k`-th with no failure
/// of `p` reported from then on.
pub open spec fn seen_alive_since_report(
    s: NotificationService,
    events: Seq<(Notification, Observation)>,
    p: ProcessName,
    k: int,
) -> bool {
    exists|j: int| 0 <= j < k && sees_alive(#[trigger] events[j], p)
        && forall|m: int| j <= m < k ==> !reports_failure(#[trigger] alerts_at(s, events, m), p)
}

/// Every alert of a step belongs to the notification that was handled.
pub proof fn lemma_step_alert_kinds(s: NotificationService, n: Notification, obs: Observation)
    ensures
        forall|i: int| 0 <= i < step(s, n, obs).1.len() ==> alert_kind(#[trigger] step(s, n, obs).1[i]) == n,
{
    if n == Notification::FailedService {
        let node = node_alert(s.node_alive || obs.node == ProcessState::Alive, obs.node);
        let p2pool = p2pool_alert(s.p2pool_alive || obs.p2pool == ProcessState::Alive, obs.p2pool);
        let proxy = proxy_alert(s.proxy_alive || obs.xmrig_proxy == ProcessState::Alive, obs.xmrig_proxy);
        let xmrig = xmrig_alert(s.xmrig_alive || obs.xmrig == ProcessState::Alive, obs.xmrig);
        let xvb = xvb_alert(s.xvb_alive || obs.xvb == ProcessState::Alive, obs.xvb);
        lemma_failed_service_slots(s, obs);
        let r = step(s, n, obs).1;
        assert forall|i: int| 0 <= i < r.len() implies alert_kind(#[trigger] r[i]) == n by {
            assert((r[i] == node->0 && node is Some) || (r[i] == p2pool->0 && p2pool is Some)
                || (r[i] == proxy->0 && proxy is Some) || (r[i] == xmrig->0 && xmrig is Some)
                || (r[i] == xvb->0 && xvb is Some));
        }
    }
}

/// The alerts of a service check are, in order, those of each process's slot.
proof fn lemma_failed_service_slots(s: NotificationService, obs: Observation)
    ensures
        ({
            let node = node_alert(s.node_alive || obs.node == ProcessState::Alive, obs.node);
            let p2pool = p2pool_alert(s.p2pool_alive || obs.p2pool == ProcessState::Alive, obs.p2pool);
            let proxy = proxy_alert(s.proxy_alive || obs.xmrig_proxy == ProcessState::Alive, obs.xmrig_proxy);
            let xmrig = xmrig_alert(s.xmrig_alive || obs.xmrig == ProcessState::Alive, obs.xmrig);
            let xvb = xvb_alert(s.xvb_alive || obs.xvb == ProcessState::Alive, obs.xvb);
            let r = step(s, Notification::FailedService, obs).1;
            &&& forall|i: int| 0 <= i < r.len() ==>
                (r[i] == node->0 && node is Some) || (r[i] == p2pool->0 && p2pool is Some)
                || (r[i] == proxy->0 && proxy is Some) || (r[i] == xmrig->0 && xmrig is Some)
                || (r[i] == xvb->0 && xvb is Some)
            &&& node is Some ==> r.contains(node->0)
            &&& p2pool is Some ==> r.contains(p2pool->0)
            &&& proxy is Some ==> r.contains(proxy->0)
            &&& xmrig is Some ==> r.contains(xmrig->0)
            &&& xvb is Some ==> r.contains(xvb->0)
        }),
{
    let node = node_alert(s.node_alive || obs.node == ProcessState::Alive, obs.node);
    let p2pool = p2pool_alert(s.p2pool_alive || obs.p2pool == ProcessState::Alive, obs.p2pool);
    let proxy = proxy_alert(s.proxy_alive || obs.xmrig_proxy == ProcessState::Alive, obs.xmrig_proxy);
    let xmrig = xmrig_alert(s.xmrig_alive || obs.xmrig == ProcessState::Alive, obs.xmrig);
    let xvb = xvb_alert(s.xvb_alive || obs.xvb == ProcessState::Alive, obs.xvb);
    lemma_concat_slots(node, p2pool, proxy, xmrig, xvb);
}

proof fn lemma_concat_slots(
    node: Option<Alert>,
    p2pool: Option<Alert>,
    proxy: Option<Alert>,
    xmrig: Option<Alert>,
    xvb: Option<Alert>,
)
    ensures
        ({
            let r = opt_seq(node) + opt_seq(p2pool) + opt_seq(proxy) + opt_seq(xmrig) + opt_seq(xvb);
            &&& forall|i: int| 0 <= i < r.len() ==>
                (r[i] == node->0 && node is Some) || (r[i] == p2pool->0 && p2pool is Some)
                || (r[i] == proxy->0 && proxy is Some) || (r[i] == xmrig->0 && xmrig is Some)
                || (r[i] == xvb->0 && xvb is Some)
            &&& node is Some ==> r.contains(node->0)
            &&& p2pool is Some ==> r.contains(p2pool->0)
            &&& proxy is Some ==> r.contains(proxy->0)
            &&& xmrig is Some ==> r.contains(xmrig->0)
            &&& xvb is Some ==> r.contains(xvb->0)
        }),
{
    let a = opt_seq(node);
    let b = opt_seq(p2pool);
    let c = opt_seq(proxy);
    let d = opt_seq(xmrig);
    let e = opt_seq(xvb);
    let r = a + b + c + d + e;
    assert forall|i: int| 0 <= i < r.len() implies
        (r[i] == node->0 && node is Some) || (r[i] == p2pool->0 && p2pool is Some)
        || (r[i] == proxy->0 && proxy is Some) || (r[i] == xmrig->0 && xmrig is Some)
        || (r[i] == xvb->0 && xvb is Some) by {
        if i < a.len() {
        } else if i < a.len() + b.len() {
            assert(r[i] == b[i - a.len()]);
        } else if i < a.len() + b.len() + c.len() {
            assert(r[i] == c[i - a.len() - b.len()]);
        } else if i < a.len() + b.len() + c.len() + d.len() {
            assert(r[i] == d[i - a.len() - b.len() - c.len()]);
        } else {
            assert(r[i] == e[i - a.len() - b.len() - c.len() - d.len()]);
        }
    }
    if node is Some {
        assert(r[0] == node->0);
    }
    if p2pool is Some {
        assert(r[a.len() as int] == p2pool->0);
    }
    if proxy is Some {
        assert(r[(a.len() + b.len()) as int] == proxy->0);
    }
    if xmrig is Some {
        assert(r[(a.len() + b.len() + c.len()) as int] == xmrig->0);
    }
    if xvb is Some {
        assert(r[(a.len() + b.len() + c.len() + d.len()) as int] == xvb->0);
    }
}

/// What one step does for process `p`: it reports a failure of `p` exactly
/// on a service check that reads `p` in a failure state while `p` is held
/// alive; `p` is then held alive when read `Alive`, no longer held after a
/// report, and as before otherwise.
pub proof fn lemma_step_watch(s: NotificationService, n: Notification, obs: Observation, p: ProcessName)
    ensures
        reports_failure(step(s, n, obs).1, p) == (n == Notification::FailedService && watched_alive(s, p)
            && is_failure_state(p, watched_state(obs, p))),
        watched_alive(step(s, n, obs).0, p) == (if sees_alive((n, obs), p) {
            true
        } else if reports_failure(step(s, n, obs).1, p) {
            false
        } else {
            watched_alive(s, p)
        }),
{
    if n == Notification::FailedService {
        lemma_step_watch_check(s, obs, p);
    } else {
        lemma_step_watch_other(s, n, obs, p);
    }
}

proof fn lemma_step_watch_other(s: NotificationService, n: Notification, obs: Observation, p: ProcessName)
    requires
        n != Notification::FailedService,
    ensures
        !reports_failure(step(s, n, obs).1, p),
        watched_alive(step(s, n, obs).0, p) == watched_alive(s, p),
{
    let r = step(s, n, obs).1;
    assert(r.len() <= 1);
    assert(r.len() == 1 ==> !is_failure_of(r[0], p));
    if reports_failure(r, p) {
        let i = choose|i: int| 0 <= i < r.len() && is_failure_of(r[i], p);
        assert(i == 0);
    }
}

proof fn lemma_step_watch_check(s: NotificationService, obs: Observation, p: ProcessName)
    ensures
        reports_failure(step(s, Notification::FailedService, obs).1, p) == (watched_alive(s, p)
            && is_failure_state(p, watched_state(obs, p))),
        watched_alive(step(s, Notification::FailedService, obs).0, p) == (if sees_alive((Notification::FailedService, obs), p) {
            true
        } else if reports_failure(step(s, Notification::FailedService, obs).1, p) {
            false
        } else {
            watched_alive(s, p)
        }),
{
    assert(step(s, Notification::FailedService, obs).1 == check_alerts(s, obs));
    match p {
        ProcessName::Node => lemma_check_node(s, obs),
        ProcessName::P2pool => lemma_check_p2pool(s, obs),
        ProcessName::XmrigProxy => lemma_check_proxy(s, obs),
        ProcessName::Xmrig => lemma_check_xmrig(s, obs),
        ProcessName::Xvb => lemma_check_xvb(s, obs),
    }
}

/// Whether slot `o` holds no failure of `p`.
pub open spec fn no_failure_in(o: Option<Alert>, p: ProcessName) -> bool {
    o is Some ==> !is_failure_of(o->0, p)
}

/// In the alerts of five slots, a failure of `p` is reported exactly when
/// slot `t` holds one, provided that every other slot holds none.
proof fn lemma_reports_of_slots(o: Seq<Option<Alert>>, t: int, p: ProcessName)
    requires
        o.len() == 5,
        0 <= t < 5,
        o[t] is Some ==> is_failure_of(o[t]->0, p),
        forall|u: int| 0 <= u < 5 && u != t ==> no_failure_in(#[trigger] o[u], p),
    ensures
        reports_failure(opt_seq(o[0]) + opt_seq(o[1]) + opt_seq(o[2]) + opt_seq(o[3]) + opt_seq(o[4]), p)
            == o[t] is Some,
{
    let r = opt_seq(o[0]) + opt_seq(o[1]) + opt_seq(o[2]) + opt_seq(o[3]) + opt_seq(o[4]);
    lemma_concat_slots(o[0], o[1], o[2], o[3], o[4]);
    assert(no_failure_in(o[0], p) || t == 0);
    assert(no_failure_in(o[1], p) || t == 1);
    assert(no_failure_in(o[2], p) || t == 2);
    assert(no_failure_in(o[3], p) || t == 3);
    assert(no_failure_in(o[4], p) || t == 4);
    if o[t] is Some {
        let i = choose|i: int| 0 <= i < r.len() && r[i] == o[t]->0;
        assert(is_failure_of(r[i], p));
    }
    if reports_failure(r, p) {
        let i = choose|i: int| 0 <= i < r.len() && is_failure_of(r[i], p);
        assert(is_failure_of(r[i], p));
    }
}

proof fn lemma_check_node(s: NotificationService, obs: Observation)
    ensures
        reports_failure(check_alerts(s, obs), ProcessName::Node)
            == (s.node_alive && is_failure_state(ProcessName::Node, obs.node)),
{
    let o = seq![
        node_alert(s.node_alive || obs.node == ProcessState::Alive, obs.node),
        p2pool_alert(s.p2pool_alive || obs.p2pool == ProcessState::Alive, obs.p2pool),
        proxy_alert(s.proxy_alive || obs.xmrig_proxy == ProcessState::Alive, obs.xmrig_proxy),
        xmrig_alert(s.xmrig_alive || obs.xmrig == ProcessState::Alive, obs.xmrig),
        xvb_alert(s.xvb_alive || obs.xvb == ProcessState::Alive, obs.xvb),
    ];
    assert(check_alerts(s, obs) == opt_seq(o[0]) + opt_seq(o[1]) + opt_seq(o[2]) + opt_seq(o[3]) + opt_seq(o[4]));
    assert forall|u: int| 0 <= u < 5 && u != 0 implies no_failure_in(#[trigger] o[u], ProcessName::Node) by {
        assert(u == 0 || u == 1 || u == 2 || u == 3 || u == 4);
    }
    lemma_reports_of_slots(o, 0, ProcessName::Node);
}

proof fn lemma_check_p2pool(s: NotificationService, obs: Observation)
    ensures
        reports_failure(check_alerts(s, obs), ProcessName::P2pool)
            == (s.p2pool_alive && is_failure_state(ProcessName::P2pool, obs.p2pool)),
{
    let o = seq![
        node_alert(s.node_alive || obs.node == ProcessState::Alive, obs.node),
        p2pool_alert(s.p2pool_alive || obs.p2pool == ProcessState::Alive, obs.p2pool),
        proxy_alert(s.proxy_alive || obs.xmrig_proxy == ProcessState::Alive, obs.xmrig_proxy),
        xmrig_alert(s.xmrig_alive || obs.xmrig == ProcessState::Alive, obs.xmrig),
        xvb_alert(s.xvb_alive || obs.xvb == ProcessState::Alive, obs.xvb),
    ];
    assert(check_alerts(s, obs) == opt_seq(o[0]) + opt_seq(o[1]) + opt_seq(o[2]) + opt_seq(o[3]) + opt_seq(o[4]));
    assert forall|u: int| 0 <= u < 5 && u != 1 implies no_failure_in(#[trigger] o[u], ProcessName::P2pool) by {
        assert(u == 0 || u == 1 || u == 2 || u == 3 || u == 4);
    }
    lemma_reports_of_slots(o, 1, ProcessName::P2pool);
}

proof fn lemma_check_proxy(s: NotificationService, obs: Observation)
    ensures
        reports_failure(check_alerts(s, obs), ProcessName::XmrigProxy)
            == (s.proxy_alive && is_failure_state(ProcessName::XmrigProxy, obs.xmrig_proxy)),
{
    let o = seq![
        node_alert(s.node_alive || obs.node == ProcessState::Alive, obs.node),
        p2pool_alert(s.p2pool_alive || obs.p2pool == ProcessState::Alive, obs.p2pool),
        proxy_alert(s.proxy_alive || obs.xmrig_proxy == ProcessState::Alive, obs.xmrig_proxy),
        xmrig_alert(s.xmrig_alive || obs.xmrig == ProcessState::Alive, obs.xmrig),
        xvb_alert(s.xvb_alive || obs.xvb == ProcessState::Alive, obs.xvb),
    ];
    assert(check_alerts(s, obs) == opt_seq(o[0]) + opt_seq(o[1]) + opt_seq(o[2]) + opt_seq(o[3]) + opt_seq(o[4]));
    assert forall|u: int| 0 <= u < 5 && u != 2 implies no_failure_in(#[trigger] o[u], ProcessName::XmrigProxy) by {
        assert(u == 0 || u == 1 || u == 2 || u == 3 || u == 4);
    }
    lemma_reports_of_slots(o, 2, ProcessName::XmrigProxy);
}

proof fn lemma_check_xmrig(s: NotificationService, obs: Observation)
    ensures
        reports_failure(check_alerts(s, obs), ProcessName::Xmrig)
            == (s.xmrig_alive && is_failure_state(ProcessName::Xmrig, obs.xmrig)),
{
    let o = seq![
        node_alert(s.node_alive || obs.node == ProcessState::Alive, obs.node),
        p2pool_alert(s.p2pool_alive || obs.p2pool == ProcessState::Alive, obs.p2pool),
        proxy_alert(s.proxy_alive || obs.xmrig_proxy == ProcessState::Alive, obs.xmrig_proxy),
        xmrig_alert(s.xmrig_alive || obs.xmrig == ProcessState::Alive, obs.xmrig),
        xvb_alert(s.xvb_alive || obs.xvb == ProcessState::Alive, obs.xvb),
    ];
    assert(check_alerts(s, obs) == opt_seq(o[0]) + opt_seq(o[1]) + opt_seq(o[2]) + opt_seq(o[3]) + opt_seq(o[4]));
    assert forall|u: int| 0 <= u < 5 && u != 3 implies no_failure_in(#[trigger] o[u], ProcessName::Xmrig) by {
        assert(u == 0 || u == 1 || u == 2 || u == 3 || u == 4);
    }
    lemma_reports_of_slots(o, 3, ProcessName::Xmrig);
}

proof fn lemma_check_xvb(s: NotificationService, obs: Observation)
    ensures
        reports_failure(check_alerts(s, obs), ProcessName::Xvb)
            == (s.xvb_alive && is_failure_state(ProcessName::Xvb, obs.xvb)),
{
    let o = seq![
        node_alert(s.node_alive || obs.node == ProcessState::Alive, obs.node),
        p2pool_alert(s.p2pool_alive || obs.p2pool == ProcessState::Alive, obs.p2pool),
        proxy_alert(s.proxy_alive || obs.xmrig_proxy == ProcessState::Alive, obs.xmrig_proxy),
        xmrig_alert(s.xmrig_alive || obs.xmrig == ProcessState::Alive, obs.xmrig),
        xvb_alert(s.xvb_alive || obs.xvb == ProcessState::Alive, obs.xvb),
    ];
    assert(check_alerts(s, obs) == opt_seq(o[0]) + opt_seq(o[1]) + opt_seq(o[2]) + opt_seq(o[3]) + opt_seq(o[4]));
    assert forall|u: int| 0 <= u < 5 && u != 4 implies no_failure_in(#[trigger] o[u], ProcessName::Xvb) by {
        assert(u == 0 || u == 1 || u == 2 || u == 3 || u == 4);
    }
    lemma_reports_of_slots(o, 4, ProcessName::Xvb);
}

/// Whether the `k`-th event of a run reports a failure of `p`.
pub open spec fn reported_at(s: NotificationService, events: Seq<(Notification, Observation)>, p: ProcessName, k: int) -> bool {
    reports_failure(alerts_at(s, events, k), p)
}

/// Over a whole run of a service that did not hold `p` alive at its start, a
/// failure of `p` is reported at an event exactly when that event is a service
/// check reading `p` in a failure state and `p` was read alive at an earlier
/// event with no failure of `p` reported since.
pub proof fn lemma_failure_reports_in_run(
    s: NotificationService,
    events: Seq<(Notification, Observation)>,
    p: ProcessName,
    k: int,
)
    requires
        !watched_alive(s, p),
        0 <= k < events.len(),
    ensures
        reported_at(s, events, p, k) == (events[k].0 == Notification::FailedService
            && is_failure_state(p, watched_state(events[k].1, p))
            && seen_alive_since_report(s, events, p, k)),
{
    lemma_held_alive_iff_seen(s, events, p, k);
    lemma_step_watch(state_after(s, events, k), events[k].0, events[k].1, p);
}

/// From a start that does not hold `p` alive, `p` is held alive after `k`
/// events exactly when it was read alive with no failure reported since.
proof fn lemma_held_alive_iff_seen(
    s: NotificationService,
    events: Seq<(Notification, Observation)>,
    p: ProcessName,
    k: int,
)
    requires
        !watched_alive(s, p),
        0 <= k <= events.len(),
    ensures
        watched_alive(state_after(s, events, k), p) == seen_alive_since_report(s, events, p, k),
    decreases k,
{
    if k > 0 {
        let i = k - 1;
        lemma_held_alive_iff_seen(s, events, p, i);
        lemma_step_watch(state_after(s, events, i), events[i].0, events[i].1, p);
        if sees_alive(events[i], p) {
            lemma_seen_after_alive(s, events, p, i);
        } else if reported_at(s, events, p, i) {
            lemma_seen_after_report(s, events, p, i);
        } else {
            lemma_seen_unchanged(s, events, p, i);
        }
    }
}

proof fn lemma_seen_after_alive(s: NotificationService, events: Seq<(Notification, Observation)>, p: ProcessName, i: int)
    requires
        0 <= i < events.len(),
        sees_alive(events[i], p),
        !reported_at(s, events, p, i),
    ensures
        seen_alive_since_report(s, events, p, i + 1),
{
    assert forall|m: int| i <= m < i + 1 implies !reports_failure(#[trigger] alerts_at(s, events, m), p) by {
        assert(m == i);
    }
}

proof fn lemma_seen_after_report(s: NotificationService, events: Seq<(Notification, Observation)>, p: ProcessName, i: int)
    requires
        0 <= i < events.len(),
        reported_at(s, events, p, i),
    ensures
        !seen_alive_since_report(s, events, p, i + 1),
{
    if seen_alive_since_report(s, events, p, i + 1) {
        let j = choose|j: int| 0 <= j < i + 1 && sees_alive(#[trigger] events[j], p)
            && forall|m: int| j <= m < i + 1 ==> !reports_failure(#[trigger] alerts_at(s, events, m), p);
        assert(!reports_failure(alerts_at(s, events, i), p));
    }
}

proof fn lemma_seen_unchanged(s: NotificationService, events: Seq<(Notification, Observation)>, p: ProcessName, i: int)
    requires
        0 <= i < events.len(),
        !sees_alive(events[i], p),
        !reported_at(s, events, p, i),
    ensures
        seen_alive_since_report(s, events, p, i + 1) == seen_alive_since_report(s, events, p, i),
{
    lemma_seen_shrinks(s, events, p, i);
    lemma_seen_grows(s, events, p, i);
}

proof fn lemma_seen_shrinks(s: NotificationService, events: Seq<(Notification, Observation)>, p: ProcessName, i: int)
    requires
        0 <= i < events.len(),
        !sees_alive(events[i], p),
    ensures
        seen_alive_since_report(s, events, p, i + 1) ==> seen_alive_since_report(s, events, p, i),
{
    if seen_alive_since_report(s, events, p, i + 1) {
        let j = choose|j: int| 0 <= j < i + 1 && sees_alive(#[trigger] events[j], p)
            && forall|m: int| j <= m < i + 1 ==> !reports_failure(#[trigger] alerts_at(s, events, m), p);
        assert(j != i);
        assert(0 <= j < i && sees_alive(events[j], p));
    }
}

proof fn lemma_seen_grows(s: NotificationService, events: Seq<(Notification, Observation)>, p: ProcessName, i: int)
    requires
        0 <= i < events.len(),
        !reported_at(s, events, p, i),
    ensures
        seen_alive_since_report(s, events, p, i) ==> seen_alive_since_report(s, events, p, i + 1),
{
    if seen_alive_since_report(s, events, p, i) {
        let j = choose|j: int| 0 <= j < i && sees_alive(#[trigger] events[j], p)
            && forall|m: int| j <= m < i ==> !reports_failure(#[trigger] alerts_at(s, events, m), p);
        assert forall|m: int| j <= m < i + 1 implies !reports_failure(#[trigger] alerts_at(s, events, m), p) by {
            if m == i {
                assert(!reported_at(s, events, p, i));
            }
        }
        assert(0 <= j < i + 1 && sees_alive(events[j], p));
    }
}

/// Between two failure reports of `p` in a run, `p` was read alive: one
/// report per period in which `p` is alive.
pub proof fn lemma_one_failure_report_per_alive_period(
    s: NotificationService,
    events: Seq<(Notification, Observation)>,
    p: ProcessName,
    k1: int,
    k2: int,
)
    requires
        !watched_alive(s, p),
        0 <= k1 < k2 < events.len(),
        reported_at(s, events, p, k1),
        reported_at(s, events, p, k2),
    ensures
        exists|m: int| k1 < m < k2 && sees_alive(#[trigger] events[m], p),
{
    lemma_failure_reports_in_run(s, events, p, k2);
    let j = choose|j: int| 0 <= j < k2 && sees_alive(#[trigger] events[j], p)
        && forall|m: int| j <= m < k2 ==> !reports_failure(#[trigger] alerts_at(s, events, m), p);
    if j <= k1 {
        assert(!reports_failure(alerts_at(s, events, k1), p));
    }
    assert(k1 < j < k2 && sees_alive(events[j], p));
}

proof fn lemma_first_share_monotone(s: NotificationService, events: Seq<(Notification, Observation)>, i: int, j: int)
    requires
        0 <= i <= j <= events.len(),
        state_after(s, events, i).first_share_found,
    ensures
        state_after(s, events, j).first_share_found,
    decreases j - i,
{
    if i < j {
        lemma_first_share_monotone(s, events, i, j - 1);
        lemma_first_share_once(state_after(s, events, j - 1), events[j - 1].0, events[j - 1].1);
    }
}

/// Over a whole run the first share is notified at most once, and only on a
/// first-share check that reads P2Pool alive with exactly one share found.
pub proof fn lemma_first_share_once_in_run(
    s: NotificationService,
    events: Seq<(Notification, Observation)>,
    k1: int,
    k2: int,
)
    requires
        0 <= k1 < events.len(),
        0 <= k2 < events.len(),
        alerts_at(s, events, k1).contains(Alert::FirstShare),
        alerts_at(s, events, k2).contains(Alert::FirstShare),
    ensures
        k1 == k2,
        events[k1].0 == Notification::FirstP2poolShare,
        events[k1].1.p2pool == ProcessState::Alive,
        events[k1].1.shares_found == Some(1u64),
{
    let st1 = state_after(s, events, k1);
    lemma_step_alert_kinds(st1, events[k1].0, events[k1].1);
    let i1 = choose|i: int| 0 <= i < alerts_at(s, events, k1).len() && alerts_at(s, events, k1)[i] == Alert::FirstShare;
    assert(alert_kind(alerts_at(s, events, k1)[i1]) == events[k1].0);
    let st2 = state_after(s, events, k2);
    lemma_step_alert_kinds(st2, events[k2].0, events[k2].1);
    let i2 = choose|i: int| 0 <= i < alerts_at(s, events, k2).len() && alerts_at(s, events, k2)[i] == Alert::FirstShare;
    assert(alert_kind(alerts_at(s, events, k2)[i2]) == events[k2].0);
    if k1 != k2 {
        let (a, b) = if k1 < k2 { (k1, k2) } else { (k2, k1) };
        assert(state_after(s, events, a + 1).first_share_found);
        lemma_first_share_monotone(s, events, a + 1, b);
        lemma_first_share_once(state_after(s, events, b), events[b].0, events[b].1);
    }
}

/// The alerts of a run follow the subscriptions read at each event: an event
/// raises only alerts of the notification it handles, so a notification that
/// is not subscribed at some point raises nothing then, and a run with no
/// subscription raises nothing at all.
pub proof fn lemma_alerts_follow_subscriptions(s: NotificationService, events: Seq<(Notification, Observation)>, k: int)
    requires
        0 <= k < events.len(),
    ensures
        forall|i: int| 0 <= i < alerts_at(s, events, k).len() ==> alert_kind(#[trigger] alerts_at(s, events, k)[i]) == events[k].0,
{
    lemma_step_alert_kinds(state_after(s, events, k), events[k].0, events[k].1);
}

} // verus!

verus! {

/// An alert is among those of five slots exactly when one of the slots holds it.
proof fn lemma_contains_slots(o: Seq<Option<Alert>>, a: Alert)
    requires
        o.len() == 5,
    ensures
        (opt_seq(o[0]) + opt_seq(o[1]) + opt_seq(o[2]) + opt_seq(o[3]) + opt_seq(o[4])).contains(a)
            == (o[0] == Some(a) || o[1] == Some(a) || o[2] == Some(a) || o[3] == Some(a) || o[4] == Some(a)),
{
    let r = opt_seq(o[0]) + opt_seq(o[1]) + opt_seq(o[2]) + opt_seq(o[3]) + opt_seq(o[4]);
    lemma_concat_slots(o[0], o[1], o[2], o[3], o[4]);
    if r.contains(a) {
        let i = choose|i: int| 0 <= i < r.len() && r[i] == a;
        assert(r[i] == a);
    }
}

/// The slots of a service check, in order.
pub open spec fn check_slots(s: NotificationService, obs: Observation) -> Seq<Option<Alert>> {
    seq![
        node_alert(s.node_alive || obs.node == ProcessState::Alive, obs.node),
        p2pool_alert(s.p2pool_alive || obs.p2pool == ProcessState::Alive, obs.p2pool),
        proxy_alert(s.proxy_alive || obs.xmrig_proxy == ProcessState::Alive, obs.xmrig_proxy),
        xmrig_alert(s.xmrig_alive || obs.xmrig == ProcessState::Alive, obs.xmrig),
        xvb_alert(s.xvb_alive || obs.xvb == ProcessState::Alive, obs.xvb),
    ]
}

proof fn lemma_check_contains(s: NotificationService, obs: Observation, a: Alert)
    ensures
        step(s, Notification::FailedService, obs).1.contains(a) == ({
            let o = check_slots(s, obs);
            o[0] == Some(a) || o[1] == Some(a) || o[2] == Some(a) || o[3] == Some(a) || o[4] == Some(a)
        }),
{
    let o = check_slots(s, obs);
    assert(step(s, Notification::FailedService, obs).1
        == opt_seq(o[0]) + opt_seq(o[1]) + opt_seq(o[2]) + opt_seq(o[3]) + opt_seq(o[4]));
    lemma_contains_slots(o, a);
}

/// A service check names the failure by the state read: for a process held
/// alive, each of its failure states raises that state's own alert and none of
/// the process's other failure alerts.
pub proof fn lemma_failure_alert_names_state(s: NotificationService, obs: Observation)
    ensures
        ({
            let r = step(s, Notification::FailedService, obs).1;
            &&& s.node_alive && obs.node == ProcessState::Failed
                ==> r.contains(Alert::NodeFailed) && !r.contains(Alert::NodeSyncing)
            &&& s.node_alive && obs.node == ProcessState::Syncing
                ==> r.contains(Alert::NodeSyncing) && !r.contains(Alert::NodeFailed)
            &&& s.p2pool_alive && obs.p2pool == ProcessState::Failed
                ==> r.contains(Alert::P2poolFailed) && !r.contains(Alert::P2poolSyncing)
            &&& s.p2pool_alive && obs.p2pool == ProcessState::Syncing
                ==> r.contains(Alert::P2poolSyncing) && !r.contains(Alert::P2poolFailed)
            &&& s.proxy_alive && obs.xmrig_proxy == ProcessState::Failed
                ==> r.contains(Alert::ProxyFailed) && !r.contains(Alert::ProxyNotMining)
            &&& s.proxy_alive && obs.xmrig_proxy == ProcessState::NotMining
                ==> r.contains(Alert::ProxyNotMining) && !r.contains(Alert::ProxyFailed)
            &&& s.xmrig_alive && obs.xmrig == ProcessState::Failed
                ==> r.contains(Alert::XmrigFailed) && !r.contains(Alert::XmrigNotMining)
            &&& s.xmrig_alive && obs.xmrig == ProcessState::NotMining
                ==> r.contains(Alert::XmrigNotMining) && !r.contains(Alert::XmrigFailed)
            &&& s.xvb_alive && obs.xvb == ProcessState::Failed
                ==> r.contains(Alert::XvbFailed) && !r.contains(Alert::XvbOfflinePools) && !r.contains(Alert::XvbWaiting)
            &&& s.xvb_alive && obs.xvb == ProcessState::OfflinePoolsAll
                ==> r.contains(Alert::XvbOfflinePools) && !r.contains(Alert::XvbFailed) && !r.contains(Alert::XvbWaiting)
            &&& s.xvb_alive && obs.xvb == ProcessState::Syncing
                ==> r.contains(Alert::XvbWaiting) && !r.contains(Alert::XvbFailed) && !r.contains(Alert::XvbOfflinePools)
        }),
{
    lemma_check_contains(s, obs, Alert::NodeFailed);
    lemma_check_contains(s, obs, Alert::NodeSyncing);
    lemma_check_contains(s, obs, Alert::P2poolFailed);
    lemma_check_contains(s, obs, Alert::P2poolSyncing);
    lemma_check_contains(s, obs, Alert::ProxyFailed);
    lemma_check_contains(s, obs, Alert::ProxyNotMining);
    lemma_check_contains(s, obs, Alert::XmrigFailed);
    lemma_check_contains(s, obs, Alert::XmrigNotMining);
    lemma_check_contains(s, obs, Alert::XvbFailed);
    lemma_check_contains(s, obs, Alert::XvbOfflinePools);
    lemma_check_contains(s, obs, Alert::XvbWaiting);
}

} // verus!
