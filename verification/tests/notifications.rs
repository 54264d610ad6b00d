use gupax::notification::{Alert, Notification, NotificationApi, NotificationService, Observation};
use gupax::process::ProcessState;

fn obs() -> Observation {
    Observation {
        node: ProcessState::Alive,
        p2pool: ProcessState::Alive,
        xmrig: ProcessState::Alive,
        xmrig_proxy: ProcessState::Alive,
        xvb: ProcessState::Alive,
        shares_found: None,
        payouts: 0,
        miners: 0,
    }
}

#[test]
fn first_share_is_notified_once() {
    let mut s = NotificationService::new();
    let mut o = obs();
    assert!(s.handle(Notification::FirstP2poolShare, &o).is_empty());
    o.shares_found = Some(1);
    assert_eq!(s.handle(Notification::FirstP2poolShare, &o), vec![Alert::FirstShare]);
    assert!(s.handle(Notification::FirstP2poolShare, &o).is_empty());
    assert!(s.first_share_found);
}

#[test]
fn first_share_needs_p2pool_alive() {
    let mut s = NotificationService::new();
    let mut o = obs();
    o.shares_found = Some(1);
    o.p2pool = ProcessState::Syncing;
    assert!(s.handle(Notification::FirstP2poolShare, &o).is_empty());
    o.shares_found = Some(2);
    o.p2pool = ProcessState::Alive;
    assert!(s.handle(Notification::FirstP2poolShare, &o).is_empty());
}

#[test]
fn payout_on_new_payouts_only() {
    let mut s = NotificationService::new();
    let mut o = obs();
    o.payouts = 2;
    assert_eq!(s.handle(Notification::Payout, &o), vec![Alert::Payout]);
    assert_eq!(s.last_payouts_count, 2);
    assert!(s.handle(Notification::Payout, &o).is_empty());
    o.payouts = 3;
    o.p2pool = ProcessState::Dead;
    assert!(s.handle(Notification::Payout, &o).is_empty());
    assert_eq!(Alert::Payout.message(), None);
}

#[test]
fn miner_count_changes_are_notified() {
    let mut s = NotificationService::new();
    let mut o = obs();
    o.miners = 5;
    assert_eq!(s.handle(Notification::DisconnectedMiner, &o), vec![Alert::MinersDisconnected(5)]);
    o.miners = 4;
    let a = s.handle(Notification::DisconnectedMiner, &o);
    assert_eq!(a, vec![Alert::MinersDisconnected(1)]);
    assert_eq!(a[0].message().unwrap(), "A miner has been disconnected from the Proxy");
    o.miners = 1;
    let b = s.handle(Notification::DisconnectedMiner, &o);
    assert_eq!(b[0].message().unwrap(), "3 miners have been disconnected from the Proxy");
    assert!(s.handle(Notification::DisconnectedMiner, &o).is_empty());
    assert_eq!(
        Alert::MinersDisconnected(1234).message().unwrap(),
        "1234 miners have been disconnected from the Proxy"
    );
}

#[test]
fn failures_are_notified_after_alive_once() {
    let mut s = NotificationService::new();
    let mut o = obs();
    o.node = ProcessState::Failed;
    assert!(s.handle(Notification::FailedService, &o).is_empty());
    o.node = ProcessState::Alive;
    assert!(s.handle(Notification::FailedService, &o).is_empty());
    assert!(s.node_alive && s.p2pool_alive && s.xmrig_alive && s.proxy_alive && s.xvb_alive);
    o.node = ProcessState::Syncing;
    o.p2pool = ProcessState::Failed;
    o.xmrig = ProcessState::NotMining;
    o.xmrig_proxy = ProcessState::Failed;
    o.xvb = ProcessState::OfflinePoolsAll;
    assert_eq!(
        s.handle(Notification::FailedService, &o),
        vec![
            Alert::NodeSyncing,
            Alert::P2poolFailed,
            Alert::ProxyFailed,
            Alert::XmrigNotMining,
            Alert::XvbOfflinePools
        ]
    );
    assert!(s.handle(Notification::FailedService, &o).is_empty());
    o.xvb = ProcessState::Alive;
    s.handle(Notification::FailedService, &o);
    o.xvb = ProcessState::Syncing;
    assert_eq!(s.handle(Notification::FailedService, &o), vec![Alert::XvbWaiting]);
}

#[test]
fn subscribed_notifications_drive_the_service() {
    let api = NotificationApi { notifications: vec![Notification::Payout, Notification::FirstP2poolShare] };
    let mut s = NotificationService::new();
    let mut o = obs();
    o.payouts = 1;
    o.shares_found = Some(1);
    let mut all = vec![];
    for n in api.notifications.iter() {
        all.extend(s.handle(*n, &o));
    }
    assert_eq!(all, vec![Alert::Payout, Alert::FirstShare]);
}

#[test]
fn alert_messages() {
    assert_eq!(Alert::FirstShare.message().unwrap(), "Gupax just found it's first P2Pool share !");
    assert_eq!(
        Alert::NodeSyncing.message().unwrap(),
        "The Monero Node was synced but is now syncing again\nCheck your network"
    );
    assert_eq!(Alert::NodeFailed.message().unwrap(), "The Monero Node is now in a failed state\nCheck your network");
    assert_eq!(
        Alert::P2poolSyncing.message().unwrap(),
        "The P2Pool node was synced but is now syncing again\nCheck your network"
    );
    assert_eq!(Alert::P2poolFailed.message().unwrap(), "The P2Pool node is now in a failed state\nCheck your network");
    assert_eq!(
        Alert::ProxyNotMining.message().unwrap(),
        "The Proxy was mining correctly but is not anymore\nCheck your network and the connection to the P2Pool node"
    );
    assert_eq!(Alert::ProxyFailed.message().unwrap(), "The Proxy is now in a failed state");
    assert_eq!(
        Alert::XmrigNotMining.message().unwrap(),
        "XMRig was mining correctly but is not anymore\nCheck your network and the connection to the P2Pool node/Proxy"
    );
    assert_eq!(Alert::XmrigFailed.message().unwrap(), "The XMRig is now in a failed state");
    assert_eq!(
        Alert::XvbOfflinePools.message().unwrap(),
        "XvB process is disconnected from all XvB Pool.It might be an issue with XvB server and not from Gupax"
    );
    assert_eq!(Alert::XvbFailed.message().unwrap(), "XvB process is now in a failed state");
    assert_eq!(
        Alert::XvbWaiting.message().unwrap(),
        "XvB process is stopped while waiting for P2Pool or XMRig or the Proxy"
    );
}

#[test]
fn one_failure_report_per_alive_period_over_a_run() {
    let mut s = NotificationService::new();
    let mut o = obs();
    let mut reports = vec![];
    let run = [
        ProcessState::Failed,
        ProcessState::Alive,
        ProcessState::Syncing,
        ProcessState::Failed,
        ProcessState::Syncing,
        ProcessState::Alive,
        ProcessState::Alive,
        ProcessState::Failed,
        ProcessState::Failed,
    ];
    for (k, st) in run.iter().enumerate() {
        o.node = *st;
        let alerts = s.handle(Notification::FailedService, &o);
        if alerts.contains(&Alert::NodeSyncing) || alerts.contains(&Alert::NodeFailed) {
            reports.push(k);
        }
    }
    assert_eq!(reports, vec![2, 7]);
}

#[test]
fn first_share_at_most_once_over_a_run() {
    let mut s = NotificationService::new();
    let mut o = obs();
    let mut count = 0;
    for shares in [None, Some(1), Some(1), Some(2), Some(1)] {
        o.shares_found = shares;
        count += s
            .handle(Notification::FirstP2poolShare, &o)
            .iter()
            .filter(|a| **a == Alert::FirstShare)
            .count();
    }
    assert_eq!(count, 1);
}

#[test]
fn unsubscribed_kinds_raise_nothing() {
    let mut s = NotificationService::new();
    let mut o = obs();
    o.payouts = 5;
    o.miners = 3;
    o.shares_found = Some(1);
    for a in s.handle(Notification::FailedService, &o) {
        assert!(a != Alert::Payout && a != Alert::FirstShare);
    }
    assert!(s.handle(Notification::FailedService, &o).is_empty());
    assert_eq!(s.last_payouts_count, 0);
    assert!(!s.first_share_found);
}
