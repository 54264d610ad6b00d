use gupax::app::{App, FileWindow, Gupax, Node, P2pool, State, Status, Updates, Xmrig, XmrigProxy, Xvb};
use gupax::errors::ErrorState;
use gupax::keys::KeyPressed;
use gupax::process::ProcessName;
use gupax::submenu::{Submenu, SubmenuGupax, SubmenuP2pool, SubmenuStatus};
use gupax::tab::Tab;

fn all_processes() -> Vec<ProcessName> {
    vec![
        ProcessName::Node,
        ProcessName::P2pool,
        ProcessName::Xmrig,
        ProcessName::XmrigProxy,
        ProcessName::Xvb,
    ]
}

fn app(tab: Tab, show: Vec<ProcessName>) -> App {
    App {
        tab,
        state: State {
            status: Status { submenu: SubmenuStatus::Processes },
            gupax: Gupax {
                submenu: SubmenuGupax::Simple,
                show_processes: show,
                updates: Updates { ask_download_start: true },
                p2pool_path: String::new(),
                xmrig_path: String::new(),
                xmrig_proxy_path: String::new(),
                node_path: String::new(),
            },
            node: Node { simple: true },
            p2pool: P2pool { submenu: SubmenuP2pool::Simple },
            xmrig: Xmrig { simple: true },
            xmrig_proxy: XmrigProxy { simple: true },
            xvb: Xvb { simple: true },
        },
        error_state: ErrorState::new(),
        ask_download_start_acknowledge: false,
        xmrig_outside_warning_acknowledge: false,
    }
}

#[test]
fn key_predicates() {
    assert!(KeyPressed::F11.is_f11());
    assert!(!KeyPressed::Z.is_f11());
    assert!(KeyPressed::Z.is_z());
    assert!(KeyPressed::X.is_x());
    assert!(KeyPressed::Up.is_up());
    assert!(KeyPressed::Down.is_down());
    assert!(KeyPressed::Esc.is_esc());
    assert!(KeyPressed::S.is_s());
    assert!(KeyPressed::R.is_r());
    assert!(KeyPressed::D.is_d());
    assert!(KeyPressed::C.is_c());
    assert!(KeyPressed::V.is_v());
    assert!(!KeyPressed::NoKey.is_v());
}

#[test]
fn keys_are_read_by_priority() {
    assert_eq!(
        KeyPressed::by_priority(),
        vec![
            KeyPressed::F11,
            KeyPressed::Z,
            KeyPressed::X,
            KeyPressed::C,
            KeyPressed::V,
            KeyPressed::Up,
            KeyPressed::Down,
            KeyPressed::Esc,
            KeyPressed::S,
            KeyPressed::R,
            KeyPressed::D
        ]
    );
}

#[test]
fn select_takes_the_first_key_by_priority() {
    assert_eq!(KeyPressed::select(&vec![KeyPressed::D, KeyPressed::Z, KeyPressed::C]), KeyPressed::Z);
    assert_eq!(KeyPressed::select(&vec![KeyPressed::Esc, KeyPressed::F11]), KeyPressed::F11);
    assert_eq!(KeyPressed::select(&vec![KeyPressed::S, KeyPressed::Down]), KeyPressed::Down);
    assert_eq!(KeyPressed::select(&vec![]), KeyPressed::NoKey);
    assert_eq!(KeyPressed::select(&vec![KeyPressed::NoKey]), KeyPressed::NoKey);
}

#[test]
fn picked_paths_are_taken_once() {
    let mut a = app(Tab::Settings, all_processes());
    a.state.gupax.xmrig_path = "old/xmrig".to_string();
    let mut w = FileWindow {
        thread: false,
        picked_p2pool: true,
        picked_xmrig: false,
        picked_xp: false,
        picked_node: true,
        p2pool_path: "new/p2pool".to_string(),
        xmrig_path: "new/xmrig".to_string(),
        xmrig_proxy_path: "new/proxy".to_string(),
        node_path: "new/monerod".to_string(),
    };
    a.take_picked_paths(&mut w);
    assert_eq!(a.state.gupax.p2pool_path, "new/p2pool");
    assert_eq!(a.state.gupax.xmrig_path, "old/xmrig");
    assert_eq!(a.state.gupax.xmrig_proxy_path, "");
    assert_eq!(a.state.gupax.node_path, "new/monerod");
    assert!(!w.picked_p2pool && !w.picked_node);
    a.state.gupax.p2pool_path = "edited".to_string();
    a.take_picked_paths(&mut w);
    assert_eq!(a.state.gupax.p2pool_path, "edited");
}

#[test]
fn visible_tabs_follow_shown_processes() {
    assert_eq!(Tab::from_show_processes(&vec![]), vec![Tab::About, Tab::Status, Tab::Settings]);
    assert_eq!(
        Tab::from_show_processes(&vec![ProcessName::Xvb, ProcessName::P2pool]),
        vec![Tab::About, Tab::Status, Tab::Settings, Tab::P2pool, Tab::Xvb]
    );
    assert_eq!(
        Tab::from_show_processes(&all_processes()),
        vec![
            Tab::About,
            Tab::Status,
            Tab::Settings,
            Tab::Node,
            Tab::P2pool,
            Tab::Xmrig,
            Tab::XmrigProxy,
            Tab::Xvb
        ]
    );
}

#[test]
fn z_and_x_wrap_around_shown_tabs() {
    let mut a = app(Tab::About, all_processes());
    assert!(!a.keys_handle(KeyPressed::Z, false, false));
    assert_eq!(a.tab, Tab::Xvb);
    a.keys_handle(KeyPressed::X, false, false);
    assert_eq!(a.tab, Tab::About);
    a.keys_handle(KeyPressed::X, false, false);
    assert_eq!(a.tab, Tab::Status);

    let mut b = app(Tab::Settings, vec![ProcessName::P2pool]);
    b.keys_handle(KeyPressed::X, false, false);
    assert_eq!(b.tab, Tab::P2pool);
    b.keys_handle(KeyPressed::X, false, false);
    assert_eq!(b.tab, Tab::About);
    b.keys_handle(KeyPressed::Z, false, false);
    assert_eq!(b.tab, Tab::P2pool);
}

#[test]
fn c_and_v_cycle_submenus() {
    let mut a = app(Tab::Status, all_processes());
    a.keys_handle(KeyPressed::C, false, false);
    assert_eq!(a.state.status.submenu, SubmenuStatus::Benchmarks);
    a.keys_handle(KeyPressed::V, false, false);
    assert_eq!(a.state.status.submenu, SubmenuStatus::Processes);
    a.keys_handle(KeyPressed::V, false, false);
    assert_eq!(a.state.status.submenu, SubmenuStatus::P2pool);

    let mut s = app(Tab::Settings, all_processes());
    s.keys_handle(KeyPressed::C, false, false);
    assert_eq!(s.state.gupax.submenu, SubmenuGupax::Updates);

    let mut p = app(Tab::P2pool, all_processes());
    p.keys_handle(KeyPressed::V, false, false);
    assert_eq!(p.state.p2pool.submenu, SubmenuP2pool::Advanced);
    p.keys_handle(KeyPressed::V, false, false);
    assert_eq!(p.state.p2pool.submenu, SubmenuP2pool::Crawler);
    p.keys_handle(KeyPressed::V, false, false);
    assert_eq!(p.state.p2pool.submenu, SubmenuP2pool::Simple);

    let mut n = app(Tab::Node, all_processes());
    n.keys_handle(KeyPressed::C, false, false);
    assert!(!n.state.node.simple);
    n.keys_handle(KeyPressed::V, false, false);
    assert!(n.state.node.simple);

    let mut x = app(Tab::Xvb, all_processes());
    x.keys_handle(KeyPressed::V, false, false);
    assert!(!x.state.xvb.simple);
    assert!(x.state.xmrig.simple);
}

#[test]
fn text_input_blocks_shortcuts() {
    let mut a = app(Tab::Status, all_processes());
    a.keys_handle(KeyPressed::Z, true, false);
    a.keys_handle(KeyPressed::C, true, false);
    assert_eq!(a.tab, Tab::Status);
    assert_eq!(a.state.status.submenu, SubmenuStatus::Processes);
}

#[test]
fn f11_asks_fullscreen_only_when_maximized() {
    let mut a = app(Tab::Status, all_processes());
    assert!(a.keys_handle(KeyPressed::F11, false, true));
    assert!(!a.keys_handle(KeyPressed::F11, false, false));
    assert!(!a.keys_handle(KeyPressed::S, false, true));
    assert_eq!(a.tab, Tab::Status);
}

#[test]
fn left_then_right_restores_state() {
    let mut a = app(Tab::XmrigProxy, vec![ProcessName::XmrigProxy, ProcessName::Node]);
    a.keys_handle(KeyPressed::Z, false, false);
    assert_eq!(a.tab, Tab::Node);
    a.keys_handle(KeyPressed::X, false, false);
    assert_eq!(a.tab, Tab::XmrigProxy);
    a.keys_handle(KeyPressed::C, false, false);
    a.keys_handle(KeyPressed::V, false, false);
    assert!(a.state.xmrig_proxy.simple);
}

#[test]
fn submenus_cycle_and_describe_themselves() {
    for s in SubmenuStatus::iter() {
        assert_eq!(s.next().prev(), s);
        assert_eq!(s.next().next().next(), s);
    }
    for s in SubmenuP2pool::iter() {
        assert_eq!(s.prev().next(), s);
    }
    for s in SubmenuGupax::iter() {
        assert_eq!(s.next().prev(), s);
    }
    assert_eq!(SubmenuStatus::P2pool.to_string(), "P2Pool");
    assert_eq!(SubmenuStatus::Benchmarks.to_string(), "Benchmarks");
    assert_eq!(SubmenuP2pool::Crawler.to_string(), "Crawler");
    assert_eq!(SubmenuGupax::Updates.to_string(), "Updates");
    assert_eq!(SubmenuStatus::default(), SubmenuStatus::Processes);
    assert_eq!(SubmenuP2pool::default(), SubmenuP2pool::Simple);
    assert_eq!(SubmenuGupax::default(), SubmenuGupax::Simple);
    assert_eq!(SubmenuStatus::P2pool.hover_text(), gupax::submenu::STATUS_SUBMENU_P2POOL);
    assert_eq!(SubmenuP2pool::Advanced.hover_text(), gupax::submenu::P2POOL_ADVANCED);
    assert_eq!(SubmenuGupax::Updates.hover_text(), gupax::submenu::GUPAX_UPDATES);
}
