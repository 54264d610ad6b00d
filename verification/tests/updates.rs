use gupax::app::{App, Gupax, Node, P2pool, State, Status, Updates, Xmrig, XmrigProxy, Xvb};
use gupax::errors::{ErrorButtons, ErrorFerris, ErrorState};
use gupax::submenu::{SubmenuGupax, SubmenuP2pool, SubmenuStatus};
use gupax::tab::Tab;
use gupax::updates::{BinariesFound, DOWNGRADE_BINARY_MSG, DOWNGRADE_GUPAX_MSG, SWITCH_BETA_MSG};

fn app(ask: bool) -> App {
    App {
        tab: Tab::Status,
        state: State {
            status: Status { submenu: SubmenuStatus::Processes },
            gupax: Gupax {
                submenu: SubmenuGupax::Updates,
                show_processes: vec![],
                updates: Updates { ask_download_start: ask },
                p2pool_path: String::new(),
                xmrig_path: String::new(),
                xmrig_proxy_path: String::new(),
                node_path: String::new(),
            },
            node: Node { simple: true },
            p2pool: P2pool { submenu: SubmenuP2pool::Simple },
            xmrig: Xmrig { simple: true },
            xmrig_proxy: XmrigProxy { simple: true },
            xvb: Xvb { simple: true },
        },
        error_state: ErrorState::new(),
        ask_download_start_acknowledge: false,
        xmrig_outside_warning_acknowledge: false,
    }
}

fn warn_data(a: &App) -> (String, String, String) {
    match &a.error_state.buttons {
        ErrorButtons::WarnUpdate(d) => (d.yes_button.clone(), d.no_button.clone(), d.name.clone()),
        _ => panic!("not an update warning"),
    }
}

#[test]
fn downgrade_of_a_binary_is_warned() {
    let mut a = app(false);
    assert!(!a.warn_downgrade("xmrig", "v6.21.0", "v6.22.1"));
    assert!(a.error_state.error);
    assert_eq!(a.error_state.msg, DOWNGRADE_BINARY_MSG);
    assert_eq!(a.error_state.ferris, ErrorFerris::Oops);
    assert_eq!(
        warn_data(&a),
        ("Yes downgrade".to_string(), "No Abort the downgrade".to_string(), "xmrig".to_string())
    );
}

#[test]
fn downgrade_of_gupax_is_warned_harder() {
    let mut a = app(false);
    assert!(!a.warn_downgrade("gupax", "v1.9.0", "v1.10.0"));
    assert_eq!(a.error_state.msg, DOWNGRADE_GUPAX_MSG);
}

#[test]
fn upgrades_and_unreadable_versions_pass() {
    let mut a = app(false);
    assert!(a.warn_downgrade("p2pool", "v4.2", "v4.1"));
    assert!(a.warn_downgrade("p2pool", "v4.1", "v4.1"));
    assert!(a.warn_downgrade("p2pool", "latest", "v4.1"));
    assert!(a.warn_downgrade("p2pool", "v1", "none"));
    assert!(a.warn_downgrade("p2pool", "v1", "99999999999"));
    assert!(!a.error_state.error);
    assert!(!a.warn_downgrade("p2pool", "v1", "4294967295"));
}

#[test]
fn switch_to_beta_is_warned() {
    let mut a = app(false);
    assert!(a.warn_switch_beta("gupax", "v1.10.0", "v1.9.0"));
    assert!(a.warn_switch_beta("gupax", "v1.10.0-BETA", "v1.9.0-BETA"));
    assert!(a.warn_switch_beta("gupax", "v1.10.0", "v1.9.0-BETA"));
    assert!(!a.error_state.error);
    assert!(!a.warn_switch_beta("gupax", "v1.10.0-BETA", "v1.9.0"));
    assert_eq!(a.error_state.msg, SWITCH_BETA_MSG);
    assert_eq!(a.error_state.ferris, ErrorFerris::Panic);
    assert_eq!(
        warn_data(&a),
        (
            "Yes, switch to BETA".to_string(),
            "No, stay in STABLE releases".to_string(),
            "gupax".to_string()
        )
    );
}

#[test]
fn missing_binaries_are_asked_once() {
    let mut a = app(true);
    let found = BinariesFound { p2pool: false, node: true, xmrig: false, xmrig_proxy: true };
    a.ask_download_binaries(&found);
    assert!(a.ask_download_start_acknowledge);
    assert!(a.error_state.error);
    assert_eq!(a.error_state.ferris, ErrorFerris::Cute);
    assert_eq!(
        a.error_state.msg,
        "Gupax is missing the binary of:\nP2Pool\n\nXMRig\n\n\nDo you want it to download them now ?"
    );
    assert_eq!(
        warn_data(&a),
        (
            "Download missing binaries".to_string(),
            "No, and do not ask again".to_string(),
            "p2pool xmrig".to_string()
        )
    );
    a.error_state = ErrorState::new();
    a.ask_download_binaries(&found);
    assert!(!a.error_state.error);
}

#[test]
fn all_missing_binaries_are_named() {
    let mut a = app(true);
    a.ask_download_binaries(&BinariesFound { p2pool: false, node: false, xmrig: false, xmrig_proxy: false });
    assert_eq!(warn_data(&a).2, "p2pool monerod xmrig xmrig-proxy");
    assert_eq!(
        a.error_state.msg,
        "Gupax is missing the binary of:\nP2Pool\nNode\nXMRig\nXMRig-Proxy\n\nDo you want it to download them now ?"
    );
}

#[test]
fn nothing_is_asked_when_all_found_or_not_wanted() {
    let mut a = app(true);
    a.ask_download_binaries(&BinariesFound { p2pool: true, node: true, xmrig: true, xmrig_proxy: true });
    assert!(!a.error_state.error);
    assert!(a.ask_download_start_acknowledge);
    let mut b = app(false);
    b.ask_download_binaries(&BinariesFound { p2pool: false, node: true, xmrig: true, xmrig_proxy: true });
    assert!(!b.error_state.error);
    assert!(b.ask_download_start_acknowledge);
}

#[test]
fn xmrig_outside_is_warned_once() {
    let mut a = app(false);
    a.warn_xmrig_outside(true, true);
    assert!(!a.error_state.error);
    a.warn_xmrig_outside(false, false);
    assert!(!a.error_state.error);
    a.warn_xmrig_outside(true, false);
    assert!(a.error_state.error);
    assert_eq!(a.error_state.msg, gupax::app::XMRIG_OUTSIDE_MSG);
    assert_eq!(a.error_state.ferris, ErrorFerris::Error);
    assert!(matches!(a.error_state.buttons, ErrorButtons::Okay));
    a.error_state = ErrorState::new();
    a.warn_xmrig_outside(true, false);
    assert!(!a.error_state.error);
}

#[test]
fn confirm_update_warns_downgrade_before_beta() {
    let mut a = app(false);
    assert!(!a.confirm_update("p2pool", "v4.0-BETA", "v4.1"));
    assert_eq!(a.error_state.ferris, ErrorFerris::Oops);
    let mut b = app(false);
    assert!(!b.confirm_update("p2pool", "v4.2-BETA", "v4.1"));
    assert_eq!(b.error_state.ferris, ErrorFerris::Panic);
    let mut c = app(false);
    assert!(c.confirm_update("p2pool", "v4.2", "v4.1"));
    assert!(!c.error_state.error);
}
