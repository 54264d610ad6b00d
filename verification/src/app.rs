use vstd::prelude::*;

use vstd::string::*;

use crate::errors::{ErrorButtons, ErrorFerris, ErrorState};
use crate::process::ProcessName;
use crate::submenu::{SubmenuGupax, SubmenuP2pool, SubmenuStatus};
use crate::tab::Tab;

verus! {

/// Settings of the Status tab.
#[derive(Debug)]
pub struct Status {
    pub submenu: SubmenuStatus,
}

/// Update settings.
#[derive(Debug)]
pub struct Updates {
    /// Ask at start whether to download the binaries that are missing.
    pub ask_download_start: bool,
}

/// Settings of Gupax itself.
#[derive(Debug)]
pub struct Gupax {
    pub submenu: SubmenuGupax,
    /// The processes whose tabs are shown.
    pub show_processes: Vec<ProcessName>,
    pub updates: Updates,
    pub p2pool_path: String,
    pub xmrig_path: String,
    pub xmrig_proxy_path: String,
    pub node_path: String,
}

/// What the file picker window hands back: a path per binary, and whether
/// the user picked one since it was last taken.
#[derive(Debug)]
pub struct FileWindow {
    /// A picker is open.
    pub thread: bool,
    pub picked_p2pool: bool,
    pub picked_xmrig: bool,
    pub picked_xp: bool,
    pub picked_node: bool,
    pub p2pool_path: String,
    pub xmrig_path: String,
    pub xmrig_proxy_path: String,
    pub node_path: String,
}

/// Settings of the Node tab.
#[derive(Debug)]
pub struct Node {
    pub simple: bool,
}

/// Settings of the P2Pool tab.
#[derive(Debug)]
pub struct P2pool {
    pub submenu: SubmenuP2pool,
}

/// Settings of the XMRig tab.
#[derive(Debug)]
pub struct Xmrig {
    pub simple: bool,
}

/// Settings of the XMRig-Proxy tab.
#[derive(Debug)]
pub struct XmrigProxy {
    pub simple: bool,
}

/// Settings of the XvB tab.
#[derive(Debug)]
pub struct Xvb {
    pub simple: bool,
}

/// The saved state that the GUI edits.
#[derive(Debug)]
pub struct State {
    pub status: Status,
    pub gupax: Gupax,
    pub node: Node,
    pub p2pool: P2pool,
    pub xmrig: Xmrig,
    pub xmrig_proxy: XmrigProxy,
    pub xvb: Xvb,
}

/// The state of the application window.
#[derive(Debug)]
pub struct App {
    /// The tab shown.
    pub tab: Tab,
    pub state: State,
    /// The error shown over the whole window, if any.
    pub error_state: ErrorState,
    /// Whether the start-up question about missing binaries was dealt with.
    pub ask_download_start_acknowledge: bool,
    /// Whether the warning about an XMRig running outside of Gupax was shown.
    pub xmrig_outside_warning_acknowledge: bool,
}

pub const XMRIG_OUTSIDE_MSG: &'static str = "An instance of xmrig is running outside of Gupax.\nThis is not supported and could lead to crashes on this platform.\nPlease stop your local instance and start xmrig from Gupax Xmrig tab.";

/// The picked `path` when `picked`, else the `current` one.
pub open spec fn picked_or(picked: bool, path: String, current: String) -> Seq<char> {
    if picked { path@ } else { current@ }
}

/// Whether the state is `a`'s with the four binary paths as given.
pub open spec fn paths_set(a: App, b: App, p2pool: Seq<char>, xmrig: Seq<char>, xmrig_proxy: Seq<char>, node: Seq<char>) -> bool {
    &&& b.state.gupax.p2pool_path@ == p2pool
    &&& b.state.gupax.xmrig_path@ == xmrig
    &&& b.state.gupax.xmrig_proxy_path@ == xmrig_proxy
    &&& b.state.gupax.node_path@ == node
    &&& b.tab == a.tab
    &&& b.error_state == a.error_state
    &&& b.ask_download_start_acknowledge == a.ask_download_start_acknowledge
    &&& b.xmrig_outside_warning_acknowledge == a.xmrig_outside_warning_acknowledge
    &&& b.state.status == a.state.status
    &&& b.state.node == a.state.node
    &&& b.state.p2pool == a.state.p2pool
    &&& b.state.xmrig == a.state.xmrig
    &&& b.state.xmrig_proxy == a.state.xmrig_proxy
    &&& b.state.xvb == a.state.xvb
    &&& b.state.gupax.submenu == a.state.gupax.submenu
    &&& b.state.gupax.show_processes == a.state.gupax.show_processes
    &&& b.state.gupax.updates == a.state.gupax.updates
}

fn take_path(dst: &mut String, picked: &mut bool, src: &String)
    ensures
        final(dst)@ == picked_or(*old(picked), *src, *old(dst)),
        !*final(picked),
{
    if *picked {
        *dst = src.clone();
        *picked = false;
    }
}

/// Whether the warning about an outside XMRig is due.
pub open spec fn xmrig_outside_warning_due(app: App, xmrig_running: bool, xmrig_alive_in_gupax: bool) -> bool {
    !app.xmrig_outside_warning_acknowledge && xmrig_running && !xmrig_alive_in_gupax
}

impl App {
    /// Takes each path the user picked in the file window into the settings,
    /// and clears its flag; the other paths stay.
    pub fn take_picked_paths(&mut self, window: &mut FileWindow)
        ensures
            paths_set(
                *old(self),
                *final(self),
                picked_or(old(window).picked_p2pool, old(window).p2pool_path, old(self).state.gupax.p2pool_path),
                picked_or(old(window).picked_xmrig, old(window).xmrig_path, old(self).state.gupax.xmrig_path),
                picked_or(old(window).picked_xp, old(window).xmrig_proxy_path, old(self).state.gupax.xmrig_proxy_path),
                picked_or(old(window).picked_node, old(window).node_path, old(self).state.gupax.node_path),
            ),
            !final(window).picked_p2pool,
            !final(window).picked_xmrig,
            !final(window).picked_xp,
            !final(window).picked_node,
            final(window).thread == old(window).thread,
            final(window).p2pool_path == old(window).p2pool_path,
            final(window).xmrig_path == old(window).xmrig_path,
            final(window).xmrig_proxy_path == old(window).xmrig_proxy_path,
            final(window).node_path == old(window).node_path,
    {
        take_path(&mut self.state.gupax.p2pool_path, &mut window.picked_p2pool, &window.p2pool_path);
        take_path(&mut self.state.gupax.xmrig_path, &mut window.picked_xmrig, &window.xmrig_path);
        take_path(&mut self.state.gupax.xmrig_proxy_path, &mut window.picked_xp, &window.xmrig_proxy_path);
        take_path(&mut self.state.gupax.node_path, &mut window.picked_node, &window.node_path);
    }

    /// Warns, once per run, that an XMRig not started by Gupax is running; on
    /// platforms where that can crash, the caller checks this every frame.
    pub fn warn_xmrig_outside(&mut self, xmrig_running: bool, xmrig_alive_in_gupax: bool)
        ensures
            ({
                let due = xmrig_outside_warning_due(*old(self), xmrig_running, xmrig_alive_in_gupax);
                &&& final(self).tab == old(self).tab
                &&& final(self).state == old(self).state
                &&& final(self).ask_download_start_acknowledge == old(self).ask_download_start_acknowledge
                &&& final(self).xmrig_outside_warning_acknowledge == (old(self).xmrig_outside_warning_acknowledge || due)
                &&& due ==> {
                    &&& final(self).error_state.error
                    &&& final(self).error_state.msg@ == XMRIG_OUTSIDE_MSG@
                    &&& final(self).error_state.ferris == ErrorFerris::Error
                    &&& final(self).error_state.buttons is Okay
                }
                &&& !due ==> final(self).error_state == old(self).error_state
            }),
    {
        if !self.xmrig_outside_warning_acknowledge && xmrig_running && !xmrig_alive_in_gupax {
            self.error_state.set(String::from_str(XMRIG_OUTSIDE_MSG), ErrorFerris::Error, ErrorButtons::Okay);
            self.xmrig_outside_warning_acknowledge = true;
        }
    }
}

/// The warning about an outside XMRig is shown at most once: once shown it is
/// never due again.
pub proof fn lemma_xmrig_warned_once(app: App, xmrig_running: bool, xmrig_alive_in_gupax: bool)
    requires
        app.xmrig_outside_warning_acknowledge,
    ensures
        !xmrig_outside_warning_due(app, xmrig_running, xmrig_alive_in_gupax),
{
}

} // verus!
