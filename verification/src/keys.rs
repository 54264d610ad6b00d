use vstd::prelude::*;

use crate::app::{App, Gupax, Node, P2pool, State, Status, Xmrig, XmrigProxy, Xvb};
use crate::submenu::{gupax_next, gupax_prev, p2pool_next, p2pool_prev, status_next, status_prev};
use crate::tab::{lemma_tab_left_right, lemma_visible_tabs_wf, tab_left, tab_right, visible_tabs, Tab};

verus! {

/// A key pressed during the frame, or none. A plain compare tells them apart.
#[derive(Debug, Clone, Copy, PartialEq, Eq, Structural)]
pub enum KeyPressed {
    F11,
    Up,
    Down,
    Esc,
    Z,
    X,
    C,
    V,
    S,
    R,
    D,
    NoKey,
}

/// The rank of a key when several are pressed in one frame: the lowest wins.
pub open spec fn key_priority(k: KeyPressed) -> int {
    match k {
        KeyPressed::F11 => 0,
        KeyPressed::Z => 1,
        KeyPressed::X => 2,
        KeyPressed::C => 3,
        KeyPressed::V => 4,
        KeyPressed::Up => 5,
        KeyPressed::Down => 6,
        KeyPressed::Esc => 7,
        KeyPressed::S => 8,
        KeyPressed::R => 9,
        KeyPressed::D => 10,
        KeyPressed::NoKey => 11,
    }
}

impl KeyPressed {
    pub fn is_f11(&self) -> (r: bool)
        ensures
            r == (*self == KeyPressed::F11),
    {
        *self == KeyPressed::F11
    }

    pub fn is_z(&self) -> (r: bool)
        ensures
            r == (*self == KeyPressed::Z),
    {
        *self == KeyPressed::Z
    }

    pub fn is_x(&self) -> (r: bool)
        ensures
            r == (*self == KeyPressed::X),
    {
        *self == KeyPressed::X
    }

    pub fn is_up(&self) -> (r: bool)
        ensures
            r == (*self == KeyPressed::Up),
    {
        *self == KeyPressed::Up
    }

    pub fn is_down(&self) -> (r: bool)
        ensures
            r == (*self == KeyPressed::Down),
    {
        *self == KeyPressed::Down
    }

    pub fn is_esc(&self) -> (r: bool)
        ensures
            r == (*self == KeyPressed::Esc),
    {
        *self == KeyPressed::Esc
    }

    pub fn is_s(&self) -> (r: bool)
        ensures
            r == (*self == KeyPressed::S),
    {
        *self == KeyPressed::S
    }

    pub fn is_r(&self) -> (r: bool)
        ensures
            r == (*self == KeyPressed::R),
    {
        *self == KeyPressed::R
    }

    pub fn is_d(&self) -> (r: bool)
        ensures
            r == (*self == KeyPressed::D),
    {
        *self == KeyPressed::D
    }

    pub fn is_c(&self) -> (r: bool)
        ensures
            r == (*self == KeyPressed::C),
    {
        *self == KeyPressed::C
    }

    pub fn is_v(&self) -> (r: bool)
        ensures
            r == (*self == KeyPressed::V),
    {
        *self == KeyPressed::V
    }

    /// The keys in the order in which a frame's presses are looked at.
    pub fn by_priority() -> (r: Vec<KeyPressed>)
        ensures
            r@.len() == 11,
            forall|i: int| 0 <= i < 11 ==> key_priority(#[trigger] r@[i]) == i,
    {
        vec![
            KeyPressed::F11,
            KeyPressed::Z,
            KeyPressed::X,
            KeyPressed::C,
            KeyPressed::V,
            KeyPressed::Up,
            KeyPressed::Down,
            KeyPressed::Esc,
            KeyPressed::S,
            KeyPressed::R,
            KeyPressed::D,
        ]
    }

    /// The key of the frame among the keys pressed without modifier: the one
    /// that comes first in `by_priority`, or `NoKey` when none was pressed.
    pub fn select(pressed: &Vec<KeyPressed>) -> (r: KeyPressed)
        ensures
            r == KeyPressed::NoKey ==> forall|i: int| 0 <= i < pressed@.len() ==> pressed@[i] == KeyPressed::NoKey,
            r != KeyPressed::NoKey ==> pressed@.contains(r),
            forall|i: int| 0 <= i < pressed@.len() && pressed@[i] != KeyPressed::NoKey
                ==> key_priority(r) <= key_priority(#[trigger] pressed@[i]),
    {
        let order = Self::by_priority();
        let mut best: usize = 11;
        let mut i: usize = 0;
        while i < pressed.len()
            invariant
                0 <= i <= pressed@.len(),
                order@.len() == 11,
                forall|k: int| 0 <= k < 11 ==> key_priority(#[trigger] order@[k]) == k,
                best <= 11,
                best < 11 ==> pressed@.contains(order@[best as int]),
                forall|j: int| 0 <= j < i && pressed@[j] != KeyPressed::NoKey
                    ==> best <= key_priority(#[trigger] pressed@[j]),
            decreases pressed@.len() - i,
        {
            let k = pressed[i];
            let rank: usize = match k {
                KeyPressed::F11 => 0,
                KeyPressed::Z => 1,
                KeyPressed::X => 2,
                KeyPressed::C => 3,
                KeyPressed::V => 4,
                KeyPressed::Up => 5,
                KeyPressed::Down => 6,
                KeyPressed::Esc => 7,
                KeyPressed::S => 8,
                KeyPressed::R => 9,
                KeyPressed::D => 10,
                KeyPressed::NoKey => 11,
            };
            if rank < best {
                best = rank;
                proof {
                    assert(key_priority(order@[best as int]) == best);
                    assert(order@[best as int] == k);
                    assert(pressed@[i as int] == k);
                }
            }
            i = i + 1;
        }
        if best < 11 {
            proof {
                assert(key_priority(order@[best as int]) == best);
            }
            order[best]
        } else {
            KeyPressed::NoKey
        }
    }
}

/// The state after the submenu of the current tab moved left (`C`).
pub open spec fn submenu_left(app: App) -> App {
    match app.tab {
        Tab::Status => App { state: State { status: Status { submenu: status_prev(app.state.status.submenu) }, ..app.state }, ..app },
        Tab::Settings => App { state: State { gupax: Gupax { submenu: gupax_prev(app.state.gupax.submenu), ..app.state.gupax }, ..app.state }, ..app },
        Tab::Node => App { state: State { node: Node { simple: !app.state.node.simple }, ..app.state }, ..app },
        Tab::P2pool => App { state: State { p2pool: P2pool { submenu: p2pool_prev(app.state.p2pool.submenu) }, ..app.state }, ..app },
        Tab::Xmrig => App { state: State { xmrig: Xmrig { simple: !app.state.xmrig.simple }, ..app.state }, ..app },
        Tab::XmrigProxy => App { state: State { xmrig_proxy: XmrigProxy { simple: !app.state.xmrig_proxy.simple }, ..app.state }, ..app },
        Tab::Xvb => App { state: State { xvb: Xvb { simple: !app.state.xvb.simple }, ..app.state }, ..app },
        Tab::About => app,
    }
}

/// The state after the submenu of the current tab moved right (`V`).
pub open spec fn submenu_right(app: App) -> App {
    match app.tab {
        Tab::Status => App { state: State { status: Status { submenu: status_next(app.state.status.submenu) }, ..app.state }, ..app },
        Tab::Settings => App { state: State { gupax: Gupax { submenu: gupax_next(app.state.gupax.submenu), ..app.state.gupax }, ..app.state }, ..app },
        Tab::Node => App { state: State { node: Node { simple: !app.state.node.simple }, ..app.state }, ..app },
        Tab::P2pool => App { state: State { p2pool: P2pool { submenu: p2pool_next(app.state.p2pool.submenu) }, ..app.state }, ..app },
        Tab::Xmrig => App { state: State { xmrig: Xmrig { simple: !app.state.xmrig.simple }, ..app.state }, ..app },
        Tab::XmrigProxy => App { state: State { xmrig_proxy: XmrigProxy { simple: !app.state.xmrig_proxy.simple }, ..app.state }, ..app },
        Tab::Xvb => App { state: State { xvb: Xvb { simple: !app.state.xvb.simple }, ..app.state }, ..app },
        Tab::About => app,
    }
}

/// The state after `key`: `Z`/`X` move to the shown tab on the left/right,
/// `C`/`V` move the current tab's submenu left/right (or flip its simple
/// mode), unless a text field wants the keyboard. Other keys change nothing.
pub open spec fn after_key(app: App, key: KeyPressed, wants_input: bool) -> App {
    let tabs = visible_tabs(app.state.gupax.show_processes@);
    if key == KeyPressed::Z && !wants_input {
        App { tab: tab_left(tabs, app.tab), ..app }
    } else if key == KeyPressed::X && !wants_input {
        App { tab: tab_right(tabs, app.tab), ..app }
    } else if key == KeyPressed::C && !wants_input {
        submenu_left(app)
    } else if key == KeyPressed::V && !wants_input {
        submenu_right(app)
    } else {
        app
    }
}

/// Whether `app` shows one of its visible tabs.
pub open spec fn on_visible_tab(app: App) -> bool {
    visible_tabs(app.state.gupax.show_processes@).contains(app.tab)
}

impl App {
    /// Applies the key of the frame. Returns whether the window is to be made
    /// fullscreen: on `F11`, when it is maximized.
    pub fn keys_handle(&mut self, key: KeyPressed, wants_input: bool, maximized: bool) -> (fullscreen: bool)
        requires
            ((key == KeyPressed::Z || key == KeyPressed::X) && !wants_input) ==> on_visible_tab(*old(self)),
        ensures
            fullscreen == (key == KeyPressed::F11 && maximized),
            *final(self) == after_key(*old(self), key, wants_input),
    {
        if key.is_f11() {
            maximized
        } else if key.is_z() && !wants_input {
            self.move_tab(true);
            false
        } else if key.is_x() && !wants_input {
            self.move_tab(false);
            false
        } else if key.is_c() && !wants_input {
            self.move_submenu_left();
            false
        } else if key.is_v() && !wants_input {
            self.move_submenu_right();
            false
        } else {
            false
        }
    }

    fn move_tab(&mut self, left: bool)
        requires
            on_visible_tab(*old(self)),
        ensures
            *final(self) == (App {
                tab: if left {
                    tab_left(visible_tabs(old(self).state.gupax.show_processes@), old(self).tab)
                } else {
                    tab_right(visible_tabs(old(self).state.gupax.show_processes@), old(self).tab)
                },
                ..*old(self)
            }),
    {
        let tabs = Tab::from_show_processes(&self.state.gupax.show_processes);
        proof {
            lemma_visible_tabs_wf(self.state.gupax.show_processes@);
        }
        let index = Self::tab_index(&tabs, self.tab);
        if left {
            self.tab = if index == 0 { tabs[tabs.len() - 1] } else { tabs[index - 1] };
        } else {
            self.tab = if index + 1 == tabs.len() { tabs[0] } else { tabs[index + 1] };
        }
    }

    fn move_submenu_left(&mut self)
        ensures
            *final(self) == submenu_left(*old(self)),
    {
        match self.tab {
            Tab::Status => self.state.status.submenu = self.state.status.submenu.prev(),
            Tab::Settings => self.state.gupax.submenu = self.state.gupax.submenu.prev(),
            Tab::Node => self.state.node.simple = !self.state.node.simple,
            Tab::P2pool => self.state.p2pool.submenu = self.state.p2pool.submenu.prev(),
            Tab::Xmrig => self.state.xmrig.simple = !self.state.xmrig.simple,
            Tab::XmrigProxy => self.state.xmrig_proxy.simple = !self.state.xmrig_proxy.simple,
            Tab::Xvb => self.state.xvb.simple = !self.state.xvb.simple,
            Tab::About => {},
        }
    }

    fn move_submenu_right(&mut self)
        ensures
            *final(self) == submenu_right(*old(self)),
    {
        match self.tab {
            Tab::Status => self.state.status.submenu = self.state.status.submenu.next(),
            Tab::Settings => self.state.gupax.submenu = self.state.gupax.submenu.next(),
            Tab::P2pool => self.state.p2pool.submenu = self.state.p2pool.submenu.next(),
            Tab::Xmrig => self.state.xmrig.simple = !self.state.xmrig.simple,
            Tab::XmrigProxy => self.state.xmrig_proxy.simple = !self.state.xmrig_proxy.simple,
            Tab::Xvb => self.state.xvb.simple = !self.state.xvb.simple,
            Tab::Node => self.state.node.simple = !self.state.node.simple,
            Tab::About => {},
        }
    }

    fn tab_index(tabs: &Vec<Tab>, t: Tab) -> (i: usize)
        requires
            tabs@.no_duplicates(),
            tabs@.contains(t),
        ensures
            i as int == tabs@.index_of(t),
            i < tabs@.len(),
    {
        let mut i: usize = 0;
        while i < tabs.len()
            invariant
                0 <= i <= tabs@.len(),
                tabs@.contains(t),
                tabs@.no_duplicates(),
                forall|j: int| 0 <= j < i ==> tabs@[j] != t,
            decreases tabs@.len() - i,
        {
            if tabs[i] == t {
                proof {
                    let k = tabs@.index_of(t);
                    assert(tabs@[k] == t);
                    assert(tabs@[i as int] == t);
                    assert(k == i as int);
                }
                return i;
            }
            i = i + 1;
        }
        proof {
            let k = choose|k: int| 0 <= k < tabs@.len() && tabs@[k] == t;
            assert(tabs@[k] != t);
        }
        0
    }
}

} // verus!

verus! {

/// Moving one tab left then one right (or right then left) comes back to the
/// same state, and so does moving the submenu left then right (or right then left).
pub proof fn lemma_keys_undo(app: App)
    requires
        on_visible_tab(app),
    ensures
        after_key(after_key(app, KeyPressed::Z, false), KeyPressed::X, false) == app,
        after_key(after_key(app, KeyPressed::X, false), KeyPressed::Z, false) == app,
        after_key(after_key(app, KeyPressed::C, false), KeyPressed::V, false) == app,
        after_key(after_key(app, KeyPressed::V, false), KeyPressed::C, false) == app,
{
    let tabs = visible_tabs(app.state.gupax.show_processes@);
    lemma_visible_tabs_wf(app.state.gupax.show_processes@);
    lemma_tab_left_right(tabs, app.tab);
    crate::submenu::lemma_submenu_cycles(app.state.status.submenu, app.state.p2pool.submenu, app.state.gupax.submenu);
}

/// Every key keeps the window on a tab that is shown.
pub proof fn lemma_keys_keep_tab_visible(app: App, key: KeyPressed, wants_input: bool)
    requires
        on_visible_tab(app),
    ensures
        on_visible_tab(after_key(app, key, wants_input)),
{
    let tabs = visible_tabs(app.state.gupax.show_processes@);
    lemma_visible_tabs_wf(app.state.gupax.show_processes@);
    lemma_tab_left_right(tabs, app.tab);
}

/// While a text field wants the keyboard, no key changes the state.
pub proof fn lemma_wants_input_blocks_keys(app: App, key: KeyPressed)
    ensures
        after_key(app, key, true) == app,
{
}

} // verus!

verus! {

/// On a process tab, `C` and `V` (without text input) flip that tab's own
/// simple/advanced mode and no other; on the Status, Settings and P2Pool tabs
/// they move to another submenu of that tab; on the About tab they do nothing.
/// The tab itself never changes.
pub proof fn lemma_c_v_act_on_current_tab(app: App, key: KeyPressed)
    requires
        key == KeyPressed::C || key == KeyPressed::V,
    ensures
        ({
            let b = after_key(app, key, false);
            &&& b.tab == app.tab
            &&& b.state.node.simple == (if app.tab == Tab::Node { !app.state.node.simple } else { app.state.node.simple })
            &&& b.state.xmrig.simple == (if app.tab == Tab::Xmrig { !app.state.xmrig.simple } else { app.state.xmrig.simple })
            &&& b.state.xmrig_proxy.simple == (if app.tab == Tab::XmrigProxy {
                !app.state.xmrig_proxy.simple
            } else {
                app.state.xmrig_proxy.simple
            })
            &&& b.state.xvb.simple == (if app.tab == Tab::Xvb { !app.state.xvb.simple } else { app.state.xvb.simple })
            &&& (app.tab == Tab::Status) == (b.state.status.submenu != app.state.status.submenu)
            &&& (app.tab == Tab::Settings) == (b.state.gupax.submenu != app.state.gupax.submenu)
            &&& (app.tab == Tab::P2pool) == (b.state.p2pool.submenu != app.state.p2pool.submenu)
            &&& app.tab == Tab::About ==> b == app
        }),
{
}

} // verus!
