use vstd::prelude::*;

use crate::process::ProcessName;

verus! {

/// The tabs of the window, in display order.
#[derive(Debug, Clone, Copy, PartialEq, Eq, Structural)]
pub enum Tab {
    About,
    Status,
    Settings,
    Node,
    P2pool,
    Xmrig,
    XmrigProxy,
    Xvb,
}

/// `seq![t]` when `shown`, else nothing.
pub open spec fn tab_if(shown: bool, t: Tab) -> Seq<Tab> {
    if shown { seq![t] } else { seq![] }
}

/// The tabs shown: About, Status and Settings always, each process tab when its
/// process is in `show`, in display order.
pub open spec fn visible_tabs(show: Seq<ProcessName>) -> Seq<Tab> {
    seq![Tab::About, Tab::Status, Tab::Settings]
        + tab_if(show.contains(ProcessName::Node), Tab::Node)
        + tab_if(show.contains(ProcessName::P2pool), Tab::P2pool)
        + tab_if(show.contains(ProcessName::Xmrig), Tab::Xmrig)
        + tab_if(show.contains(ProcessName::XmrigProxy), Tab::XmrigProxy)
        + tab_if(show.contains(ProcessName::Xvb), Tab::Xvb)
}

/// The tab before `t` among `tabs`, wrapping from the first to the last.
pub open spec fn tab_left(tabs: Seq<Tab>, t: Tab) -> Tab {
    let i = tabs.index_of(t);
    if i == 0 { tabs.last() } else { tabs[i - 1] }
}

/// The tab after `t` among `tabs`, wrapping from the last to the first.
pub open spec fn tab_right(tabs: Seq<Tab>, t: Tab) -> Tab {
    let i = tabs.index_of(t);
    if i + 1 == tabs.len() { tabs[0] } else { tabs[i + 1] }
}

/// The display rank of a tab.
pub open spec fn tab_rank(t: Tab) -> int {
    match t {
        Tab::About => 0,
        Tab::Status => 1,
        Tab::Settings => 2,
        Tab::Node => 3,
        Tab::P2pool => 4,
        Tab::Xmrig => 5,
        Tab::XmrigProxy => 6,
        Tab::Xvb => 7,
    }
}

/// Ranks strictly increase along `a`, and stay below `bound`.
pub open spec fn ranked_below(a: Seq<Tab>, bound: int) -> bool {
    &&& forall|i: int, j: int| 0 <= i < j < a.len() ==> tab_rank(a[i]) < tab_rank(a[j])
    &&& forall|i: int| 0 <= i < a.len() ==> tab_rank(a[i]) < bound
}

proof fn lemma_append_ranked(a: Seq<Tab>, shown: bool, t: Tab)
    requires
        ranked_below(a, tab_rank(t)),
    ensures
        ranked_below(a + tab_if(shown, t), tab_rank(t) + 1),
{
    let b = a + tab_if(shown, t);
    assert forall|i: int| 0 <= i < b.len() implies tab_rank(b[i]) < tab_rank(t) + 1 by {
        if i < a.len() {
            assert(b[i] == a[i]);
        }
    }
    assert forall|i: int, j: int| 0 <= i < j < b.len() implies tab_rank(b[i]) < tab_rank(b[j]) by {
        assert(b[i] == a[i]);
        if j < a.len() {
            assert(b[j] == a[j]);
        }
    }
}

/// The visible tabs are in display order, so none is shown twice; the three
/// that can not be hidden are always among them.
pub proof fn lemma_visible_tabs_wf(show: Seq<ProcessName>)
    ensures
        visible_tabs(show).no_duplicates(),
        visible_tabs(show).len() >= 3,
        visible_tabs(show).contains(Tab::About),
        visible_tabs(show).contains(Tab::Status),
        visible_tabs(show).contains(Tab::Settings),
{
    let a0 = seq![Tab::About, Tab::Status, Tab::Settings];
    let a1 = a0 + tab_if(show.contains(ProcessName::Node), Tab::Node);
    let a2 = a1 + tab_if(show.contains(ProcessName::P2pool), Tab::P2pool);
    let a3 = a2 + tab_if(show.contains(ProcessName::Xmrig), Tab::Xmrig);
    let a4 = a3 + tab_if(show.contains(ProcessName::XmrigProxy), Tab::XmrigProxy);
    let a5 = a4 + tab_if(show.contains(ProcessName::Xvb), Tab::Xvb);
    assert(ranked_below(a0, 3));
    lemma_append_ranked(a0, show.contains(ProcessName::Node), Tab::Node);
    lemma_append_ranked(a1, show.contains(ProcessName::P2pool), Tab::P2pool);
    lemma_append_ranked(a2, show.contains(ProcessName::Xmrig), Tab::Xmrig);
    lemma_append_ranked(a3, show.contains(ProcessName::XmrigProxy), Tab::XmrigProxy);
    lemma_append_ranked(a4, show.contains(ProcessName::Xvb), Tab::Xvb);
    assert(a5 == visible_tabs(show));
    assert forall|i: int, j: int| 0 <= i < a5.len() && 0 <= j < a5.len() && i != j implies a5[i] != a5[j] by {
        if i < j {
            assert(tab_rank(a5[i]) < tab_rank(a5[j]));
        } else {
            assert(tab_rank(a5[j]) < tab_rank(a5[i]));
        }
    }
    assert(a5[0] == Tab::About);
    assert(a5[1] == Tab::Status);
    assert(a5[2] == Tab::Settings);
}

/// Among tabs shown once each, moving right undoes moving left and the other
/// way round, and both moves land on a shown tab.
pub proof fn lemma_tab_left_right(tabs: Seq<Tab>, t: Tab)
    requires
        tabs.no_duplicates(),
        tabs.contains(t),
    ensures
        tabs.contains(tab_left(tabs, t)),
        tabs.contains(tab_right(tabs, t)),
        tab_right(tabs, tab_left(tabs, t)) == t,
        tab_left(tabs, tab_right(tabs, t)) == t,
{
    let i = tabs.index_of(t);
    assert(0 <= i < tabs.len() && tabs[i] == t);
    let l = if i == 0 { tabs.len() - 1 } else { i - 1 };
    assert(tabs[l] == tab_left(tabs, t));
    let li = tabs.index_of(tabs[l]);
    assert(tabs[li] == tabs[l]);
    assert(li == l);
    let r = if i + 1 == tabs.len() { 0 } else { i + 1 };
    assert(tabs[r] == tab_right(tabs, t));
    let ri = tabs.index_of(tabs[r]);
    assert(tabs[ri] == tabs[r]);
    assert(ri == r);
}

fn shows(show: &Vec<ProcessName>, name: ProcessName) -> (r: bool)
    ensures
        r == show@.contains(name),
{
    let mut i: usize = 0;
    while i < show.len()
        invariant
            0 <= i <= show@.len(),
            forall|j: int| 0 <= j < i ==> show@[j] != name,
        decreases show@.len() - i,
    {
        if show[i] == name {
            return true;
        }
        i = i + 1;
    }
    false
}

impl Tab {
    /// The tabs shown when the processes in `show` are shown.
    pub fn from_show_processes(show: &Vec<ProcessName>) -> (r: Vec<Tab>)
        ensures
            r@ == visible_tabs(show@),
    {
        let mut tabs = vec![Tab::About, Tab::Status, Tab::Settings];
        let ghost t0 = tabs@;
        if shows(show, ProcessName::Node) {
            tabs.push(Tab::Node);
        }
        let ghost t1 = tabs@;
        assert(t1 == t0 + tab_if(show@.contains(ProcessName::Node), Tab::Node));
        if shows(show, ProcessName::P2pool) {
            tabs.push(Tab::P2pool);
        }
        let ghost t2 = tabs@;
        assert(t2 == t1 + tab_if(show@.contains(ProcessName::P2pool), Tab::P2pool));
        if shows(show, ProcessName::Xmrig) {
            tabs.push(Tab::Xmrig);
        }
        let ghost t3 = tabs@;
        assert(t3 == t2 + tab_if(show@.contains(ProcessName::Xmrig), Tab::Xmrig));
        if shows(show, ProcessName::XmrigProxy) {
            tabs.push(Tab::XmrigProxy);
        }
        let ghost t4 = tabs@;
        assert(t4 == t3 + tab_if(show@.contains(ProcessName::XmrigProxy), Tab::XmrigProxy));
        if shows(show, ProcessName::Xvb) {
            tabs.push(Tab::Xvb);
        }
        assert(tabs@ == t4 + tab_if(show@.contains(ProcessName::Xvb), Tab::Xvb));
        tabs
    }
}

} // verus!

verus! {

/// The tab of a process.
pub open spec fn tab_of(p: ProcessName) -> Tab {
    match p {
        ProcessName::Node => Tab::Node,
        ProcessName::P2pool => Tab::P2pool,
        ProcessName::Xmrig => Tab::Xmrig,
        ProcessName::XmrigProxy => Tab::XmrigProxy,
        ProcessName::Xvb => Tab::Xvb,
    }
}

proof fn lemma_contains_append(a: Seq<Tab>, c: bool, x: Tab, y: Tab)
    ensures
        (a + tab_if(c, x)).contains(y) == (a.contains(y) || (c && x == y)),
{
    let b = a + tab_if(c, x);
    if a.contains(y) {
        let i = choose|i: int| 0 <= i < a.len() && a[i] == y;
        assert(b[i] == y);
    }
    if c && x == y {
        assert(b[a.len() as int] == y);
    }
    if b.contains(y) {
        let i = choose|i: int| 0 <= i < b.len() && b[i] == y;
        if i < a.len() {
            assert(a[i] == y);
        }
    }
}

/// A process tab is shown exactly when its process is among those shown, and
/// the three other tabs always are.
pub proof fn lemma_process_tab_shown_iff(show: Seq<ProcessName>, p: ProcessName)
    ensures
        visible_tabs(show).contains(tab_of(p)) == show.contains(p),
        visible_tabs(show).contains(Tab::About),
        visible_tabs(show).contains(Tab::Status),
        visible_tabs(show).contains(Tab::Settings),
{
    lemma_visible_tabs_wf(show);
    let t = tab_of(p);
    let a0 = seq![Tab::About, Tab::Status, Tab::Settings];
    let a1 = a0 + tab_if(show.contains(ProcessName::Node), Tab::Node);
    let a2 = a1 + tab_if(show.contains(ProcessName::P2pool), Tab::P2pool);
    let a3 = a2 + tab_if(show.contains(ProcessName::Xmrig), Tab::Xmrig);
    let a4 = a3 + tab_if(show.contains(ProcessName::XmrigProxy), Tab::XmrigProxy);
    let a5 = a4 + tab_if(show.contains(ProcessName::Xvb), Tab::Xvb);
    assert(a5 == visible_tabs(show));
    if a0.contains(t) {
        let i = choose|i: int| 0 <= i < a0.len() && a0[i] == t;
        assert(i == 0 || i == 1 || i == 2);
    }
    lemma_contains_append(a0, show.contains(ProcessName::Node), Tab::Node, t);
    lemma_contains_append(a1, show.contains(ProcessName::P2pool), Tab::P2pool, t);
    lemma_contains_append(a2, show.contains(ProcessName::Xmrig), Tab::Xmrig, t);
    lemma_contains_append(a3, show.contains(ProcessName::XmrigProxy), Tab::XmrigProxy, t);
    lemma_contains_append(a4, show.contains(ProcessName::Xvb), Tab::Xvb, t);
}

} // verus!
