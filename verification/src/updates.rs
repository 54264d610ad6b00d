use vstd::prelude::*;
use vstd::string::*;

use crate::app::App;
use crate::errors::{is_warn_update, ErrorButtons, ErrorFerris, WarnUpdateData};
use crate::text::{numeric_version, occurs_in, parse_numeric_version, str_contains, str_eq};

verus! {

pub const DOWNGRADE_BINARY_MSG: &'static str = "You are trying to downgrade a binary. This is potentially dangerous as it is unsupported.";
pub const DOWNGRADE_GUPAX_MSG: &'static str = "You are trying to downgrade Gupax. This is really dangerous as you could loose the ability to upgrade it and be stuck on the old version. You would need to re-install it manually. You also could loose your saved configuration";
pub const SWITCH_BETA_MSG: &'static str = "You are trying to update to a BETA. Do this only if you want to help test unstable software.";

/// Whether going from `current` to `selected` is a downgrade: both read as
/// numbers and the selected one is lower.
pub open spec fn is_downgrade(selected: Seq<char>, current: Seq<char>) -> bool {
    &&& numeric_version(selected) is Some
    &&& numeric_version(current) is Some
    &&& numeric_version(selected)->0 < numeric_version(current)->0
}

/// Whether going from `current` to `selected` moves from a stable release to a BETA.
pub open spec fn is_switch_to_beta(selected: Seq<char>, current: Seq<char>) -> bool {
    !occurs_in(current, "BETA"@) && occurs_in(selected, "BETA"@)
}

/// Nothing but the error shown changed.
pub open spec fn only_error_changed(a: App, b: App) -> bool {
    &&& b.tab == a.tab
    &&& b.state == a.state
    &&& b.ask_download_start_acknowledge == a.ask_download_start_acknowledge
    &&& b.xmrig_outside_warning_acknowledge == a.xmrig_outside_warning_acknowledge
}

impl App {
    /// Warns before installing a lower version of `name` than the current one;
    /// returns whether the update can go on without asking.
    pub fn warn_downgrade(&mut self, name: &str, selected_version: &str, current_version: &str) -> (r: bool)
        ensures
            r == !is_downgrade(selected_version@, current_version@),
            only_error_changed(*old(self), *final(self)),
            !r ==> final(self).error_state.error,
            !r ==> final(self).error_state.msg@ == (if name@ != "gupax"@ { DOWNGRADE_BINARY_MSG@ } else { DOWNGRADE_GUPAX_MSG@ }),
            !r ==> final(self).error_state.ferris == ErrorFerris::Oops,
            !r ==> is_warn_update(final(self).error_state.buttons, "Yes downgrade"@, "No Abort the downgrade"@, name@),
            r ==> final(self).error_state == old(self).error_state,
    {
        let selected = parse_numeric_version(selected_version);
        let current = parse_numeric_version(current_version);
        if let (Some(s), Some(c)) = (selected, current) {
            if s < c {
                let msg = if !str_eq(name, "gupax") { DOWNGRADE_BINARY_MSG } else { DOWNGRADE_GUPAX_MSG };
                self.error_state.set(
                    String::from_str(msg),
                    ErrorFerris::Oops,
                    ErrorButtons::WarnUpdate(WarnUpdateData {
                        yes_button: String::from_str("Yes downgrade"),
                        no_button: String::from_str("No Abort the downgrade"),
                        name: String::from_str(name),
                    }),
                );
                return false;
            }
        }
        true
    }

    /// Warns before moving `name` from a stable release to a BETA; returns
    /// whether the update can go on without asking.
    pub fn warn_switch_beta(&mut self, name: &str, selected_version: &str, current_version: &str) -> (r: bool)
        ensures
            r == !is_switch_to_beta(selected_version@, current_version@),
            only_error_changed(*old(self), *final(self)),
            !r ==> final(self).error_state.error,
            !r ==> final(self).error_state.msg@ == SWITCH_BETA_MSG@,
            !r ==> final(self).error_state.ferris == ErrorFerris::Panic,
            !r ==> is_warn_update(final(self).error_state.buttons, "Yes, switch to BETA"@, "No, stay in STABLE releases"@, name@),
            r ==> final(self).error_state == old(self).error_state,
    {
        if !str_contains(current_version, "BETA") && str_contains(selected_version, "BETA") {
            self.error_state.set(
                String::from_str(SWITCH_BETA_MSG),
                ErrorFerris::Panic,
                ErrorButtons::WarnUpdate(WarnUpdateData {
                    yes_button: String::from_str("Yes, switch to BETA"),
                    no_button: String::from_str("No, stay in STABLE releases"),
                    name: String::from_str(name),
                }),
            );
            return false;
        }
        true
    }

    /// Whether the update of `name` to `selected_version` goes on when its
    /// button is clicked: the downgrade warning comes first, and the BETA
    /// warning only when there was no downgrade to warn about.
    pub fn confirm_update(&mut self, name: &str, selected_version: &str, current_version: &str) -> (r: bool)
        ensures
            r == (!is_downgrade(selected_version@, current_version@)
                && !is_switch_to_beta(selected_version@, current_version@)),
            only_error_changed(*old(self), *final(self)),
            is_downgrade(selected_version@, current_version@) ==> {
                &&& final(self).error_state.error
                &&& final(self).error_state.msg@ == (if name@ != "gupax"@ { DOWNGRADE_BINARY_MSG@ } else { DOWNGRADE_GUPAX_MSG@ })
                &&& final(self).error_state.ferris == ErrorFerris::Oops
                &&& is_warn_update(final(self).error_state.buttons, "Yes downgrade"@, "No Abort the downgrade"@, name@)
            },
            !is_downgrade(selected_version@, current_version@) && is_switch_to_beta(selected_version@, current_version@) ==> {
                &&& final(self).error_state.error
                &&& final(self).error_state.msg@ == SWITCH_BETA_MSG@
                &&& final(self).error_state.ferris == ErrorFerris::Panic
                &&& is_warn_update(final(self).error_state.buttons, "Yes, switch to BETA"@, "No, stay in STABLE releases"@, name@)
            },
            r ==> final(self).error_state == old(self).error_state,
    {
        self.warn_downgrade(name, selected_version, current_version)
            && self.warn_switch_beta(name, selected_version, current_version)
    }
}

/// Which of the bundled binaries were found on disk.
#[derive(Debug, Clone, Copy, PartialEq, Eq, Structural)]
pub struct BinariesFound {
    pub p2pool: bool,
    pub node: bool,
    pub xmrig: bool,
    pub xmrig_proxy: bool,
}

/// `label` when the binary is missing, else nothing.
pub open spec fn missing_label(found: bool, label: Seq<char>) -> Seq<char> {
    if found { Seq::empty() } else { label }
}

/// The question asked when binaries are missing: one line per binary, empty
/// for those that were found.
pub open spec fn download_msg(f: BinariesFound) -> Seq<char> {
    "Gupax is missing the binary of:\n"@ + missing_label(f.p2pool, "P2Pool"@) + "\n"@
        + missing_label(f.node, "Node"@) + "\n"@ + missing_label(f.xmrig, "XMRig"@) + "\n"@
        + missing_label(f.xmrig_proxy, "XMRig-Proxy"@) + "\n\nDo you want it to download them now ?"@
}

/// `seq![name]` when the binary is missing, else nothing.
pub open spec fn missing_name(found: bool, name: Seq<char>) -> Seq<Seq<char>> {
    if found { Seq::empty() } else { seq![name] }
}

/// The names of the missing binaries, as the updater knows them, in order.
pub open spec fn missing_names(f: BinariesFound) -> Seq<Seq<char>> {
    missing_name(f.p2pool, "p2pool"@) + missing_name(f.node, "monerod"@)
        + missing_name(f.xmrig, "xmrig"@) + missing_name(f.xmrig_proxy, "xmrig-proxy"@)
}

/// The words of `s` separated by one space.
pub open spec fn join_spaced(s: Seq<Seq<char>>) -> Seq<char>
    decreases s.len(),
{
    if s.len() == 0 {
        Seq::empty()
    } else if s.len() == 1 {
        s[0]
    } else {
        join_spaced(s.drop_last()) + " "@ + s.last()
    }
}

/// Whether the start-up question about missing binaries is due.
pub open spec fn download_prompt_due(app: App, f: BinariesFound) -> bool {
    &&& !app.ask_download_start_acknowledge
    &&& app.state.gupax.updates.ask_download_start
    &&& !(f.p2pool && f.node && f.xmrig && f.xmrig_proxy)
}

fn push_label(msg: &mut String, found: bool, label: &str)
    ensures
        final(msg)@ == old(msg)@ + missing_label(found, label@) + "\n"@,
{
    if !found {
        msg.append(label);
    }
    msg.append("\n");
}

fn push_name(joined: &mut String, names: Ghost<Seq<Seq<char>>>, found: bool, name: &str)
    requires
        old(joined)@ == join_spaced(names@),
        old(joined)@.len() == 0 <==> names@.len() == 0,
        name@.len() > 0,
    ensures
        final(joined)@ == join_spaced(names@ + missing_name(found, name@)),
        final(joined)@.len() == 0 <==> (names@ + missing_name(found, name@)).len() == 0,
{
    assert(names@ + Seq::<Seq<char>>::empty() =~= names@);
    if !found {
        let ghost next = names@ + seq![name@];
        assert(next.drop_last() =~= names@);
        if joined.unicode_len() != 0 {
            joined.append(" ");
        }
        joined.append(name);
        assert(next.len() == 1 ==> next[0] == name@);
    }
}

impl App {
    /// Asks, once, whether to download the bundled binaries that are missing,
    /// unless the user chose not to be asked at start.
    pub fn ask_download_binaries(&mut self, found: &BinariesFound)
        ensures
            final(self).ask_download_start_acknowledge,
            final(self).tab == old(self).tab,
            final(self).state == old(self).state,
            final(self).xmrig_outside_warning_acknowledge == old(self).xmrig_outside_warning_acknowledge,
            download_prompt_due(*old(self), *found) ==> {
                &&& final(self).error_state.error
                &&& final(self).error_state.msg@ == download_msg(*found)
                &&& final(self).error_state.ferris == ErrorFerris::Cute
                &&& is_warn_update(
                    final(self).error_state.buttons,
                    "Download missing binaries"@,
                    "No, and do not ask again"@,
                    join_spaced(missing_names(*found)),
                )
            },
            !download_prompt_due(*old(self), *found) ==> final(self).error_state == old(self).error_state,
    {
        if !self.ask_download_start_acknowledge && self.state.gupax.updates.ask_download_start {
            if !found.p2pool || !found.node || !found.xmrig || !found.xmrig_proxy {
                let mut msg = String::from_str("Gupax is missing the binary of:\n");
                push_label(&mut msg, found.p2pool, "P2Pool");
                push_label(&mut msg, found.node, "Node");
                push_label(&mut msg, found.xmrig, "XMRig");
                if !found.xmrig_proxy {
                    msg.append("XMRig-Proxy");
                }
                msg.append("\n\nDo you want it to download them now ?");
                assert(msg@ =~= download_msg(*found));
                proof {
                    reveal_strlit("p2pool");
                    reveal_strlit("monerod");
                    reveal_strlit("xmrig");
                    reveal_strlit("xmrig-proxy");
                }
                let mut binaries = String::new();
                let ghost n0 = Seq::<Seq<char>>::empty();
                assert(join_spaced(n0) =~= binaries@);
                push_name(&mut binaries, Ghost(n0), found.p2pool, "p2pool");
                let ghost n1 = n0 + missing_name(found.p2pool, "p2pool"@);
                push_name(&mut binaries, Ghost(n1), found.node, "monerod");
                let ghost n2 = n1 + missing_name(found.node, "monerod"@);
                push_name(&mut binaries, Ghost(n2), found.xmrig, "xmrig");
                let ghost n3 = n2 + missing_name(found.xmrig, "xmrig"@);
                push_name(&mut binaries, Ghost(n3), found.xmrig_proxy, "xmrig-proxy");
                let ghost n4 = n3 + missing_name(found.xmrig_proxy, "xmrig-proxy"@);
                assert(n4 =~= missing_names(*found));
                self.error_state.set(
                    msg,
                    ErrorFerris::Cute,
                    ErrorButtons::WarnUpdate(WarnUpdateData {
                        yes_button: String::from_str("Download missing binaries"),
                        no_button: String::from_str("No, and do not ask again"),
                        name: binaries,
                    }),
                );
            }
        }
        self.ask_download_start_acknowledge = true;
    }
}

/// The question about missing binaries is asked at most once: once it has been
/// dealt with it is never due again, whatever is found on disk.
pub proof fn lemma_download_asked_once(app: App, found: BinariesFound)
    requires
        app.ask_download_start_acknowledge,
    ensures
        !download_prompt_due(app, found),
{
}

} // verus!

verus! {

proof fn lemma_names_append(a: Seq<Seq<char>>, found: bool, name: Seq<char>, y: Seq<char>)
    ensures
        (a + missing_name(found, name)).contains(y) == (a.contains(y) || (!found && name == y)),
{
    let b = a + missing_name(found, name);
    if a.contains(y) {
        let i = choose|i: int| 0 <= i < a.len() && a[i] == y;
        assert(b[i] == y);
    }
    if !found && name == y {
        assert(b[a.len() as int] == y);
    }
    if b.contains(y) {
        let i = choose|i: int| 0 <= i < b.len() && b[i] == y;
        if i < a.len() {
            assert(a[i] == y);
        }
    }
}

/// Each binary is in the list to download exactly when it is missing, and
/// the list names nothing else.
pub proof fn lemma_download_list_is_missing_binaries(f: BinariesFound, y: Seq<char>)
    ensures
        missing_names(f).contains("p2pool"@) == !f.p2pool,
        missing_names(f).contains("monerod"@) == !f.node,
        missing_names(f).contains("xmrig"@) == !f.xmrig,
        missing_names(f).contains("xmrig-proxy"@) == !f.xmrig_proxy,
        missing_names(f).contains(y) ==> y == "p2pool"@ || y == "monerod"@ || y == "xmrig"@ || y == "xmrig-proxy"@,
        missing_names(f).len() == (if f.p2pool { 0int } else { 1int }) + (if f.node { 0int } else { 1int })
            + (if f.xmrig { 0int } else { 1int }) + (if f.xmrig_proxy { 0int } else { 1int }),
{
    reveal_strlit("p2pool");
    reveal_strlit("monerod");
    reveal_strlit("xmrig");
    reveal_strlit("xmrig-proxy");
    assert("p2pool"@.len() == 6);
    assert("monerod"@.len() == 7);
    assert("xmrig"@.len() == 5);
    assert("xmrig-proxy"@.len() == 11);
    let e = Seq::<Seq<char>>::empty();
    let n1 = e + missing_name(f.p2pool, "p2pool"@);
    let n2 = n1 + missing_name(f.node, "monerod"@);
    let n3 = n2 + missing_name(f.xmrig, "xmrig"@);
    let n4 = n3 + missing_name(f.xmrig_proxy, "xmrig-proxy"@);
    assert(missing_names(f) =~= n4);
    assert forall|z: Seq<char>| #![trigger n4.contains(z)]
        n4.contains(z) == ((!f.p2pool && z == "p2pool"@) || (!f.node && z == "monerod"@)
            || (!f.xmrig && z == "xmrig"@) || (!f.xmrig_proxy && z == "xmrig-proxy"@)) by {
        lemma_names_append(e, f.p2pool, "p2pool"@, z);
        lemma_names_append(n1, f.node, "monerod"@, z);
        lemma_names_append(n2, f.xmrig, "xmrig"@, z);
        lemma_names_append(n3, f.xmrig_proxy, "xmrig-proxy"@, z);
    }
    assert(n4.contains("p2pool"@) == !f.p2pool);
    assert(n4.contains("monerod"@) == !f.node);
    assert(n4.contains("xmrig"@) == !f.xmrig);
    assert(n4.contains("xmrig-proxy"@) == !f.xmrig_proxy);
    assert(n4.contains(y) ==> y == "p2pool"@ || y == "monerod"@ || y == "xmrig"@ || y == "xmrig-proxy"@);
}

} // verus!
