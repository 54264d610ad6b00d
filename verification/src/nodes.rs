use vstd::prelude::*;

use crate::submenu::SubmenuP2pool;
use crate::tab::Tab;

verus! {

/// The text of a node, if any.
pub open spec fn opt_view(o: Option<String>) -> Option<Seq<char>> {
    match o {
        Some(s) => Some(s@),
        None => None,
    }
}

/// The first node of a list, if any.
pub open spec fn first_node(nodes: Seq<Seq<char>>) -> Option<Seq<char>> {
    if nodes.len() == 0 { None } else { Some(nodes[0]) }
}

/// Whether two lists of nodes are equal.
pub fn nodes_eq(a: &Vec<String>, b: &Vec<String>) -> (r: bool)
    ensures
        r == (a.deep_view() == b.deep_view()),
{
    if a.len() != b.len() {
        proof {
            assert(a.deep_view().len() != b.deep_view().len());
        }
        return false;
    }
    let mut i: usize = 0;
    while i < a.len()
        invariant
            a@.len() == b@.len(),
            0 <= i <= a@.len(),
            forall|k: int| 0 <= k < i ==> a@[k]@ == b@[k]@,
        decreases a@.len() - i,
    {
        if a[i] != b[i] {
            proof {
                assert(a.deep_view()[i as int] != b.deep_view()[i as int]);
            }
            return false;
        }
        i = i + 1;
    }
    assert(a.deep_view() =~= b.deep_view());
    true
}

/// A copy of a list of nodes.
pub fn clone_nodes(a: &Vec<String>) -> (r: Vec<String>)
    ensures
        r.deep_view() == a.deep_view(),
{
    let mut r: Vec<String> = Vec::new();
    let mut i: usize = 0;
    while i < a.len()
        invariant
            0 <= i <= a@.len(),
            r@.len() == i,
            forall|k: int| 0 <= k < i ==> r@[k]@ == a@[k]@,
        decreases a@.len() - i,
    {
        r.push(a[i].clone());
        i = i + 1;
    }
    assert(r.deep_view() =~= a.deep_view());
    r
}

/// Whether the pinged and crawled nodes are refreshed this frame: when the
/// crawler runs automatically or the P2Pool tab is shown.
pub open spec fn refresh_active(auto_crawl: bool, tab: Tab) -> bool {
    auto_crawl || tab == Tab::P2pool
}

/// Refreshes the remote nodes, each written as its address. When active, the
/// nodes found by the crawler, if any and if they differ, replace the pinged
/// ones, and the crawler's list is emptied unless it is still crawling; then,
/// when no node is selected, the first (fastest) pinged node is.
pub fn refresh_remote_nodes(
    auto_crawl: bool,
    tab: Tab,
    crawling: bool,
    ping: &mut Vec<String>,
    crawl: &mut Vec<String>,
    selected: &mut Option<String>,
)
    ensures
        ({
            let changed = refresh_active(auto_crawl, tab) && old(ping).deep_view() != old(crawl).deep_view()
                && old(crawl)@.len() > 0;
            &&& final(ping).deep_view() == (if changed { old(crawl).deep_view() } else { old(ping).deep_view() })
            &&& final(crawl).deep_view() == (if changed && !crawling { Seq::empty() } else { old(crawl).deep_view() })
            &&& opt_view(*final(selected)) == (if refresh_active(auto_crawl, tab) && *old(selected) is None {
                first_node(final(ping).deep_view())
            } else {
                opt_view(*old(selected))
            })
        }),
{
    if auto_crawl || tab == Tab::P2pool {
        if !nodes_eq(ping, crawl) && crawl.len() != 0 {
            *ping = clone_nodes(crawl);
            if !crawling {
                *crawl = Vec::new();
                assert(crawl.deep_view() =~= Seq::<Seq<char>>::empty());
            }
        }
        if selected.is_none() {
            if ping.len() > 0 {
                *selected = Some(ping[0].clone());
            }
        }
    }
}

/// The hosts of the user's node list, in order.
pub open spec fn hosts_of(node_vec: Seq<(String, String)>) -> Seq<Seq<char>> {
    Seq::new(node_vec.len(), |i: int| node_vec[i].1@)
}

/// Whether some node of the user's list is among the backup hosts.
pub open spec fn backup_overlaps(backup: Seq<Seq<char>>, node_vec: Seq<(String, String)>) -> bool {
    exists|i: int| 0 <= i < node_vec.len() && backup.contains(node_vec[i].1@)
}

fn contains_node(nodes: &Vec<String>, node: &String) -> (r: bool)
    ensures
        r == nodes.deep_view().contains(node@),
{
    let mut i: usize = 0;
    while i < nodes.len()
        invariant
            0 <= i <= nodes@.len(),
            forall|k: int| 0 <= k < i ==> nodes@[k]@ != node@,
        decreases nodes@.len() - i,
    {
        if nodes[i] == *node {
            proof {
                assert(nodes.deep_view()[i as int] == node@);
            }
            return true;
        }
        i = i + 1;
    }
    proof {
        if nodes.deep_view().contains(node@) {
            let k = choose|k: int| 0 <= k < nodes.deep_view().len() && nodes.deep_view()[k] == node@;
            assert(nodes@[k]@ == node@);
        }
    }
    false
}

/// Outside the advanced P2Pool submenu, on the P2Pool tab, the backup hosts
/// become the hosts of the user's node list (named nodes) as soon as one of
/// them is already a backup host.
pub fn replace_backup_hosts(submenu: SubmenuP2pool, tab: Tab, node_vec: &Vec<(String, String)>, backup_hosts: &mut Vec<String>)
    ensures
        final(backup_hosts).deep_view() == (if submenu != SubmenuP2pool::Advanced && tab == Tab::P2pool
            && backup_overlaps(old(backup_hosts).deep_view(), node_vec@) {
            hosts_of(node_vec@)
        } else {
            old(backup_hosts).deep_view()
        }),
{
    if submenu != SubmenuP2pool::Advanced && tab == Tab::P2pool {
        let mut any = false;
        let mut i: usize = 0;
        while i < node_vec.len()
            invariant
                0 <= i <= node_vec@.len(),
                any == exists|k: int| 0 <= k < i && backup_hosts.deep_view().contains(node_vec@[k].1@),
            decreases node_vec@.len() - i,
        {
            if contains_node(backup_hosts, &node_vec[i].1) {
                any = true;
            }
            i = i + 1;
        }
        if any {
            let mut hosts: Vec<String> = Vec::new();
            let mut j: usize = 0;
            while j < node_vec.len()
                invariant
                    0 <= j <= node_vec@.len(),
                    hosts@.len() == j,
                    forall|k: int| 0 <= k < j ==> hosts@[k]@ == node_vec@[k].1@,
                decreases node_vec@.len() - j,
            {
                hosts.push(node_vec[j].1.clone());
                j = j + 1;
            }
            assert(hosts.deep_view() =~= hosts_of(node_vec@));
            *backup_hosts = hosts;
        }
    }
}

} // verus!
