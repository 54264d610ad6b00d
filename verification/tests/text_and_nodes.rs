use gupax::nodes::{clone_nodes, nodes_eq, refresh_remote_nodes, replace_backup_hosts};
use gupax::submenu::SubmenuP2pool;
use gupax::tab::Tab;
use gupax::text::{decimal_string, parse_numeric_version, str_contains, str_eq};

fn s(v: &[&str]) -> Vec<String> {
    v.iter().map(|x| x.to_string()).collect()
}

#[test]
fn decimal_strings() {
    assert_eq!(decimal_string(0), "0");
    assert_eq!(decimal_string(7), "7");
    assert_eq!(decimal_string(10), "10");
    assert_eq!(decimal_string(1234), "1234");
    assert_eq!(decimal_string(u64::MAX), u64::MAX.to_string());
}

#[test]
fn numeric_versions() {
    assert_eq!(parse_numeric_version("v6.22.1"), Some(6221));
    assert_eq!(parse_numeric_version("0.0.7"), Some(7));
    assert_eq!(parse_numeric_version("latest"), None);
    assert_eq!(parse_numeric_version(""), None);
    assert_eq!(parse_numeric_version("4294967295"), Some(u32::MAX));
    assert_eq!(parse_numeric_version("4294967296"), None);
    assert_eq!(parse_numeric_version("1.2.3.4.5.6.7.8.9.0.1"), None);
}

#[test]
fn contains_and_eq() {
    assert!(str_contains("v1.0-BETA", "BETA"));
    assert!(!str_contains("v1.0-beta", "BETA"));
    assert!(str_contains("abc", ""));
    assert!(!str_contains("BET", "BETA"));
    assert!(str_contains("BETA", "BETA"));
    assert!(str_eq("gupax", "gupax"));
    assert!(!str_eq("gupax", "Gupax"));
    assert!(!str_eq("gupax", "gupaxx"));
}

#[test]
fn crawled_nodes_replace_pinged_ones() {
    let mut ping = s(&["a"]);
    let mut crawl = s(&["b", "c"]);
    let mut selected = None;
    refresh_remote_nodes(false, Tab::P2pool, false, &mut ping, &mut crawl, &mut selected);
    assert_eq!(ping, s(&["b", "c"]));
    assert!(crawl.is_empty());
    assert_eq!(selected, Some("b".to_string()));

    let mut ping = s(&["a"]);
    let mut crawl = s(&["b"]);
    let mut selected = Some("z".to_string());
    refresh_remote_nodes(true, Tab::Status, true, &mut ping, &mut crawl, &mut selected);
    assert_eq!(ping, s(&["b"]));
    assert_eq!(crawl, s(&["b"]));
    assert_eq!(selected, Some("z".to_string()));
}

#[test]
fn nodes_untouched_when_inactive_or_empty() {
    let mut ping = s(&["a"]);
    let mut crawl = s(&["b"]);
    let mut selected = None;
    refresh_remote_nodes(false, Tab::Status, false, &mut ping, &mut crawl, &mut selected);
    assert_eq!(ping, s(&["a"]));
    assert_eq!(crawl, s(&["b"]));
    assert_eq!(selected, None);

    let mut ping = s(&[]);
    let mut crawl = s(&[]);
    refresh_remote_nodes(true, Tab::Status, false, &mut ping, &mut crawl, &mut selected);
    assert!(ping.is_empty());
    assert_eq!(selected, None);
}

#[test]
fn backup_hosts_follow_node_list() {
    let nodes = vec![("n1".to_string(), "h1".to_string()), ("n2".to_string(), "h2".to_string())];
    let mut backup = s(&["h2", "x"]);
    replace_backup_hosts(SubmenuP2pool::Simple, Tab::P2pool, &nodes, &mut backup);
    assert_eq!(backup, s(&["h1", "h2"]));

    let mut backup = s(&["h2", "x"]);
    replace_backup_hosts(SubmenuP2pool::Advanced, Tab::P2pool, &nodes, &mut backup);
    assert_eq!(backup, s(&["h2", "x"]));

    let mut backup = s(&["x"]);
    replace_backup_hosts(SubmenuP2pool::Crawler, Tab::P2pool, &nodes, &mut backup);
    assert_eq!(backup, s(&["x"]));
}

#[test]
fn node_lists_compare_and_copy() {
    assert!(nodes_eq(&s(&["a", "b"]), &s(&["a", "b"])));
    assert!(!nodes_eq(&s(&["a", "b"]), &s(&["a"])));
    assert!(!nodes_eq(&s(&["a", "b"]), &s(&["a", "c"])));
    assert_eq!(clone_nodes(&s(&["a", "b"])), s(&["a", "b"]));
}
