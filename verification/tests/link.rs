use deepflow_agent::net::{Link, LinkStats, MacAddr};
use std::cmp::Ordering;

fn link(if_index: u32, name: &str) -> Link {
    Link { if_index, name: name.to_string(), ..Link::default() }
}

#[test]
fn default_link_is_empty() {
    let l = Link::default();
    assert_eq!(l.if_index, 0);
    assert_eq!(l.mac_addr, MacAddr::zero());
    assert_eq!(l.name, "");
    assert_eq!(l.flags, LinkStats::default());
    assert_eq!(l.if_type, None);
    assert_eq!(l.peer_index, None);
    assert_eq!(l.link_netnsid, None);
    assert_eq!(l.stats.rx_packets, 0);
    assert_eq!(l.stats.tx_dropped, 0);
}

#[test]
fn default_link_stats_are_zero() {
    let s = LinkStats::default();
    assert_eq!(
        s,
        LinkStats {
            rx_packets: 0,
            tx_packets: 0,
            rx_bytes: 0,
            tx_bytes: 0,
            rx_dropped: 0,
            tx_dropped: 0
        }
    );
}

#[test]
fn links_are_equal_by_index_alone() {
    assert!(link(3, "eth0") == link(3, "eth1"));
    assert!(link(3, "eth0") != link(4, "eth0"));
}

#[test]
fn links_are_ordered_by_index_alone() {
    assert!(link(1, "z") < link(2, "a"));
    assert!(link(5, "a") > link(2, "z"));
    assert!(link(2, "a") <= link(2, "b"));
    assert_eq!(link(1, "a").partial_cmp(&link(2, "a")), Some(Ordering::Less));
    assert_eq!(link(2, "a").partial_cmp(&link(2, "b")), Some(Ordering::Equal));
    assert_eq!(link(3, "a").partial_cmp(&link(2, "a")), Some(Ordering::Greater));
    assert_eq!(link(1, "a").cmp(&link(2, "a")), Ordering::Less);
    assert_eq!(link(2, "x").cmp(&link(2, "y")), Ordering::Equal);
    assert_eq!(link(9, "a").cmp(&link(2, "a")), Ordering::Greater);
}
