//! A network link and its counters.

use crate::net::mac::MacAddr;
use std::cmp::Ordering;
use vstd::prelude::*;
use vstd::std_specs::cmp::{PartialEqSpecImpl, PartialOrdSpecImpl};

verus! {

/// Packet, byte and drop counters of a link, for each direction.
#[derive(Clone, Copy, Debug, PartialEq, Eq, Structural)]
pub struct LinkStats {
    pub rx_packets: u64,
    pub tx_packets: u64,
    pub rx_bytes: u64,
    pub tx_bytes: u64,
    pub rx_dropped: u64,
    pub tx_dropped: u64,
}

impl LinkStats {
    /// Counters that have counted nothing.
    pub open spec fn zero() -> LinkStats {
        LinkStats {
            rx_packets: 0,
            tx_packets: 0,
            rx_bytes: 0,
            tx_bytes: 0,
            rx_dropped: 0,
            tx_dropped: 0,
        }
    }
}

impl Default for LinkStats {
    fn default() -> (r: Self)
        ensures
            r == LinkStats::zero(),
    {
        LinkStats {
            rx_packets: 0,
            tx_packets: 0,
            rx_bytes: 0,
            tx_bytes: 0,
            rx_dropped: 0,
            tx_dropped: 0,
        }
    }
}

/// A network link. Two links are the same link, and are ordered, by their
/// interface index alone.
#[derive(Clone, Debug)]
pub struct Link {
    pub if_index: u32,
    pub mac_addr: MacAddr,
    pub name: String,
    pub flags: LinkStats,
    pub if_type: Option<String>,
    pub peer_index: Option<u32>,
    pub link_netnsid: Option<u32>,
    pub stats: LinkStats,
}

impl Default for Link {
    fn default() -> (r: Self)
        ensures
            r.if_index == 0,
            r.mac_addr@ == seq![0u8, 0u8, 0u8, 0u8, 0u8, 0u8],
            r.name@ == Seq::<char>::empty(),
            r.flags == LinkStats::zero(),
            r.if_type is None,
            r.peer_index is None,
            r.link_netnsid is None,
            r.stats == LinkStats::zero(),
    {
        Link {
            if_index: 0,
            mac_addr: MacAddr::zero(),
            name: String::new(),
            flags: LinkStats::default(),
            if_type: None,
            peer_index: None,
            link_netnsid: None,
            stats: LinkStats::default(),
        }
    }
}

impl PartialEq for Link {
    fn eq(&self, other: &Self) -> (r: bool) {
        self.if_index == other.if_index
    }
}

impl PartialEqSpecImpl for Link {
    open spec fn obeys_eq_spec() -> bool {
        true
    }

    open spec fn eq_spec(&self, other: &Self) -> bool {
        self.if_index == other.if_index
    }
}

impl Eq for Link {

}

impl PartialOrd for Link {
    fn partial_cmp(&self, other: &Self) -> (r: Option<Ordering>) {
        Some(self.cmp(other))
    }
}

impl PartialOrdSpecImpl for Link {
    open spec fn obeys_partial_cmp_spec() -> bool {
        true
    }

    open spec fn partial_cmp_spec(&self, other: &Self) -> Option<Ordering> {
        Some(self.order(other))
    }
}

impl Link {
    /// How this link stands to another: as their interface indices stand.
    pub open spec fn order(&self, other: &Self) -> Ordering {
        if self.if_index < other.if_index {
            Ordering::Less
        } else if self.if_index == other.if_index {
            Ordering::Equal
        } else {
            Ordering::Greater
        }
    }

    /// Compares two links by their interface indices.
    pub fn cmp(&self, other: &Self) -> (r: Ordering)
        ensures
            r == self.order(other),
    {
        if self.if_index < other.if_index {
            Ordering::Less
        } else if self.if_index == other.if_index {
            Ordering::Equal
        } else {
            Ordering::Greater
        }
    }
}

} // verus!
