//! An IP address as plain octets.

use vstd::prelude::*;

verus! {

/// An IP address of either family, held as its octets in network order.
#[derive(Clone, Copy, Debug, PartialEq, Eq, Hash)]
pub enum IpAddress {
    V4([u8; 4]),
    V6([u8; 16]),
}

impl IpAddress {
    /// The IPv4 loopback address, `127.0.0.1`.
    pub fn loopback() -> (r: IpAddress)
        ensures
            r matches IpAddress::V4(o) && o@ == seq![127u8, 0u8, 0u8, 1u8],
    {
        let o: [u8; 4] = [127, 0, 0, 1];
        assert(o@ =~= seq![127u8, 0u8, 0u8, 1u8]);
        IpAddress::V4(o)
    }
}

} // verus!
