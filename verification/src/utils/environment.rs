//! The identity under which the agent reaches its controller.

use crate::error::Error;
use crate::net::{IpAddress, MacAddr};
use vstd::prelude::*;

verus! {

/// The address and hardware address by which the controller at `dest` is
/// reached. The agent reports the fixed loopback identity, whatever the
/// controller: the address `127.0.0.1` and the hardware address of all
/// zeros.
pub fn get_ctrl_ip_and_mac(dest: &IpAddress) -> (r: Result<(IpAddress, MacAddr), Error>)
    ensures
        r matches Ok((ip, mac)) && (ip matches IpAddress::V4(o) && o@ == seq![
            127u8,
            0u8,
            0u8,
            1u8,
        ]) && mac@ == seq![0u8, 0u8, 0u8, 0u8, 0u8, 0u8],
{
    Ok((IpAddress::loopback(), MacAddr::zero()))
}

} // verus!
