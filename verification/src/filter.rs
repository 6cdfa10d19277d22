//! The reply filter: decides, for one raw inbound frame, whether it is a
//! valid ARP reply relevant to this scan, and if so which device it
//! reports. The surrounding listener loop reads frames from the link and
//! hands each buffer here; everything this function rejects is silently
//! dropped and listening continues.

use vstd::prelude::*;
use crate::codec::{decode_reply, spec_decode_reply};
use crate::net::{Device, LocalIdentity};

verus! {

/// What the filter accepts: the frame decodes as an ARP reply whose sender
/// IP lies in the probed subnet, whose target IP is the local address or
/// the unspecified probe address `0.0.0.0`, and whose target hardware
/// address is the local one. The accepted device pairs the reply's sender
/// IP with its sender hardware address.
pub open spec fn spec_accept(s: Seq<u8>, local: LocalIdentity) -> Option<Device> {
    match spec_decode_reply(s) {
        None => None,
        Some(reply) => if local.subnet.spec_contains(reply.sender_ip) && (reply.target_ip
            == local.ip || reply.target_ip == 0) && reply.target_mac == local.mac {
            Some(Device { ip: reply.sender_ip, mac: reply.sender_mac })
        } else {
            None
        },
    }
}

/// Filters one raw inbound buffer. Returns the reporting device exactly
/// when the buffer is a valid, relevant ARP reply; the sender IP of every
/// accepted reply lies in the probed subnet.
pub fn accept(buf: &[u8], local: &LocalIdentity) -> (r: Option<Device>)
    requires
        local.wf(),
    ensures
        r == spec_accept(buf@, *local),
        r matches Some(d) ==> local.subnet.spec_contains(d.ip),
{
    match decode_reply(buf) {
        None => None,
        Some(reply) => {
            if local.subnet.contains(reply.sender_ip) && (reply.target_ip == local.ip
                || reply.target_ip == 0) && reply.target_mac == local.mac {
                Some(Device { ip: reply.sender_ip, mac: reply.sender_mac })
            } else {
                None
            }
        },
    }
}

} // verus!
