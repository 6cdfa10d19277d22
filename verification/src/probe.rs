//! The probe generator: one outbound ARP frame for every address of the
//! local subnet, built through the frame codec, with the RFC 5227 probe
//! rule applied exactly for the local host's own address.

use vstd::prelude::*;
use crate::codec::{encode_probe, spec_decode_frame, spec_probe_frame, ArpFrame, MIN_FRAME_LEN};
use crate::net::LocalIdentity;

verus! {

/// The sender protocol address a probe for `target_ip` carries: the
/// unspecified address `0.0.0.0` when the probe targets the local host's
/// own address (an ARP probe in the RFC 5227 sense), the local address
/// otherwise.
pub open spec fn spec_probe_sender_ip(local: LocalIdentity, target_ip: u32) -> u32 {
    if target_ip == local.ip {
        0u32
    } else {
        local.ip
    }
}

/// The decoded view of the probe frame for `target_ip`.
pub open spec fn spec_probe_for(local: LocalIdentity, target_ip: u32) -> ArpFrame {
    spec_probe_frame(local.mac, spec_probe_sender_ip(local, target_ip), target_ip)
}

/// Builds the probe frame for one target address. The sender protocol
/// address is `0.0.0.0` exactly when the target is the local address;
/// every other field is fixed by the probe layout.
pub fn build_probe(local: &LocalIdentity, target_ip: u32) -> (r: Vec<u8>)
    requires
        local.wf(),
    ensures
        r@.len() == MIN_FRAME_LEN,
        spec_decode_frame(r@) == Some(spec_probe_for(*local, target_ip)),
{
    let sender_ip: u32 = if target_ip == local.ip {
        0
    } else {
        local.ip
    };
    encode_probe(local.mac, sender_ip, target_ip)
}

/// A finite, one-shot source of probe frames: one frame per address of the
/// local subnet, in ascending address order.
pub struct ProbeGenerator {
    pub local: LocalIdentity,
    pub next_index: u64,
}

impl ProbeGenerator {
    /// The generator is valid while its position has not run past the end
    /// of the subnet range.
    pub open spec fn wf(self) -> bool {
        &&& self.local.wf()
        &&& self.next_index <= self.local.subnet.spec_size()
    }

    /// A fresh generator positioned at the first address of the subnet.
    pub fn new(local: &LocalIdentity) -> (r: ProbeGenerator)
        requires
            local.wf(),
        ensures
            r.wf(),
            r.local == *local,
            r.next_index == 0,
    {
        ProbeGenerator { local: *local, next_index: 0 }
    }

    /// Yields the probe frame for the next address of the subnet, or
    /// nothing once every address has been yielded. Each yielded frame is
    /// the probe for the subnet's address at the old position, and the
    /// position advances by one.
    pub fn next(&mut self) -> (r: Option<Vec<u8>>)
        requires
            old(self).wf(),
        ensures
            final(self).wf(),
            final(self).local == old(self).local,
            old(self).next_index == old(self).local.subnet.spec_size() ==> r is None
                && final(self).next_index == old(self).next_index,
            old(self).next_index < old(self).local.subnet.spec_size() ==> {
                &&& final(self).next_index == old(self).next_index + 1
                &&& r is Some
                &&& spec_decode_frame(r->Some_0@) == Some(
                    spec_probe_for(
                        old(self).local,
                        old(self).local.subnet.spec_addr_at(old(self).next_index),
                    ),
                )
            },
    {
        let size = self.local.subnet.size();
        if self.next_index == size {
            return None;
        }
        let target_ip = self.local.subnet.addr_at(self.next_index);
        let frame = build_probe(&self.local, target_ip);
        self.next_index = self.next_index + 1;
        Some(frame)
    }
}

} // verus!
