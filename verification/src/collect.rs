//! The collector: accumulates the devices reported by the reply filter,
//! and on termination of the collection loop appends the local host and
//! sorts the list by IP address.
//!
//! The surrounding program runs the loop: it transmits every generated
//! probe, then repeatedly waits on the delivery channel with the
//! configured timeout, handing each received device to `on_reply`; the
//! first expiry of the wait ends collection, and `finish` produces the
//! final device list.

use vstd::prelude::*;
use crate::net::{Device, LocalIdentity};

verus! {

/// The device list order at the end of collection: IP addresses ascending;
/// the order among entries with equal IPs is left open.
pub open spec fn sorted_by_ip(s: Seq<Device>) -> bool {
    forall|i: int, j: int| 0 <= i < j < s.len() ==> s[i].ip <= s[j].ip
}

/// Inserts `d` before the first entry with a larger IP, keeping the list
/// sorted and adding exactly `d` to its contents.
fn insert_sorted(out: &mut Vec<Device>, d: Device)
    requires
        sorted_by_ip(old(out)@),
        old(out)@.len() < usize::MAX,
    ensures
        sorted_by_ip(final(out)@),
        final(out)@.to_multiset() == old(out)@.to_multiset().insert(d),
        final(out)@.len() == old(out)@.len() + 1,
        old(out)@.len() == 0 ==> final(out)@ == seq![d],
{
    let mut p: usize = 0;
    while p < out.len() && out[p].ip <= d.ip
        invariant
            p <= out@.len(),
            forall|k: int| 0 <= k < p ==> out@[k].ip <= d.ip,
        decreases out@.len() - p,
    {
        p = p + 1;
    }
    proof {
        broadcast use vstd::seq_lib::group_to_multiset_ensures;

        assert(old(out)@.len() == 0 ==> old(out)@.insert(0, d) =~= seq![d]);
    }
    out.insert(p, d);
}

/// The state of one collection run: the scanning host's identity and the
/// devices accepted so far, in arrival order.
pub struct Collector {
    pub local: LocalIdentity,
    pub devices: Vec<Device>,
}

impl Collector {
    /// The collector is valid while its identity is.
    pub open spec fn wf(self) -> bool {
        self.local.wf()
    }

    /// A fresh collector with no devices yet.
    pub fn new(local: &LocalIdentity) -> (r: Collector)
        requires
            local.wf(),
        ensures
            r.wf(),
            r.local == *local,
            r.devices@ == Seq::<Device>::empty(),
    {
        Collector { local: *local, devices: Vec::new() }
    }

    /// Records one device accepted by the reply filter, appending it in
    /// arrival order.
    pub fn on_reply(&mut self, d: Device)
        requires
            old(self).wf(),
        ensures
            final(self).wf(),
            final(self).local == old(self).local,
            final(self).devices@ == old(self).devices@.push(d),
    {
        self.devices.push(d);
    }

    /// Ends collection: the final device list holds every collected device
    /// plus exactly one entry for the local host, sorted by IP ascending.
    /// With zero replies the list is exactly the local entry alone.
    pub fn finish(self) -> (r: Vec<Device>)
        requires
            self.wf(),
            self.devices@.len() < usize::MAX,
        ensures
            sorted_by_ip(r@),
            r@.to_multiset() == self.devices@.push(self.local.spec_local_device()).to_multiset(),
            r@.len() == self.devices@.len() + 1,
            self.devices@.len() == 0 ==> r@ == seq![self.local.spec_local_device()],
    {
        let mut out: Vec<Device> = Vec::new();
        let mut i: usize = 0;
        proof {
            assert(self.devices@.take(0) =~= Seq::<Device>::empty());
        }
        while i < self.devices.len()
            invariant
                i <= self.devices@.len(),
                self.devices@.len() < usize::MAX,
                sorted_by_ip(out@),
                out@.len() == i,
                out@.to_multiset() == self.devices@.take(i as int).to_multiset(),
            decreases self.devices@.len() - i,
        {
            insert_sorted(&mut out, self.devices[i]);
            i = i + 1;
            proof {
                broadcast use vstd::seq_lib::group_to_multiset_ensures;

                assert(self.devices@.take(i as int) =~= self.devices@.take(i - 1).push(
                    self.devices@[i - 1],
                ));
            }
        }
        insert_sorted(&mut out, Device { ip: self.local.ip, mac: self.local.mac });
        proof {
            broadcast use vstd::seq_lib::group_to_multiset_ensures;

            assert(self.devices@.take(self.devices@.len() as int) =~= self.devices@);
        }
        out
    }
}

} // verus!
