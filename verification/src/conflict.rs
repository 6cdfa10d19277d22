//! The conflict detector: one left-to-right pass over the final device
//! list, reporting every entry involved in an address collision. Under
//! each key (the IP address, and independently the hardware address), the
//! moment a key is seen for the second time both of its members found so
//! far are emitted; every later entry under that key is emitted alone.
//! Output order is first-detection order, not grouped-by-key order.

use vstd::prelude::*;
use crate::net::Device;

verus! {

/// Whether `a` and `b` collide under the chosen key: equal IP addresses
/// when `by_ip` is set, equal hardware addresses otherwise.
pub open spec fn same_key(a: Device, b: Device, by_ip: bool) -> bool {
    if by_ip {
        a.ip == b.ip
    } else {
        a.mac == b.mac
    }
}

/// How many entries of `s` share `d`'s key.
pub open spec fn count_key(s: Seq<Device>, d: Device, by_ip: bool) -> nat
    decreases s.len(),
{
    if s.len() == 0 {
        0
    } else {
        count_key(s.drop_last(), d, by_ip) + if same_key(s.last(), d, by_ip) {
            1nat
        } else {
            0nat
        }
    }
}

/// The position of the first entry of `s` sharing `d`'s key.
pub open spec fn first_key_idx(s: Seq<Device>, d: Device, by_ip: bool) -> int
    decreases s.len(),
{
    if s.len() == 0 {
        0
    } else if same_key(s[0], d, by_ip) {
        0
    } else {
        1 + first_key_idx(s.drop_first(), d, by_ip)
    }
}

/// The conflicts a left-to-right pass over `s` reports under one key.
/// Each entry whose key was seen exactly once before triggers the
/// two-member threshold: the earlier member is emitted, then the entry
/// itself. An entry whose key was already seen at least twice is emitted
/// alone; one with an unseen key is not emitted.
pub open spec fn spec_conflicts(s: Seq<Device>, by_ip: bool) -> Seq<Device>
    decreases s.len(),
{
    if s.len() == 0 {
        Seq::empty()
    } else {
        let p = s.drop_last();
        let d = s.last();
        let prev = spec_conflicts(p, by_ip);
        let c = count_key(p, d, by_ip);
        if c == 0 {
            prev
        } else if c == 1 {
            prev + seq![p[first_key_idx(p, d, by_ip)], d]
        } else {
            prev.push(d)
        }
    }
}

/// If no entry of `s` shares `d`'s key, the key count is zero.
proof fn lemma_count_key_zero(s: Seq<Device>, d: Device, by_ip: bool)
    requires
        forall|k: int| 0 <= k < s.len() ==> !same_key(s[k], d, by_ip),
    ensures
        count_key(s, d, by_ip) == 0,
    decreases s.len(),
{
    if s.len() > 0 {
        lemma_count_key_zero(s.drop_last(), d, by_ip);
    }
}

/// If `s[j]` shares `d`'s key and no earlier entry does, `j` is the first
/// matching position.
proof fn lemma_first_key_idx(s: Seq<Device>, d: Device, by_ip: bool, j: int)
    requires
        0 <= j < s.len(),
        same_key(s[j], d, by_ip),
        forall|k: int| 0 <= k < j ==> !same_key(s[k], d, by_ip),
    ensures
        first_key_idx(s, d, by_ip) == j,
    decreases j,
{
    if j > 0 {
        lemma_first_key_idx(s.drop_first(), d, by_ip, j - 1);
    }
}

fn key_matches(a: &Device, b: &Device, by_ip: bool) -> (r: bool)
    ensures
        r == same_key(*a, *b, by_ip),
{
    if by_ip {
        a.ip == b.ip
    } else {
        a.mac == b.mac
    }
}

fn count_in_prefix(devices: &Vec<Device>, upto: usize, d: &Device, by_ip: bool) -> (c: usize)
    requires
        upto <= devices@.len(),
    ensures
        c == count_key(devices@.take(upto as int), *d, by_ip),
{
    let mut c: usize = 0;
    let mut j: usize = 0;
    proof {
        assert(devices@.take(0) =~= Seq::<Device>::empty());
    }
    while j < upto
        invariant
            j <= upto <= devices@.len(),
            c <= j,
            c == count_key(devices@.take(j as int), *d, by_ip),
        decreases upto - j,
    {
        if key_matches(&devices[j], d, by_ip) {
            c = c + 1;
        }
        j = j + 1;
        proof {
            assert(devices@.take(j as int).drop_last() =~= devices@.take(j - 1));
        }
    }
    c
}

fn find_first_in_prefix(devices: &Vec<Device>, upto: usize, d: &Device, by_ip: bool) -> (r: usize)
    requires
        upto <= devices@.len(),
        count_key(devices@.take(upto as int), *d, by_ip) >= 1,
    ensures
        r < upto,
        same_key(devices@[r as int], *d, by_ip),
        r == first_key_idx(devices@.take(upto as int), *d, by_ip),
{
    let mut j: usize = 0;
    while j < upto
        invariant
            j <= upto <= devices@.len(),
            forall|k: int| 0 <= k < j ==> !same_key(devices@[k], *d, by_ip),
        decreases upto - j,
    {
        if key_matches(&devices[j], d, by_ip) {
            proof {
                lemma_first_key_idx(devices@.take(upto as int), *d, by_ip, j as int);
            }
            return j;
        }
        j = j + 1;
    }
    proof {
        lemma_count_key_zero(devices@.take(upto as int), *d, by_ip);
        assert(false);
    }
    0
}

/// Reports the conflicts of `devices` under one key, in first-detection
/// order.
pub fn conflicts_for_key(devices: &Vec<Device>, by_ip: bool) -> (r: Vec<Device>)
    ensures
        r@ == spec_conflicts(devices@, by_ip),
{
    let mut out: Vec<Device> = Vec::new();
    let mut i: usize = 0;
    proof {
        assert(devices@.take(0) =~= Seq::<Device>::empty());
    }
    while i < devices.len()
        invariant
            i <= devices@.len(),
            out@ == spec_conflicts(devices@.take(i as int), by_ip),
        decreases devices@.len() - i,
    {
        let d = devices[i];
        let c = count_in_prefix(devices, i, &d, by_ip);
        let ghost prev = out@;
        if c == 1 {
            let f = find_first_in_prefix(devices, i, &d, by_ip);
            out.push(devices[f]);
            out.push(d);
            proof {
                assert(out@ =~= prev + seq![
                    devices@.take(i as int)[first_key_idx(devices@.take(i as int), d, by_ip)],
                    d,
                ]);
            }
        } else if c >= 2 {
            out.push(d);
        }
        i = i + 1;
        proof {
            assert(devices@.take(i as int).drop_last() =~= devices@.take(i - 1));
        }
    }
    proof {
        assert(devices@.take(devices@.len() as int) =~= devices@);
    }
    out
}

/// Classifies the device list: every entry involved in an IP-address
/// collision, and every entry involved in a hardware-address collision,
/// each in first-detection order. No conflict exists exactly when both
/// sequences are empty.
pub fn detect(devices: &Vec<Device>) -> (r: (Vec<Device>, Vec<Device>))
    ensures
        r.0@ == spec_conflicts(devices@, true),
        r.1@ == spec_conflicts(devices@, false),
{
    let ip_conflicts = conflicts_for_key(devices, true);
    let mac_conflicts = conflicts_for_key(devices, false);
    (ip_conflicts, mac_conflicts)
}

/// Law: the conflict detector is deterministic, so running it twice on the
/// same device list yields identical output. Each run's result equals the
/// specified conflict sequence of its input, so any two results agree.
pub proof fn lemma_detect_idempotent(
    s: Seq<Device>,
    r1: Seq<Device>,
    r2: Seq<Device>,
    by_ip: bool,
)
    requires
        r1 == spec_conflicts(s, by_ip),
        r2 == spec_conflicts(s, by_ip),
    ensures
        r1 == r2,
{
}

} // verus!
