//! Plain-value models of the link-layer and network-layer addresses the
//! scanner works with: hardware (MAC) addresses, IPv4 subnets, and the
//! identity of the scanning host.

use vstd::prelude::*;

verus! {

/// A 48-bit Ethernet hardware address, stored in the low bits of a `u64`.
#[derive(Clone, Copy, PartialEq, Eq, Structural, Debug)]
pub struct Mac {
    pub bits: u64,
}

impl Mac {
    /// A hardware address is valid when it fits in 48 bits.
    pub open spec fn wf(self) -> bool {
        self.bits < 0x1000000000000
    }

    /// The all-ones broadcast address `ff:ff:ff:ff:ff:ff`.
    pub fn broadcast() -> (r: Mac)
        ensures
            r.wf(),
            r.bits == 0xFFFFFFFFFFFFu64,
    {
        Mac { bits: 0xFFFFFFFFFFFF }
    }

    /// The all-zero, unspecified hardware address.
    pub fn zero() -> (r: Mac)
        ensures
            r.wf(),
            r.bits == 0,
    {
        Mac { bits: 0 }
    }

    /// The address whose six octets are `o0:o1:o2:o3:o4:o5`, `o0` most
    /// significant on the wire.
    pub fn from_octets(o0: u8, o1: u8, o2: u8, o3: u8, o4: u8, o5: u8) -> (r: Mac)
        ensures
            r.wf(),
            r.bits == o0 * 0x10000000000u64 + o1 * 0x100000000u64 + o2 * 0x1000000u64 + o3
                * 0x10000u64 + o4 * 0x100u64 + o5,
    {
        Mac {
            bits: (o0 as u64) * 0x10000000000 + (o1 as u64) * 0x100000000 + (o2 as u64) * 0x1000000
                + (o3 as u64) * 0x10000 + (o4 as u64) * 0x100 + (o5 as u64),
        }
    }
}

/// One observed host: an IPv4 address paired with the hardware address
/// that claimed it.
#[derive(Clone, Copy, PartialEq, Eq, Structural, Debug)]
pub struct Device {
    pub ip: u32,
    pub mac: Mac,
}

/// The network mask selecting the upper `prefix` bits of an IPv4 address.
pub open spec fn mask_of(prefix: u8) -> u32 {
    (!(0xFFFFFFFFu64 >> prefix)) as u32
}

/// A contiguous IPv4 range: a network-aligned base address plus a prefix
/// length. The range holds the `2^(32 - prefix)` addresses from `base`
/// through `base + 2^(32 - prefix) - 1`, network and broadcast included.
#[derive(Clone, Copy, PartialEq, Eq, Structural, Debug)]
pub struct Subnet {
    pub base: u32,
    pub prefix: u8,
}

impl Subnet {
    /// A subnet is valid when the prefix length is at most 32 and the base
    /// address has all host bits clear.
    pub open spec fn wf(self) -> bool {
        &&& self.prefix <= 32
        &&& self.base & mask_of(self.prefix) == self.base
    }

    /// The number of addresses in the range.
    pub open spec fn spec_size(self) -> u64 {
        1u64 << (32 - self.prefix) as u64
    }

    /// Whether `ip` lies in the range: its network bits equal the base's.
    pub open spec fn spec_contains(self, ip: u32) -> bool {
        ip & mask_of(self.prefix) == self.base
    }

    /// The `n`-th address of the range, counting up from the base.
    pub open spec fn spec_addr_at(self, n: u64) -> u32 {
        (self.base + n) as u32
    }

    /// Builds the subnet containing `addr` under the given prefix length,
    /// masking the host bits of `addr` away.
    pub fn new(addr: u32, prefix: u8) -> (r: Subnet)
        requires
            prefix <= 32,
        ensures
            r.wf(),
            r.prefix == prefix,
            r.base == addr & mask_of(prefix),
            r.spec_contains(addr),
    {
        let mask: u32 = (!(0xFFFFFFFFu64 >> prefix)) as u32;
        let base: u32 = addr & mask;
        proof {
            assert((addr & mask) & mask == addr & mask) by (bit_vector);
        }
        Subnet { base, prefix }
    }

    /// Whether `ip` lies in this subnet.
    pub fn contains(&self, ip: u32) -> (r: bool)
        requires
            self.wf(),
        ensures
            r == self.spec_contains(ip),
    {
        let mask: u32 = (!(0xFFFFFFFFu64 >> self.prefix)) as u32;
        (ip & mask) == self.base
    }

    /// The number of addresses in the range.
    pub fn size(&self) -> (r: u64)
        requires
            self.wf(),
        ensures
            r == self.spec_size(),
            r >= 1,
    {
        proof {
            let p = self.prefix;
            assert(p <= 32 ==> 1u64 << (32 - p) as u64 >= 1) by (bit_vector);
        }
        1u64 << (32 - self.prefix) as u64
    }

    /// The `n`-th address of the range; it always lies in the subnet.
    pub fn addr_at(&self, n: u64) -> (r: u32)
        requires
            self.wf(),
            n < self.spec_size(),
        ensures
            r == self.spec_addr_at(n),
            self.spec_contains(r),
    {
        proof {
            let b = self.base;
            let p = self.prefix;
            assert(p <= 32 && b & ((!(0xFFFFFFFFu64 >> p)) as u32) == b && n < (1u64 << (32
                - p) as u64) ==> b + n <= 0xFFFFFFFFu64 && ((b + n) as u32) & ((!(0xFFFFFFFFu64
                >> p)) as u32) == b) by (bit_vector);
        }
        self.base + (n as u32)
    }
}

/// The scanning host's own addresses, fixed for the whole run: its IPv4
/// address, the subnet it probes, and its hardware address.
#[derive(Clone, Copy, PartialEq, Eq, Structural, Debug)]
pub struct LocalIdentity {
    pub ip: u32,
    pub mac: Mac,
    pub subnet: Subnet,
}

impl LocalIdentity {
    /// The identity is valid when its hardware address and subnet are.
    pub open spec fn wf(self) -> bool {
        &&& self.mac.wf()
        &&& self.subnet.wf()
    }

    /// The scanning host itself, as a device-list entry.
    pub open spec fn spec_local_device(self) -> Device {
        Device { ip: self.ip, mac: self.mac }
    }
}

} // verus!
