//! The frame codec: building and parsing the fixed two-layer binary
//! structure (Ethernet II header followed by an ARP payload) used both for
//! the outbound probes and the inbound replies.
//!
//! Wire layout, offsets in bytes from the start of the frame:
//! Ethernet: destination MAC at 0, source MAC at 6, EtherType at 12.
//! ARP: hardware type at 14, protocol type at 16, hardware address length
//! at 18, protocol address length at 19, operation at 20, sender MAC at 22,
//! sender IP at 28, target MAC at 32, target IP at 38. All multi-byte
//! fields are big-endian.

use vstd::prelude::*;
use vstd::pervasive::VecAdditionalExecFns;
use crate::net::Mac;

verus! {

/// Length of the Ethernet II header.
pub const ETH_HEADER_LEN: usize = 14;

/// Length of an ARP payload for 6-byte hardware and 4-byte protocol
/// addresses.
pub const ARP_PAYLOAD_LEN: usize = 28;

/// The minimum combined frame size; shorter buffers are rejected before
/// any ARP parsing is attempted.
pub const MIN_FRAME_LEN: usize = ETH_HEADER_LEN + ARP_PAYLOAD_LEN;

/// The ARP operation code of a request.
pub const ARP_OP_REQUEST: u16 = 1;

/// The ARP operation code of a reply.
pub const ARP_OP_REPLY: u16 = 2;

/// The EtherType of an ARP payload.
pub const ETHERTYPE_ARP: u16 = 0x0806;

/// The EtherType of IPv4, used as the ARP protocol type.
pub const ETHERTYPE_IPV4: u16 = 0x0800;

/// The ARP hardware type of Ethernet.
pub const HTYPE_ETHERNET: u16 = 1;

/// The big-endian 16-bit value at offset `i` of `s`.
pub open spec fn be16_at(s: Seq<u8>, i: int) -> int {
    s[i] * 0x100 + s[i + 1]
}

/// The big-endian 32-bit value at offset `i` of `s`.
pub open spec fn be32_at(s: Seq<u8>, i: int) -> int {
    s[i] * 0x1000000 + s[i + 1] * 0x10000 + s[i + 2] * 0x100 + s[i + 3]
}

/// The big-endian 48-bit value at offset `i` of `s`.
pub open spec fn be48_at(s: Seq<u8>, i: int) -> int {
    s[i] * 0x10000000000 + s[i + 1] * 0x100000000 + s[i + 2] * 0x1000000 + s[i + 3] * 0x10000 + s[i
        + 4] * 0x100 + s[i + 5]
}

/// Every field of a decoded frame: the Ethernet view followed by the ARP
/// view.
#[derive(Clone, Copy, PartialEq, Eq, Structural, Debug)]
pub struct ArpFrame {
    pub eth_dst: Mac,
    pub eth_src: Mac,
    pub ethertype: u16,
    pub htype: u16,
    pub ptype: u16,
    pub hlen: u8,
    pub plen: u8,
    pub op: u16,
    pub sender_mac: Mac,
    pub sender_ip: u32,
    pub target_mac: Mac,
    pub target_ip: u32,
}

/// What decoding a raw buffer yields: nothing if the buffer is shorter
/// than the minimum combined frame size, otherwise every field read at its
/// wire offset.
pub open spec fn spec_decode_frame(s: Seq<u8>) -> Option<ArpFrame> {
    if s.len() < MIN_FRAME_LEN {
        None
    } else {
        Some(
            ArpFrame {
                eth_dst: Mac { bits: be48_at(s, 0) as u64 },
                eth_src: Mac { bits: be48_at(s, 6) as u64 },
                ethertype: be16_at(s, 12) as u16,
                htype: be16_at(s, 14) as u16,
                ptype: be16_at(s, 16) as u16,
                hlen: s[18],
                plen: s[19],
                op: be16_at(s, 20) as u16,
                sender_mac: Mac { bits: be48_at(s, 22) as u64 },
                sender_ip: be32_at(s, 28) as u32,
                target_mac: Mac { bits: be48_at(s, 32) as u64 },
                target_ip: be32_at(s, 38) as u32,
            },
        )
    }
}

/// The frame that `encode_probe` produces, as a decoded view.
pub open spec fn spec_probe_frame(local_mac: Mac, sender_ip: u32, target_ip: u32) -> ArpFrame {
    ArpFrame {
        eth_dst: Mac { bits: 0xFFFFFFFFFFFF },
        eth_src: local_mac,
        ethertype: ETHERTYPE_ARP,
        htype: HTYPE_ETHERNET,
        ptype: ETHERTYPE_IPV4,
        hlen: 6,
        plen: 4,
        op: ARP_OP_REQUEST,
        sender_mac: local_mac,
        sender_ip: sender_ip,
        target_mac: Mac { bits: 0 },
        target_ip: target_ip,
    }
}

fn read_be16(buf: &[u8], i: usize) -> (r: u16)
    requires
        i + 2 <= buf@.len(),
    ensures
        r == be16_at(buf@, i as int),
{
    let n = buf.len();
    proof {
        assert(i + 2 <= n);
    }
    (buf[i] as u16) * 0x100 + (buf[i + 1] as u16)
}

fn read_be32(buf: &[u8], i: usize) -> (r: u32)
    requires
        i + 4 <= buf@.len(),
    ensures
        r == be32_at(buf@, i as int),
{
    let n = buf.len();
    proof {
        assert(i + 4 <= n);
    }
    (buf[i] as u32) * 0x1000000 + (buf[i + 1] as u32) * 0x10000 + (buf[i + 2] as u32) * 0x100 + (
    buf[i + 3] as u32)
}

fn read_be48(buf: &[u8], i: usize) -> (r: u64)
    requires
        i + 6 <= buf@.len(),
    ensures
        r == be48_at(buf@, i as int),
        r < 0x1000000000000,
{
    let n = buf.len();
    proof {
        assert(i + 6 <= n);
    }
    (buf[i] as u64) * 0x10000000000 + (buf[i + 1] as u64) * 0x100000000 + (buf[i + 2] as u64)
        * 0x1000000 + (buf[i + 3] as u64) * 0x10000 + (buf[i + 4] as u64) * 0x100 + (buf[i
        + 5] as u64)
}

fn write_be16(buf: &mut Vec<u8>, i: usize, v: u16)
    requires
        i + 2 <= old(buf)@.len(),
    ensures
        final(buf)@.len() == old(buf)@.len(),
        be16_at(final(buf)@, i as int) == v,
        forall|j: int|
            0 <= j < old(buf)@.len() && !(i <= j < i + 2) ==> final(buf)@[j] == old(buf)@[j],
{
    let n = buf.len();
    proof {
        assert(i + 2 <= n);
    }
    buf.set(i, #[verifier::truncate] ((v >> 8) as u8));
    buf.set(i + 1, (v & 0xFF) as u8);
    proof {
        assert(((v >> 8) as u8) as u64 * 0x100 + ((v & 0xFF) as u8) as u64 == v as u64)
            by (bit_vector);
    }
}

fn write_be32(buf: &mut Vec<u8>, i: usize, v: u32)
    requires
        i + 4 <= old(buf)@.len(),
    ensures
        final(buf)@.len() == old(buf)@.len(),
        be32_at(final(buf)@, i as int) == v,
        forall|j: int|
            0 <= j < old(buf)@.len() && !(i <= j < i + 4) ==> final(buf)@[j] == old(buf)@[j],
{
    let n = buf.len();
    proof {
        assert(i + 4 <= n);
    }
    buf.set(i, #[verifier::truncate] ((v >> 24) as u8));
    buf.set(i + 1, #[verifier::truncate] ((v >> 16) as u8));
    buf.set(i + 2, #[verifier::truncate] ((v >> 8) as u8));
    buf.set(i + 3, (v & 0xFF) as u8);
    proof {
        assert(((v >> 24) as u8) as u64 * 0x1000000 + ((v >> 16) as u8) as u64 * 0x10000 + ((v
            >> 8) as u8) as u64 * 0x100 + ((v & 0xFF) as u8) as u64 == v as u64) by (bit_vector);
    }
}

fn write_be48(buf: &mut Vec<u8>, i: usize, v: u64)
    requires
        i + 6 <= old(buf)@.len(),
        v < 0x1000000000000,
    ensures
        final(buf)@.len() == old(buf)@.len(),
        be48_at(final(buf)@, i as int) == v,
        forall|j: int|
            0 <= j < old(buf)@.len() && !(i <= j < i + 6) ==> final(buf)@[j] == old(buf)@[j],
{
    let n = buf.len();
    proof {
        assert(i + 6 <= n);
    }
    buf.set(i, #[verifier::truncate] ((v >> 40) as u8));
    buf.set(i + 1, #[verifier::truncate] ((v >> 32) as u8));
    buf.set(i + 2, #[verifier::truncate] ((v >> 24) as u8));
    buf.set(i + 3, #[verifier::truncate] ((v >> 16) as u8));
    buf.set(i + 4, #[verifier::truncate] ((v >> 8) as u8));
    buf.set(i + 5, (v & 0xFF) as u8);
    proof {
        assert(v < 0x1000000000000 ==> ((v >> 40) as u8) as u64 * 0x10000000000 + ((v
            >> 32) as u8) as u64 * 0x100000000 + ((v >> 24) as u8) as u64 * 0x1000000 + ((v
            >> 16) as u8) as u64 * 0x10000 + ((v >> 8) as u8) as u64 * 0x100 + ((v
            & 0xFF) as u8) as u64 == v) by (bit_vector);
    }
}

/// Builds one outbound probe frame: an Ethernet broadcast from `local_mac`
/// carrying an ARP request whose sender addresses are `local_mac` and
/// `sender_ip`, whose target hardware address is unspecified, and whose
/// target protocol address is `target_ip`. Decoding the result yields
/// exactly the fields that were set here.
pub fn encode_probe(local_mac: Mac, sender_ip: u32, target_ip: u32) -> (r: Vec<u8>)
    requires
        local_mac.wf(),
    ensures
        r@.len() == MIN_FRAME_LEN,
        spec_decode_frame(r@) == Some(spec_probe_frame(local_mac, sender_ip, target_ip)),
{
    let mut buf: Vec<u8> = Vec::new();
    while buf.len() < MIN_FRAME_LEN
        invariant
            buf@.len() <= MIN_FRAME_LEN,
        decreases MIN_FRAME_LEN - buf@.len(),
    {
        buf.push(0);
    }
    write_be48(&mut buf, 0, 0xFFFFFFFFFFFF);
    write_be48(&mut buf, 6, local_mac.bits);
    write_be16(&mut buf, 12, ETHERTYPE_ARP);
    write_be16(&mut buf, 14, HTYPE_ETHERNET);
    write_be16(&mut buf, 16, ETHERTYPE_IPV4);
    buf.set(18, 6);
    buf.set(19, 4);
    write_be16(&mut buf, 20, ARP_OP_REQUEST);
    write_be48(&mut buf, 22, local_mac.bits);
    write_be32(&mut buf, 28, sender_ip);
    write_be48(&mut buf, 32, 0);
    write_be32(&mut buf, 38, target_ip);
    buf
}

/// Decodes a raw buffer into its Ethernet and ARP views, regardless of the
/// ARP operation it carries. Returns nothing exactly when the buffer is
/// shorter than the minimum combined frame size.
pub fn decode_frame(buf: &[u8]) -> (r: Option<ArpFrame>)
    ensures
        r == spec_decode_frame(buf@),
{
    if buf.len() < MIN_FRAME_LEN {
        return None;
    }
    Some(
        ArpFrame {
            eth_dst: Mac { bits: read_be48(buf, 0) },
            eth_src: Mac { bits: read_be48(buf, 6) },
            ethertype: read_be16(buf, 12),
            htype: read_be16(buf, 14),
            ptype: read_be16(buf, 16),
            hlen: buf[18],
            plen: buf[19],
            op: read_be16(buf, 20),
            sender_mac: Mac { bits: read_be48(buf, 22) },
            sender_ip: read_be32(buf, 28),
            target_mac: Mac { bits: read_be48(buf, 32) },
            target_ip: read_be32(buf, 38),
        },
    )
}

/// The ARP view of a reply frame: who answered, and whom the answer was
/// addressed to.
#[derive(Clone, Copy, PartialEq, Eq, Structural, Debug)]
pub struct ArpReply {
    pub sender_ip: u32,
    pub sender_mac: Mac,
    pub target_ip: u32,
    pub target_mac: Mac,
}

/// What decoding a buffer as a reply yields: nothing if the buffer is too
/// short or the ARP operation is not a reply, otherwise the sender and
/// target addresses.
pub open spec fn spec_decode_reply(s: Seq<u8>) -> Option<ArpReply> {
    match spec_decode_frame(s) {
        None => None,
        Some(f) => if f.op == ARP_OP_REPLY {
            Some(
                ArpReply {
                    sender_ip: f.sender_ip,
                    sender_mac: f.sender_mac,
                    target_ip: f.target_ip,
                    target_mac: f.target_mac,
                },
            )
        } else {
            None
        },
    }
}

/// Decodes a raw buffer as an ARP reply. Returns nothing exactly when the
/// buffer is shorter than the minimum combined frame size or the ARP
/// operation is not a reply.
pub fn decode_reply(buf: &[u8]) -> (r: Option<ArpReply>)
    ensures
        r == spec_decode_reply(buf@),
{
    match decode_frame(buf) {
        None => None,
        Some(f) => {
            if f.op == ARP_OP_REPLY {
                Some(
                    ArpReply {
                        sender_ip: f.sender_ip,
                        sender_mac: f.sender_mac,
                        target_ip: f.target_ip,
                        target_mac: f.target_mac,
                    },
                )
            } else {
                None
            }
        },
    }
}

} // verus!
