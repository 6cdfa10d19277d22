use arpscan::cli::Cli;
use arpscan::codec::{decode_frame, decode_reply, encode_probe, MIN_FRAME_LEN};
use arpscan::collect::Collector;
use arpscan::conflict::detect;
use arpscan::filter::accept;
use arpscan::net::{Device, LocalIdentity, Mac, Subnet};
use arpscan::probe::{build_probe, ProbeGenerator};

fn ip(a: u8, b: u8, c: u8, d: u8) -> u32 {
    u32::from_be_bytes([a, b, c, d])
}

fn mac_aa() -> Mac {
    Mac::from_octets(0xAA, 0xAA, 0xAA, 0xAA, 0xAA, 0xAA)
}

fn mac_bb() -> Mac {
    Mac::from_octets(0xBB, 0xBB, 0xBB, 0xBB, 0xBB, 0xBB)
}

fn mac_cc() -> Mac {
    Mac::from_octets(0xCC, 0xCC, 0xCC, 0xCC, 0xCC, 0xCC)
}

fn local_identity() -> LocalIdentity {
    LocalIdentity {
        ip: ip(192, 168, 1, 10),
        mac: mac_aa(),
        subnet: Subnet::new(ip(192, 168, 1, 10), 24),
    }
}

fn put_be32(buf: &mut Vec<u8>, at: usize, v: u32) {
    let bytes = v.to_be_bytes();
    for k in 0..4 {
        buf[at + k] = bytes[k];
    }
}

fn put_mac(buf: &mut Vec<u8>, at: usize, m: Mac) {
    let bytes = m.bits.to_be_bytes();
    for k in 0..6 {
        buf[at + k] = bytes[2 + k];
    }
}

fn reply_frame(sender_ip: u32, sender_mac: Mac, target_ip: u32, target_mac: Mac) -> Vec<u8> {
    let mut buf = vec![0u8; 42];
    put_mac(&mut buf, 0, target_mac);
    put_mac(&mut buf, 6, sender_mac);
    buf[12] = 0x08;
    buf[13] = 0x06;
    buf[14] = 0;
    buf[15] = 1;
    buf[16] = 0x08;
    buf[17] = 0x00;
    buf[18] = 6;
    buf[19] = 4;
    buf[20] = 0;
    buf[21] = 2;
    put_mac(&mut buf, 22, sender_mac);
    put_be32(&mut buf, 28, sender_ip);
    put_mac(&mut buf, 32, target_mac);
    put_be32(&mut buf, 38, target_ip);
    buf
}

#[test]
fn encode_probe_round_trip() {
    let local = mac_aa();
    let sender = ip(192, 168, 1, 10);
    let target = ip(192, 168, 1, 77);
    let frame = encode_probe(local, sender, target);
    assert_eq!(frame.len(), MIN_FRAME_LEN);
    let f = decode_frame(&frame).unwrap();
    assert_eq!(f.eth_dst, Mac::broadcast());
    assert_eq!(f.eth_src, local);
    assert_eq!(f.ethertype, 0x0806);
    assert_eq!(f.htype, 1);
    assert_eq!(f.ptype, 0x0800);
    assert_eq!(f.hlen, 6);
    assert_eq!(f.plen, 4);
    assert_eq!(f.op, 1);
    assert_eq!(f.sender_mac, local);
    assert_eq!(f.sender_ip, sender);
    assert_eq!(f.target_mac, Mac::zero());
    assert_eq!(f.target_ip, target);
}

#[test]
fn probe_for_own_address_has_unspecified_sender() {
    let local = local_identity();
    let frame = build_probe(&local, local.ip);
    let f = decode_frame(&frame).unwrap();
    assert_eq!(f.sender_ip, 0);
    assert_eq!(f.target_ip, local.ip);
}

#[test]
fn probe_for_other_address_has_local_sender() {
    let local = local_identity();
    let target = ip(192, 168, 1, 20);
    let frame = build_probe(&local, target);
    let f = decode_frame(&frame).unwrap();
    assert_eq!(f.sender_ip, local.ip);
    assert_eq!(f.target_ip, target);
}

#[test]
fn short_buffer_is_rejected() {
    let local = local_identity();
    let buf = vec![0u8; MIN_FRAME_LEN - 1];
    assert_eq!(decode_frame(&buf), None);
    assert_eq!(decode_reply(&buf), None);
    assert_eq!(accept(&buf, &local), None);
}

#[test]
fn non_reply_operation_is_rejected() {
    let local = local_identity();
    let frame = build_probe(&local, ip(192, 168, 1, 20));
    assert_eq!(decode_reply(&frame), None);
    assert_eq!(accept(&frame, &local), None);
}

#[test]
fn relevant_reply_is_accepted() {
    let local = local_identity();
    let frame = reply_frame(ip(192, 168, 1, 20), mac_bb(), local.ip, local.mac);
    let d = accept(&frame, &local).unwrap();
    assert_eq!(d, Device { ip: ip(192, 168, 1, 20), mac: mac_bb() });
    assert!(local.subnet.contains(d.ip));
}

#[test]
fn reply_to_self_probe_is_accepted() {
    let local = local_identity();
    let frame = reply_frame(ip(192, 168, 1, 10), mac_bb(), 0, local.mac);
    let d = accept(&frame, &local).unwrap();
    assert_eq!(d, Device { ip: ip(192, 168, 1, 10), mac: mac_bb() });
}

#[test]
fn reply_from_outside_subnet_is_dropped() {
    let local = local_identity();
    let frame = reply_frame(ip(10, 0, 0, 1), mac_bb(), local.ip, local.mac);
    assert_eq!(accept(&frame, &local), None);
}

#[test]
fn reply_to_other_target_ip_is_dropped() {
    let local = local_identity();
    let frame = reply_frame(ip(192, 168, 1, 20), mac_bb(), ip(192, 168, 1, 33), local.mac);
    assert_eq!(accept(&frame, &local), None);
}

#[test]
fn reply_to_other_target_mac_is_dropped() {
    let local = local_identity();
    let frame = reply_frame(ip(192, 168, 1, 20), mac_bb(), local.ip, mac_cc());
    assert_eq!(accept(&frame, &local), None);
}

#[test]
fn zero_replies_yield_only_the_local_device() {
    let local = local_identity();
    let collector = Collector::new(&local);
    let devices = collector.finish();
    assert_eq!(devices, vec![Device { ip: local.ip, mac: local.mac }]);
}

#[test]
fn device_list_is_sorted_by_ip() {
    let local = local_identity();
    let mut collector = Collector::new(&local);
    collector.on_reply(Device { ip: ip(192, 168, 1, 30), mac: mac_cc() });
    collector.on_reply(Device { ip: ip(192, 168, 1, 20), mac: mac_bb() });
    let devices = collector.finish();
    assert_eq!(
        devices,
        vec![
            Device { ip: ip(192, 168, 1, 10), mac: mac_aa() },
            Device { ip: ip(192, 168, 1, 20), mac: mac_bb() },
            Device { ip: ip(192, 168, 1, 30), mac: mac_cc() },
        ]
    );
}

#[test]
fn triple_ip_collision_reports_all_three() {
    let one = ip(1, 1, 1, 1);
    let devices = vec![
        Device { ip: one, mac: mac_aa() },
        Device { ip: one, mac: mac_bb() },
        Device { ip: one, mac: mac_cc() },
    ];
    let (ip_conflicts, mac_conflicts) = detect(&devices);
    assert_eq!(ip_conflicts, devices);
    assert_eq!(mac_conflicts, Vec::new());
}

#[test]
fn distinct_devices_report_no_conflict() {
    let devices = vec![
        Device { ip: ip(1, 1, 1, 1), mac: mac_aa() },
        Device { ip: ip(1, 1, 1, 2), mac: mac_bb() },
    ];
    let (ip_conflicts, mac_conflicts) = detect(&devices);
    assert_eq!(ip_conflicts, Vec::new());
    assert_eq!(mac_conflicts, Vec::new());
}

#[test]
fn triple_mac_collision_reports_all_three() {
    let devices = vec![
        Device { ip: ip(1, 1, 1, 1), mac: mac_aa() },
        Device { ip: ip(1, 1, 1, 2), mac: mac_aa() },
        Device { ip: ip(1, 1, 1, 3), mac: mac_aa() },
    ];
    let (ip_conflicts, mac_conflicts) = detect(&devices);
    assert_eq!(mac_conflicts, devices);
    assert_eq!(ip_conflicts, Vec::new());
}

#[test]
fn detector_is_idempotent() {
    let one = ip(1, 1, 1, 1);
    let devices = vec![
        Device { ip: one, mac: mac_aa() },
        Device { ip: one, mac: mac_bb() },
        Device { ip: ip(1, 1, 1, 2), mac: mac_bb() },
    ];
    let first = detect(&devices);
    let second = detect(&devices);
    assert_eq!(first, second);
}

#[test]
fn scan_with_one_reply_ends_without_conflict() {
    let local = local_identity();
    let mut collector = Collector::new(&local);
    let frame = reply_frame(ip(192, 168, 1, 20), mac_bb(), local.ip, local.mac);
    if let Some(d) = accept(&frame, &local) {
        collector.on_reply(d);
    }
    let devices = collector.finish();
    assert_eq!(
        devices,
        vec![
            Device { ip: ip(192, 168, 1, 10), mac: mac_aa() },
            Device { ip: ip(192, 168, 1, 20), mac: mac_bb() },
        ]
    );
    let (ip_conflicts, mac_conflicts) = detect(&devices);
    assert!(ip_conflicts.is_empty());
    assert!(mac_conflicts.is_empty());
}

#[test]
fn scan_with_duplicate_claims_reports_ip_conflict() {
    let local = local_identity();
    let claimed = ip(192, 168, 1, 20);
    let mut collector = Collector::new(&local);
    for frame in [
        reply_frame(claimed, mac_bb(), local.ip, local.mac),
        reply_frame(claimed, mac_cc(), local.ip, local.mac),
    ] {
        if let Some(d) = accept(&frame, &local) {
            collector.on_reply(d);
        }
    }
    let devices = collector.finish();
    let (ip_conflicts, mac_conflicts) = detect(&devices);
    assert_eq!(
        ip_conflicts,
        vec![
            Device { ip: claimed, mac: mac_bb() },
            Device { ip: claimed, mac: mac_cc() },
        ]
    );
    assert!(mac_conflicts.is_empty());
}

#[test]
fn subnet_masks_host_bits() {
    let subnet = Subnet::new(ip(192, 168, 1, 10), 24);
    assert_eq!(subnet.base, ip(192, 168, 1, 0));
    assert_eq!(subnet.prefix, 24);
    assert_eq!(subnet.size(), 256);
}

#[test]
fn subnet_contains_its_range_only() {
    let subnet = Subnet::new(ip(192, 168, 1, 10), 24);
    assert!(subnet.contains(ip(192, 168, 1, 0)));
    assert!(subnet.contains(ip(192, 168, 1, 255)));
    assert!(!subnet.contains(ip(192, 168, 2, 1)));
    assert!(!subnet.contains(ip(192, 168, 0, 255)));
}

#[test]
fn subnet_edge_prefixes() {
    let host = Subnet::new(ip(10, 0, 0, 7), 32);
    assert_eq!(host.size(), 1);
    assert!(host.contains(ip(10, 0, 0, 7)));
    assert!(!host.contains(ip(10, 0, 0, 8)));
    let pair = Subnet::new(ip(10, 0, 0, 7), 31);
    assert_eq!(pair.size(), 2);
    assert_eq!(pair.addr_at(0), ip(10, 0, 0, 6));
    assert_eq!(pair.addr_at(1), ip(10, 0, 0, 7));
}

#[test]
fn probe_generator_covers_the_subnet_once() {
    let local = LocalIdentity {
        ip: ip(10, 0, 0, 1),
        mac: mac_aa(),
        subnet: Subnet::new(ip(10, 0, 0, 1), 30),
    };
    let mut generator = ProbeGenerator::new(&local);
    let mut targets = Vec::new();
    let mut senders = Vec::new();
    while let Some(frame) = generator.next() {
        let f = decode_frame(&frame).unwrap();
        targets.push(f.target_ip);
        senders.push(f.sender_ip);
    }
    assert_eq!(generator.next(), None);
    assert_eq!(
        targets,
        vec![ip(10, 0, 0, 0), ip(10, 0, 0, 1), ip(10, 0, 0, 2), ip(10, 0, 0, 3)]
    );
    assert_eq!(senders, vec![local.ip, 0, local.ip, local.ip]);
}

#[test]
fn mac_from_octets_orders_bytes() {
    let m = Mac::from_octets(0x01, 0x23, 0x45, 0x67, 0x89, 0xAB);
    assert_eq!(m.bits, 0x0123456789AB);
    assert_eq!(Mac::broadcast().bits, 0xFFFFFFFFFFFF);
    assert_eq!(Mac::zero().bits, 0);
}

#[test]
fn cli_scan_readiness() {
    let listing = Cli { list: true, iface: None, timeout: 300 };
    assert!(listing.scan_ready());
    let scan = Cli { list: false, iface: Some(1), timeout: 300 };
    assert!(scan.scan_ready());
    let incomplete = Cli { list: false, iface: None, timeout: 300 };
    assert!(!incomplete.scan_ready());
}
