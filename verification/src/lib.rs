//! Verified core of a local-network ARP scanner.
//!
//! The library builds ARP probe frames for every address of an IPv4 subnet,
//! filters raw inbound frames down to the replies that are relevant to the
//! scan, collects the answering hosts into a device list, and reports
//! address conflicts (one IP claimed by several hardware addresses, or one
//! hardware address claiming several IPs).

pub mod cli;
pub mod codec;
pub mod collect;
pub mod conflict;
pub mod filter;
pub mod net;
pub mod probe;
