//! The scan's configuration, as plain values. The surrounding program
//! parses the command line into this shape and drives the scan with it.

use vstd::prelude::*;

verus! {

/// What one invocation asks for: listing the interfaces, or scanning the
/// subnet of the interface at `iface` with the given per-wait timeout in
/// milliseconds.
#[derive(Clone, Copy, PartialEq, Eq, Structural, Debug)]
pub struct Cli {
    /// List all interfaces and index.
    pub list: bool,
    /// Select interface index.
    pub iface: Option<usize>,
    /// Stop if no ARP reply beyond this time (ms).
    pub timeout: u64,
}

impl Cli {
    /// A scan is requested when list mode is not; it needs an interface
    /// index.
    pub open spec fn spec_scan_ready(self) -> bool {
        self.list || self.iface is Some
    }

    /// Whether the invocation is complete: list mode, or an interface
    /// index given.
    pub fn scan_ready(&self) -> (r: bool)
        ensures
            r == self.spec_scan_ready(),
    {
        self.list || self.iface.is_some()
    }
}

} // verus!
