//! What one probe of a node yields, and how a measured response time
//! becomes milliseconds.

use vstd::prelude::*;

verus! {

/// A span of time measured by the caller, split as `std::time::Duration`
/// splits it: whole seconds and the nanoseconds beyond them.
#[derive(Debug, Clone, Copy)]
pub struct Elapsed {
    pub secs: u64,
    pub nanos: u32,
}

/// The length of `e` in nanoseconds.
pub open spec fn elapsed_nanos(e: Elapsed) -> int {
    e.secs * 1_000_000_000 + e.nanos
}

/// The whole milliseconds in `e` (what `Duration::as_millis` gives).
pub open spec fn elapsed_millis(e: Elapsed) -> int {
    e.secs * 1000 + e.nanos / 1_000_000
}

/// What `as u64` makes of the non-negative integer `x`: its low 64 bits.
pub open spec fn low_u64(x: int) -> u64 {
    (x % 0x1_0000_0000_0000_0000) as u64
}

/// Metrics of one probe of one node.
#[derive(Debug, Clone)]
pub struct NodeMetrics {
    /// The node's current slot when it was probed.
    pub slot: u64,
    /// The node's response time in milliseconds.
    pub rtt_ms: u64,
    /// The node's URL.
    pub node_url: String,
}

/// The metrics of the target and the reference node, probed together.
#[derive(Debug, Clone)]
pub struct ProbeResult {
    /// Metrics of the monitored node.
    pub target: NodeMetrics,
    /// Metrics of the node it is compared with.
    pub reference: NodeMetrics,
}

/// The metrics of a node at `url` that answered `slot` after `elapsed`:
/// the response time is the whole milliseconds of `elapsed`, cut to 64 bits
/// as `as_millis() as u64` cuts it.
pub fn node_metrics(url: &str, slot: u64, elapsed: Elapsed) -> (m: NodeMetrics)
    ensures
        m.slot == slot,
        m.rtt_ms == low_u64(elapsed_millis(elapsed)),
        m.node_url@ == url@,
{
    let millis: u128 = elapsed.secs as u128 * 1000 + (elapsed.nanos / 1_000_000) as u128;
    let rtt_ms: u64 = (millis % 0x1_0000_0000_0000_0000u128) as u64;
    NodeMetrics { slot, rtt_ms, node_url: String::from_str(url) }
}

} // verus!
