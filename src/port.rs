use vstd::prelude::*;

verus! {

/// First port the server tries to listen on.
pub const BASE_PORT: u16 = 50027;

/// Last port of the scan; the server is started here when every earlier port is taken.
pub const LAST_PORT: u16 = 50050;

/// What the scan does after one attempt to bind a port.
#[derive(Debug, Clone, Copy, PartialEq, Eq, Structural)]
pub enum ScanStep {
    /// Start the server on this port.
    Start(u16),
    /// Try this port next.
    Probe(u16),
}

/// The step taken after trying `port` (with `bound` telling whether the bind worked),
/// in a scan that ends at `last`.
pub open spec fn scan_step_spec(port: u16, last: u16, bound: bool) -> ScanStep {
    if bound || port >= last {
        ScanStep::Start(port)
    } else {
        ScanStep::Probe((port + 1) as u16)
    }
}

/// Decides the next move of the port scan after an attempt to bind `port`.
pub fn scan_step(port: u16, last: u16, bound: bool) -> (r: ScanStep)
    requires
        port <= last,
    ensures
        r == scan_step_spec(port, last, bound),
{
    if bound || port >= last {
        ScanStep::Start(port)
    } else {
        ScanStep::Probe(port + 1)
    }
}

/// The port a scan that has reached `port` settles on, where `free[i]` tells whether
/// port `base + i` can be bound.
pub open spec fn scan_from(base: u16, last: u16, free: Seq<bool>, port: u16) -> u16
    decreases last - port,
{
    if port < base || port >= last || free[port - base] {
        port
    } else {
        scan_from(base, last, free, (port + 1) as u16)
    }
}

/// The port a whole scan from `base` to `last` settles on.
pub open spec fn scan_outcome(base: u16, last: u16, free: Seq<bool>) -> u16 {
    scan_from(base, last, free, base)
}

/// Each step of `scan_step` keeps the scan on course: a start ends it on the port
/// being tried, and a probe leads to the same outcome as the current port.
pub proof fn lemma_step_follows_scan(base: u16, last: u16, free: Seq<bool>, port: u16)
    requires
        base <= port <= last,
        free.len() == last - base + 1,
    ensures
        scan_step_spec(port, last, free[port - base]) == ScanStep::Start(port)
            ==> scan_from(base, last, free, port) == port,
        scan_step_spec(port, last, free[port - base]) matches ScanStep::Probe(next)
            ==> next == port + 1 && scan_from(base, last, free, port) == scan_from(
            base,
            last,
            free,
            next,
        ),
{
}

/// When the ports `base .. base + k` are all taken and `base + k` is free, or is the
/// last port of the scan, the scan settles on `base + k`: the first free port at or
/// after `base`, or the last port when all are taken.
pub proof fn lemma_scan_picks_first_free(base: u16, last: u16, free: Seq<bool>, k: int)
    requires
        base <= last,
        free.len() == last - base + 1,
        0 <= k <= last - base,
        forall|i: int| 0 <= i < k ==> !free[i],
        free[k] || k == last - base,
    ensures
        scan_outcome(base, last, free) == base + k,
{
    lemma_scan_from_skips(base, last, free, k, 0);
}

proof fn lemma_scan_from_skips(base: u16, last: u16, free: Seq<bool>, k: int, j: int)
    requires
        base <= last,
        free.len() == last - base + 1,
        0 <= j <= k <= last - base,
        forall|i: int| 0 <= i < k ==> !free[i],
        free[k] || k == last - base,
    ensures
        scan_from(base, last, free, (base + j) as u16) == base + k,
    decreases k - j,
{
    if j < k {
        lemma_scan_from_skips(base, last, free, k, j + 1);
        assert(!free[j]);
    }
}

} // verus!
