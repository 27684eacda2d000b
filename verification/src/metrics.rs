//! The gauge values the exporter serves, modeled as plain integers owned
//! by whoever composes the process (no process-wide registry). The
//! encoding of these values into an exposition format is left to the
//! caller.

use crate::stats::TrafficStats;
use vstd::prelude::*;

verus! {

/// The six gauges of the exporter. The four counters mirror the snapshot;
/// the two indicator gauges hold 0 or 1.
#[derive(Debug, Clone, Copy, PartialEq, Eq, Structural)]
pub struct MetricsRegistry {
    /// Total bytes sent through the WAN connection.
    pub bytes_sent: u64,
    /// Total bytes received through the WAN connection.
    pub bytes_received: u64,
    /// Total packets sent through the WAN connection.
    pub packets_sent: u64,
    /// Total packets received through the WAN connection.
    pub packets_received: u64,
    /// 1 while the link status reads `Up`, else 0.
    pub connection_status: u64,
    /// 1 when the last scrape failed, else 0.
    pub scrape_error: u64,
}

/// A fresh registry with every gauge at zero.
pub fn init_metrics() -> (r: MetricsRegistry)
    ensures
        r.bytes_sent == 0,
        r.bytes_received == 0,
        r.packets_sent == 0,
        r.packets_received == 0,
        r.connection_status == 0,
        r.scrape_error == 0,
{
    MetricsRegistry {
        bytes_sent: 0,
        bytes_received: 0,
        packets_sent: 0,
        packets_received: 0,
        connection_status: 0,
        scrape_error: 0,
    }
}

impl MetricsRegistry {
    /// Record a failed scrape: the error gauge is raised and the link is
    /// reported down; the counter gauges keep their last values.
    pub fn record_failure(&mut self)
        ensures
            final(self).scrape_error == 1,
            final(self).connection_status == 0,
            final(self).bytes_sent == old(self).bytes_sent,
            final(self).bytes_received == old(self).bytes_received,
            final(self).packets_sent == old(self).packets_sent,
            final(self).packets_received == old(self).packets_received,
    {
        self.scrape_error = 1;
        self.connection_status = 0;
    }

    /// Record a successful scrape: the error gauge is cleared and the
    /// other gauges keep their values.
    pub fn record_success(&mut self)
        ensures
            final(self).scrape_error == 0,
            final(self).connection_status == old(self).connection_status,
            final(self).bytes_sent == old(self).bytes_sent,
            final(self).bytes_received == old(self).bytes_received,
            final(self).packets_sent == old(self).packets_sent,
            final(self).packets_received == old(self).packets_received,
    {
        self.scrape_error = 0;
    }
}

/// The step that turns a fresh snapshot into gauge values.
pub struct MetricsCollector;

impl MetricsCollector {
    /// Copy a snapshot into the gauges. The status gauge reads 1 exactly
    /// when the snapshot reports the link `Up`; the error gauge is not
    /// touched.
    pub fn update_metrics(registry: &mut MetricsRegistry, stats: &TrafficStats)
        ensures
            final(registry).bytes_sent == stats.bytes_sent,
            final(registry).bytes_received == stats.bytes_received,
            final(registry).packets_sent == stats.packets_sent,
            final(registry).packets_received == stats.packets_received,
            final(registry).connection_status == (if stats.connection_status@ == "Up"@ {
                1u64
            } else {
                0u64
            }),
            final(registry).scrape_error == old(registry).scrape_error,
    {
        registry.bytes_sent = stats.bytes_sent;
        registry.bytes_received = stats.bytes_received;
        registry.packets_sent = stats.packets_sent;
        registry.packets_received = stats.packets_received;
        registry.connection_status = if stats.is_up() {
            1
        } else {
            0
        };
    }
}

} // verus!
