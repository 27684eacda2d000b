//! The per-scrape traffic snapshot and its assembly from the five
//! independent counter readings.

use crate::device::UpnpDevice;
use crate::error::UpnpError;
use vstd::prelude::*;

verus! {

/// One point-in-time reading of the WAN counters. Each field keeps its
/// default when its query fails; the snapshot as a whole is still returned.
#[derive(Debug, Clone)]
pub struct TrafficStats {
    /// Total bytes sent over the WAN link.
    pub bytes_sent: u64,
    /// Total bytes received over the WAN link.
    pub bytes_received: u64,
    /// Total packets sent over the WAN link.
    pub packets_sent: u64,
    /// Total packets received over the WAN link.
    pub packets_received: u64,
    /// The link status string the device reported, `Disconnected` when the
    /// status query did not succeed.
    pub connection_status: String,
}

impl Default for TrafficStats {
    /// The value every field falls back to: zero counters and a
    /// `Disconnected` status.
    fn default() -> (r: Self)
        ensures
            r.bytes_sent == 0,
            r.bytes_received == 0,
            r.packets_sent == 0,
            r.packets_received == 0,
            r.connection_status@ == "Disconnected"@,
    {
        TrafficStats {
            bytes_sent: 0,
            bytes_received: 0,
            packets_sent: 0,
            packets_received: 0,
            connection_status: "Disconnected".to_owned(),
        }
    }
}

impl TrafficStats {
    /// Whether the snapshot reports the physical link up.
    pub fn is_up(&self) -> (r: bool)
        ensures
            r == (self.connection_status@ == "Up"@),
    {
        let up: String = "Up".to_owned();
        self.connection_status == up
    }
}

/// Merge the five counter readings into one snapshot. Each reading is
/// independent: a value that was read is taken over, a failed reading
/// leaves its field at the default.
pub fn assemble_stats(
    bytes_sent: Option<u64>,
    bytes_received: Option<u64>,
    packets_sent: Option<u64>,
    packets_received: Option<u64>,
    connection_status: Option<String>,
) -> (r: TrafficStats)
    ensures
        r.bytes_sent == (match bytes_sent {
            Some(v) => v,
            None => 0u64,
        }),
        r.bytes_received == (match bytes_received {
            Some(v) => v,
            None => 0u64,
        }),
        r.packets_sent == (match packets_sent {
            Some(v) => v,
            None => 0u64,
        }),
        r.packets_received == (match packets_received {
            Some(v) => v,
            None => 0u64,
        }),
        (match connection_status {
            Some(s) => r.connection_status@ == s@,
            None => r.connection_status@ == "Disconnected"@,
        }),
{
    let mut stats = TrafficStats::default();
    match bytes_sent {
        Some(v) => stats.bytes_sent = v,
        None => {},
    }
    match bytes_received {
        Some(v) => stats.bytes_received = v,
        None => {},
    }
    match packets_sent {
        Some(v) => stats.packets_sent = v,
        None => {},
    }
    match packets_received {
        Some(v) => stats.packets_received = v,
        None => {},
    }
    match connection_status {
        Some(s) => stats.connection_status = s,
        None => {},
    }
    stats
}

/// The control URL the counter queries must be sent to. Counters can only
/// be read once a device has been discovered and its description names a
/// common-interface service; each absence is its own hard failure for the
/// whole snapshot.
pub fn counters_url(device: &Option<UpnpDevice>) -> (r: Result<String, UpnpError>)
    ensures
        (match (device, &r) {
            (None, Err(e)) => *e == UpnpError::NoDevice,
            (Some(d), _) => match (&d.wan_common_service_url, &r) {
                (None, Err(e)) => *e == UpnpError::NoServiceUrl,
                (Some(u), Ok(s)) => s@ == u@,
                _ => false,
            },
            _ => false,
        }),
{
    match device {
        None => Err(UpnpError::NoDevice),
        Some(d) => match &d.wan_common_service_url {
            None => Err(UpnpError::NoServiceUrl),
            Some(u) => Ok(u.clone()),
        },
    }
}

} // verus!
