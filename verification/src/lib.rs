//! A verified UPnP client core for reading WAN traffic counters from an
//! Internet Gateway Device.
//!
//! The library covers the protocol logic: extracting the device-description
//! URL from an SSDP response, walking a device-description document for the
//! WAN service control URLs, pulling scalar counters out of SOAP response
//! bodies, and assembling the per-scrape traffic snapshot and gauge values.
//! XML tokenization is delegated to the `xml` crate; everything consuming the
//! token stream is specified and verified here. The sockets and HTTP calls
//! that feed these functions live outside the library.

pub mod config;
pub mod device;
pub mod error;
pub mod metrics;
pub mod soap;
pub mod ssdp;
pub mod stats;
pub mod text;
pub mod xmlscan;

pub use config::{Config, ServerConfig};
pub use device::UpnpDevice;
pub use error::UpnpError;
pub use metrics::{init_metrics, MetricsCollector, MetricsRegistry};
pub use stats::TrafficStats;
