//! The exporter's configuration values. Reading them from a file is left
//! to the process around the library; the library holds the values and
//! their defaults.

use vstd::prelude::*;

verus! {

/// The exporter's configuration.
#[derive(Debug, Clone)]
pub struct Config {
    /// The HTTP server settings.
    pub server: ServerConfig,
}

/// Settings of the HTTP server that exposes the metrics.
#[derive(Debug, Clone)]
pub struct ServerConfig {
    /// The TCP port the server listens on.
    pub port: u16,
}

impl Default for Config {
    /// The configuration used when no file provides one.
    fn default() -> (r: Self)
        ensures
            r.server.port == 9091,
    {
        Config { server: ServerConfig { port: 9091 } }
    }
}

} // verus!
