//! Server configuration values. Loading them from the process environment
//! is the embedding program's business; this is the shape and defaults.

use vstd::prelude::*;

verus! {

#[derive(Clone, Debug)]
pub struct ServerConfig {
    pub host: String,
    pub port: u16,
    pub workers: usize,
    /// Keep-alive window, in seconds.
    pub keep_alive: u64,
    /// Client request timeout, in seconds.
    pub client_timeout: u64,
    /// Graceful-shutdown window, in seconds.
    pub shutdown_timeout: u64,
    pub enable_cors: bool,
    pub max_connections: usize,
    pub tls_enabled: bool,
}

impl Default for ServerConfig {
    /// The development defaults: loopback on port 8080, four workers,
    /// CORS on, TLS off.
    fn default() -> (r: ServerConfig)
        ensures
            r.host@ == "127.0.0.1"@,
            r.port == 8080,
            r.workers == 4,
            r.keep_alive == 75,
            r.client_timeout == 30,
            r.shutdown_timeout == 60,
            r.enable_cors,
            r.max_connections == 25000,
            !r.tls_enabled,
    {
        ServerConfig {
            host: String::from_str("127.0.0.1"),
            port: 8080,
            workers: 4,
            keep_alive: 75,
            client_timeout: 30,
            shutdown_timeout: 60,
            enable_cors: true,
            max_connections: 25000,
            tls_enabled: false,
        }
    }
}

} // verus!
