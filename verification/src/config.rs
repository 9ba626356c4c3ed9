//! The settings of the engine.

use crate::ping::PingerConfig;
use crate::port::PortScannerConfig;
use vstd::prelude::*;

verus! {

/// The settings of the engine.
#[derive(Debug, Clone)]
pub struct Config {
    /// The range that is offered where the user names none.
    pub default_range: String,
    pub ping: PingerConfig,
    pub port_scan: PortScannerConfig,
    /// Whether the ports of each host found are scanned at once.
    pub scan_ports_by_default: bool,
    /// Whether the names of hosts that are alive are looked up.
    pub resolve_hostnames: bool,
    /// Whether the hardware addresses of hosts that are alive are looked up.
    pub detect_mac: bool,
}

impl Default for Config {
    /// The settings where the user gives none: the range `192.168.1.0/24`; probes
    /// of a second each, repeated once, a hundred at a time; connection attempts
    /// of half a second each, fifty at a time; names and hardware addresses looked up.
    fn default() -> (r: Config)
        ensures
            r.default_range@ == "192.168.1.0/24"@,
            r.ping == (PingerConfig { timeout_ms: 1000, retries: 1, concurrent_limit: 100 }),
            r.port_scan == (PortScannerConfig { timeout_ms: 500, concurrent_limit: 50 }),
            !r.scan_ports_by_default,
            r.resolve_hostnames,
            r.detect_mac,
    {
        Config {
            default_range: String::from_str("192.168.1.0/24"),
            ping: PingerConfig { timeout_ms: 1000, retries: 1, concurrent_limit: 100 },
            port_scan: PortScannerConfig { timeout_ms: 500, concurrent_limit: 50 },
            scan_ports_by_default: false,
            resolve_hostnames: true,
            detect_mac: true,
        }
    }
}

impl Config {
    /// A copy of the settings.
    pub fn duplicate(&self) -> (r: Config)
        ensures
            r == *self,
    {
        Config {
            default_range: self.default_range.clone(),
            ping: self.ping,
            port_scan: self.port_scan,
            scan_ports_by_default: self.scan_ports_by_default,
            resolve_hostnames: self.resolve_hostnames,
            detect_mac: self.detect_mac,
        }
    }
}

} // verus!
