//! Network discovery engine: range parsing, host and port probing decisions,
//! the scan session state machine and the result cache model.

pub mod actions;
pub mod adapters;
pub mod addr;
pub mod app;
pub mod cache;
pub mod config;
pub mod display;
pub mod dns;
pub mod edit;
pub mod export;
pub mod host;
pub mod input;
pub mod layout;
pub mod mac;
pub mod ping;
pub mod pool;
pub mod port;
pub mod range;
pub mod session;
pub mod sort;
pub mod text;
pub mod theme;
pub mod widgets;
pub mod wol;

pub use adapters::{AdapterInfo, AdapterType};
pub use addr::Ipv4Addr;
pub use app::{App, AppCommand, FilterMode, Focus, ScanEvent};
pub use cache::{format_cache_age, load_cache, save_cache, CacheFile};
pub use config::Config;
pub use dns::DnsResolver;
pub use host::HostInfo;
pub use input::{handle_key, Action, InputMode};
pub use mac::MacInfo;
pub use ping::{HostStatus, PingMethod, PingResult, PingerConfig};
pub use port::{get_service_name, parse_ports, PortResult, PortScannerConfig, COMMON_PORTS};
pub use range::{IpRange, ParseError};
pub use session::{ScanSession, ScanState};
