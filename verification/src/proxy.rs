//! Proxies and tunnels.

pub mod awg_obfuscator;
pub mod awg_tunnel;
pub mod http_tunnel;
pub mod redirector;
pub mod rewrite;
pub mod socks5_client;
pub mod surfeasy;
pub mod types;
pub mod wire_tunnel;
pub mod zero_config;
