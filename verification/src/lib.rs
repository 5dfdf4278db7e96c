//! Network control core: typed registries for devices, connections, routes,
//! VPN tunnels and WiFi scan results, the state they move through, and the
//! decisions taken when the outside world reports a change.
//!
//! Everything here is plain data in, plain data out. Commands, sockets and
//! timers belong to the caller, which feeds their results back in.

pub mod text;
pub mod error;
pub mod registry;
pub mod validation;
pub mod types;
pub mod interface;
pub mod device;
pub mod events;
pub mod settings;
pub mod network_control;
pub mod wifi;
pub mod vpn;
pub mod connection;
pub mod routing;
pub mod dns;
pub mod integration;
pub mod tor_server;
pub mod tor;
pub mod dhcp;
