//! The decision core of a service-mesh node proxy: which inbound tunnels are
//! admitted, how outbound flows are routed, and which connections are
//! currently tracked. Sockets, TLS and HTTP/2 live outside this crate; every
//! function here maps plain values to plain values and carries a proved
//! contract.

pub mod net;
pub mod identity;
pub mod connection;
pub mod connection_manager;
pub mod workload;
pub mod config;
pub mod outbound;
pub mod dispatch;
pub mod inbound;
pub mod lifecycle;
pub mod serving;
pub mod relay;
