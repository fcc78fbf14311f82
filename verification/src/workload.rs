//! Snapshots of what discovery says about workloads and the gateways in
//! front of them.

use vstd::prelude::*;
use crate::identity::Identity;
use crate::net::{IpAddr, SocketAddr};

verus! {

/// How a workload wants to be reached.
#[derive(Clone, Copy, Debug, PartialEq, Eq, Structural)]
pub enum Protocol {
    /// Plain TCP.
    Tcp,
    /// The overlay tunnel: HTTP/2 CONNECT over mutual TLS.
    Hbone,
}

/// The protocol of a tunnel that a workload terminates itself.
#[derive(Clone, Copy, Debug, PartialEq, Eq, Structural)]
pub enum GatewayProtocol {
    Hbone,
    /// Proxy protocol, version 2, in front of the plain bytes.
    Proxy,
}

/// A tunnel that a workload terminates itself, and the port it does so on.
#[derive(Clone, Copy, Debug, PartialEq, Eq, Structural)]
pub struct NativeTunnel {
    pub protocol: GatewayProtocol,
    pub port: Option<u16>,
}

/// An IP address on a named network.
#[derive(Clone, Debug)]
pub struct NetworkAddress {
    pub network: String,
    pub address: IpAddr,
}

/// A host name inside a namespace.
#[derive(Clone, Debug)]
pub struct NamespacedHostname {
    pub namespace: String,
    pub hostname: String,
}

/// Where a gateway is: at an address, or behind a service's host name.
#[derive(Clone, Debug)]
pub enum Destination {
    Address(NetworkAddress),
    Hostname(NamespacedHostname),
}

/// How to reach a waypoint or a gateway between networks.
#[derive(Clone, Debug)]
pub struct GatewayAddress {
    pub destination: Destination,
    pub hbone_mtls_port: u16,
    pub hbone_single_tls_port: Option<u16>,
}

impl GatewayAddress {
    /// The socket address on which the gateway serves the overlay: its own
    /// IP where it is given by address, else `hostname_ip`, the IP that
    /// discovery resolved the host name to; and its overlay port.
    pub open spec fn overlay(self, hostname_ip: Option<IpAddr>) -> Option<SocketAddr> {
        match self.destination {
            Destination::Address(a) => Some(
                SocketAddr { ip: a.address, port: self.hbone_mtls_port },
            ),
            Destination::Hostname(_) => match hostname_ip {
                Some(ip) => Some(SocketAddr { ip, port: self.hbone_mtls_port }),
                None => None,
            },
        }
    }

    pub fn overlay_address(&self, hostname_ip: Option<IpAddr>) -> (addr: Option<SocketAddr>)
        ensures
            addr == self.overlay(hostname_ip),
    {
        match &self.destination {
            Destination::Address(a) => Some(
                SocketAddr { ip: a.address, port: self.hbone_mtls_port },
            ),
            Destination::Hostname(_) => match hostname_ip {
                Some(ip) => Some(SocketAddr { ip, port: self.hbone_mtls_port }),
                None => None,
            },
        }
    }
}

/// What discovery says about one workload.
#[derive(Clone, Debug)]
pub struct Workload {
    pub workload_ips: Vec<IpAddr>,
    pub identity: Identity,
    pub name: String,
    pub node: String,
    pub network: String,
    pub protocol: Protocol,
    pub waypoint: Option<GatewayAddress>,
    pub network_gateway: Option<GatewayAddress>,
    pub native_tunnel: Option<NativeTunnel>,
}

} // verus!
