//! The proxy's settings.

use vstd::prelude::*;
use crate::connection::Connection;
use crate::identity::Identity;
use crate::net::{IpAddr, SocketAddr, INBOUND_PLAINTEXT_PORT, OUTBOUND_PORT, OVERLAY_PORT};

verus! {

/// The initial HTTP/2 window of a stream and of a connection: 4 MiB.
pub const DEFAULT_WINDOW_SIZE: u32 = 4194304;

/// The largest HTTP/2 frame: 1 MiB.
pub const DEFAULT_FRAME_SIZE: u32 = 1048576;

/// The settings that the proxy reads.
#[derive(Clone, Debug)]
pub struct Config {
    /// Whether outbound overlay connections use TLS.
    pub tls: bool,
    pub window_size: u32,
    pub connection_window_size: u32,
    pub frame_size: u32,
    pub inbound_addr: SocketAddr,
    pub inbound_plaintext_addr: SocketAddr,
    pub outbound_addr: SocketAddr,
    /// The name of the node this proxy runs on.
    pub local_node: Option<String>,
    /// The network this proxy is on.
    pub network: String,
    /// Whether transparent mode was granted when the listener was bound;
    /// `None` until a listener is bound.
    pub enable_original_source: Option<bool>,
}

/// The node name that a setting gives: none where it is unset or empty.
pub open spec fn node_name_of(setting: Option<String>) -> Option<String> {
    match setting {
        Some(name) => if name@.len() == 0 {
            None
        } else {
            Some(name)
        },
        None => None,
    }
}

/// TLS is on unless the setting is exactly `off`.
pub open spec fn tls_enabled(setting: Option<String>) -> bool {
    match setting {
        Some(value) => value@ != "off"@,
        None => true,
    }
}

impl Config {
    /// The default settings, under the two settings that come from the
    /// environment: `tls`, which switches TLS off when it is `off`, and
    /// `node_name`, the name of the local node.
    pub fn from_environment(tls: Option<String>, node_name: Option<String>) -> (cfg: Config)
        ensures
            cfg.tls == tls_enabled(tls),
            cfg.local_node == node_name_of(node_name),
            cfg.window_size == DEFAULT_WINDOW_SIZE,
            cfg.connection_window_size == DEFAULT_WINDOW_SIZE,
            cfg.frame_size == DEFAULT_FRAME_SIZE,
            cfg.inbound_addr == (SocketAddr { ip: IpAddr::V6(0), port: OVERLAY_PORT }),
            cfg.inbound_plaintext_addr == (SocketAddr {
                ip: IpAddr::V6(0),
                port: INBOUND_PLAINTEXT_PORT,
            }),
            cfg.outbound_addr == (SocketAddr { ip: IpAddr::V6(0), port: OUTBOUND_PORT }),
            cfg.network@ == Seq::<char>::empty(),
            cfg.enable_original_source.is_none(),
    {
        let tls_on = match &tls {
            Some(value) => {
                let off = "off".to_owned();
                !(*value == off)
            },
            None => true,
        };
        let local_node = match node_name {
            Some(name) => if name.as_str().is_empty() {
                None
            } else {
                Some(name)
            },
            None => None,
        };
        Config {
            tls: tls_on,
            window_size: DEFAULT_WINDOW_SIZE,
            connection_window_size: DEFAULT_WINDOW_SIZE,
            frame_size: DEFAULT_FRAME_SIZE,
            inbound_addr: SocketAddr { ip: IpAddr::V6(0), port: OVERLAY_PORT },
            inbound_plaintext_addr: SocketAddr { ip: IpAddr::V6(0), port: INBOUND_PLAINTEXT_PORT },
            outbound_addr: SocketAddr { ip: IpAddr::V6(0), port: OUTBOUND_PORT },
            local_node,
            network: String::new(),
            enable_original_source: None,
        }
    }

    /// Records whether transparent mode was granted at bind time; original
    /// sources may be spoofed only if it was.
    pub fn set_transparent(&mut self, granted: bool)
        ensures
            final(self).enable_original_source == Some(granted),
            final(self).tls == old(self).tls,
            final(self).window_size == old(self).window_size,
            final(self).connection_window_size == old(self).connection_window_size,
            final(self).frame_size == old(self).frame_size,
            final(self).inbound_addr == old(self).inbound_addr,
            final(self).inbound_plaintext_addr == old(self).inbound_plaintext_addr,
            final(self).outbound_addr == old(self).outbound_addr,
            final(self).local_node == old(self).local_node,
            final(self).network == old(self).network,
    {
        self.enable_original_source = Some(granted);
    }

    /// The connection of a tunnel that `peer`, presenting `src_identity`,
    /// opened to `dst`. Its destination is on this proxy's own network, the
    /// only one whose certificates the proxy can present; its source is the
    /// peer's address in canonical form.
    pub fn inbound_connection(
        &self,
        src_identity: Option<Identity>,
        peer: SocketAddr,
        dst: SocketAddr,
    ) -> (conn: Connection)
        ensures
            conn == (Connection {
                src_identity,
                src: SocketAddr { ip: peer.ip.canonical(), port: peer.port },
                dst_network: self.network,
                dst,
            }),
    {
        Connection {
            src_identity,
            src: SocketAddr { ip: peer.ip.to_canonical(), port: peer.port },
            dst_network: self.network.clone(),
            dst,
        }
    }

    /// Whether connections to workloads may carry the original source
    /// address: only if transparent mode was granted.
    pub fn original_source_enabled(&self) -> (enabled: bool)
        ensures
            enabled == (self.enable_original_source == Some(true)),
    {
        match self.enable_original_source {
            Some(granted) => granted,
            None => false,
        }
    }
}

} // verus!
