//! Routing of intercepted outbound flows.

use vstd::prelude::*;
use crate::config::Config;
use crate::net::{IpAddr, SocketAddr, OVERLAY_PORT};
use crate::workload::Protocol;

verus! {

/// Which side of a waypoint a flow enters on.
#[derive(Clone, Copy, Debug, PartialEq, Eq, Structural)]
pub enum Direction {
    Inbound,
    Outbound,
}

/// The kind of route that a flow takes.
#[derive(Clone, Copy, Debug, PartialEq, Eq, Structural)]
pub enum RequestType {
    /// Through the waypoint of the source.
    ToClientWaypoint,
    /// Through the waypoint of the destination.
    ToServerWaypoint,
    /// Straight to the destination's proxy.
    Direct,
    /// To a workload of this node, through this proxy's own overlay port.
    DirectLocal,
    /// To a destination that discovery does not know, untouched.
    Passthrough,
}

/// The plan for one outbound flow: where to connect (`gateway`), with which
/// protocol, and which destination to name there.
#[derive(Clone, Copy, Debug, PartialEq, Eq, Structural)]
pub struct Request {
    pub protocol: Protocol,
    pub direction: Direction,
    pub destination: SocketAddr,
    pub gateway: SocketAddr,
    pub request_type: RequestType,
}

/// The workload that discovery picked to serve a destination.
#[derive(Clone, Debug)]
pub struct Upstream {
    pub ip: IpAddr,
    pub port: u16,
    /// The node it runs on; empty if unknown.
    pub node: String,
    pub protocol: Protocol,
    /// The overlay address of its waypoint, if it has one.
    pub waypoint: Option<SocketAddr>,
}

/// What discovery says about one outbound flow.
#[derive(Clone, Debug)]
pub struct Discovery {
    /// The overlay address of the source workload's waypoint, if it has one.
    pub source_waypoint: Option<SocketAddr>,
    /// The upstream for the original destination; `None` if discovery does
    /// not know the destination.
    pub upstream: Option<Upstream>,
    /// Whether the original destination is a service's virtual IP rather
    /// than a workload's own.
    pub is_vip: bool,
}

/// Whether `upstream` runs on the node named `local_node`.
pub open spec fn on_local_node(local_node: Option<String>, upstream: Upstream) -> bool {
    upstream.node@.len() > 0 && match local_node {
        Some(node) => node@ == upstream.node@,
        None => false,
    }
}

/// The route of a flow to `target`. The first rule that applies decides:
/// the source's waypoint; the destination's waypoint; a destination on this
/// node that speaks the overlay; a destination unknown to discovery; and
/// otherwise the destination itself.
pub open spec fn plan(local_node: Option<String>, target: SocketAddr, found: Discovery) -> Request {
    if let Some(waypoint) = found.source_waypoint {
        Request {
            protocol: Protocol::Hbone,
            direction: Direction::Outbound,
            destination: target,
            gateway: waypoint,
            request_type: RequestType::ToClientWaypoint,
        }
    } else if let Some(upstream) = found.upstream {
        let workload = SocketAddr { ip: upstream.ip, port: upstream.port };
        if let Some(waypoint) = upstream.waypoint {
            Request {
                protocol: Protocol::Hbone,
                direction: Direction::Inbound,
                destination: if found.is_vip {
                    target
                } else {
                    workload
                },
                gateway: waypoint,
                request_type: RequestType::ToServerWaypoint,
            }
        } else if on_local_node(local_node, upstream) && upstream.protocol == Protocol::Hbone {
            Request {
                protocol: Protocol::Hbone,
                direction: Direction::Outbound,
                destination: workload,
                gateway: SocketAddr { ip: IpAddr::V4(127, 0, 0, 1), port: OVERLAY_PORT },
                request_type: RequestType::DirectLocal,
            }
        } else {
            Request {
                protocol: upstream.protocol,
                direction: Direction::Outbound,
                destination: workload,
                gateway: if upstream.protocol == Protocol::Hbone {
                    SocketAddr { ip: upstream.ip, port: OVERLAY_PORT }
                } else {
                    target
                },
                request_type: RequestType::Direct,
            }
        }
    } else {
        Request {
            protocol: Protocol::Tcp,
            direction: Direction::Outbound,
            destination: target,
            gateway: target,
            request_type: RequestType::Passthrough,
        }
    }
}

/// The outbound side of the proxy: it plans the route of each intercepted
/// flow.
pub struct Outbound {
    cfg: Config,
}

impl Outbound {
    pub closed spec fn config(&self) -> Config {
        self.cfg
    }

    pub fn new(cfg: Config) -> (outbound: Outbound)
        ensures
            outbound.config() == cfg,
    {
        Outbound { cfg }
    }

    pub fn cfg(&self) -> (cfg: &Config)
        ensures
            *cfg == self.config(),
    {
        &self.cfg
    }

    /// Plans the flow that a local workload opened to `target`.
    pub fn build_request(&self, target: SocketAddr, found: &Discovery) -> (req: Request)
        ensures
            req == plan(self.config().local_node, target, *found),
    {
        if let Some(waypoint) = found.source_waypoint {
            return Request {
                protocol: Protocol::Hbone,
                direction: Direction::Outbound,
                destination: target,
                gateway: waypoint,
                request_type: RequestType::ToClientWaypoint,
            };
        }
        match &found.upstream {
            Some(upstream) => {
                let workload = SocketAddr { ip: upstream.ip, port: upstream.port };
                if let Some(waypoint) = upstream.waypoint {
                    Request {
                        protocol: Protocol::Hbone,
                        direction: Direction::Inbound,
                        destination: if found.is_vip {
                            target
                        } else {
                            workload
                        },
                        gateway: waypoint,
                        request_type: RequestType::ToServerWaypoint,
                    }
                } else if upstream.protocol == Protocol::Hbone && self.is_local(upstream) {
                    Request {
                        protocol: Protocol::Hbone,
                        direction: Direction::Outbound,
                        destination: workload,
                        gateway: SocketAddr { ip: IpAddr::V4(127, 0, 0, 1), port: OVERLAY_PORT },
                        request_type: RequestType::DirectLocal,
                    }
                } else {
                    let gateway = match upstream.protocol {
                        Protocol::Hbone => SocketAddr { ip: upstream.ip, port: OVERLAY_PORT },
                        Protocol::Tcp => target,
                    };
                    Request {
                        protocol: upstream.protocol,
                        direction: Direction::Outbound,
                        destination: workload,
                        gateway,
                        request_type: RequestType::Direct,
                    }
                }
            },
            None => Request {
                protocol: Protocol::Tcp,
                direction: Direction::Outbound,
                destination: target,
                gateway: target,
                request_type: RequestType::Passthrough,
            },
        }
    }

    fn is_local(&self, upstream: &Upstream) -> (local: bool)
        ensures
            local == on_local_node(self.config().local_node, *upstream),
    {
        if upstream.node.as_str().is_empty() {
            return false;
        }
        match &self.cfg.local_node {
            Some(node) => *node == upstream.node,
            None => false,
        }
    }
}

/// A route over the overlay never is a passthrough, and a flow to a workload
/// of this node always enters through the loopback overlay port.
pub proof fn lemma_plan_shape(local_node: Option<String>, target: SocketAddr, found: Discovery)
    ensures
        plan(local_node, target, found).request_type == RequestType::Passthrough ==> plan(
            local_node,
            target,
            found,
        ).protocol == Protocol::Tcp,
        plan(local_node, target, found).request_type == RequestType::DirectLocal ==> plan(
            local_node,
            target,
            found,
        ).gateway.ip.loopback() && plan(local_node, target, found).gateway.port == OVERLAY_PORT,
        plan(local_node, target, found).request_type != RequestType::Direct ==> (plan(
            local_node,
            target,
            found,
        ).protocol == Protocol::Tcp <==> plan(local_node, target, found).request_type
            == RequestType::Passthrough),
{
}

/// Where no known upstream without a waypoint on either side advertises
/// plain TCP, only a passthrough uses plain TCP.
pub proof fn lemma_tcp_is_passthrough(
    local_node: Option<String>,
    target: SocketAddr,
    found: Discovery,
)
    requires
        !(found.source_waypoint.is_none() && found.upstream.is_some()
            && found.upstream.unwrap().waypoint.is_none() && found.upstream.unwrap().protocol
            == Protocol::Tcp),
    ensures
        plan(local_node, target, found).protocol == Protocol::Tcp ==> plan(
            local_node,
            target,
            found,
        ).request_type == RequestType::Passthrough,
{
}

/// The waypoint of the source decides before anything that is known of the
/// destination.
pub proof fn lemma_source_waypoint_first(
    local_node: Option<String>,
    target: SocketAddr,
    found: Discovery,
    other: Discovery,
)
    requires
        found.source_waypoint.is_some(),
        other.source_waypoint == found.source_waypoint,
    ensures
        plan(local_node, target, found) == plan(local_node, target, other),
        plan(local_node, target, found).request_type == RequestType::ToClientWaypoint,
        plan(local_node, target, found).destination == target,
{
}

} // verus!
