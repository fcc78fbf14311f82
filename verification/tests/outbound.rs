use ztunnel::config::Config;
use ztunnel::net::{IpAddr, SocketAddr};
use ztunnel::outbound::{Direction, Discovery, Outbound, Request, RequestType, Upstream};
use ztunnel::workload::Protocol;

fn outbound(node: Option<&str>) -> Outbound {
    Outbound::new(Config::from_environment(None, node.map(|n| n.to_string())))
}

fn upstream(ip: IpAddr, port: u16, node: &str, protocol: Protocol) -> Upstream {
    Upstream { ip, port, node: node.to_string(), protocol, waypoint: None }
}

fn addr(a: u8, b: u8, c: u8, d: u8, port: u16) -> SocketAddr {
    SocketAddr::new(IpAddr::V4(a, b, c, d), port)
}

#[test]
fn to_server_waypoint_keeps_the_vip() {
    let target = addr(10, 0, 10, 1, 80);
    let mut up = upstream(IpAddr::V4(10, 0, 0, 3), 8080, "remote", Protocol::Hbone);
    up.waypoint = Some(addr(10, 0, 0, 8, 15008));
    let found = Discovery { source_waypoint: None, upstream: Some(up), is_vip: true };
    let req = outbound(Some("local")).build_request(target, &found);
    assert_eq!(
        req,
        Request {
            protocol: Protocol::Hbone,
            direction: Direction::Inbound,
            destination: addr(10, 0, 10, 1, 80),
            gateway: addr(10, 0, 0, 8, 15008),
            request_type: RequestType::ToServerWaypoint,
        }
    );
}

#[test]
fn to_server_waypoint_names_the_workload_of_a_pod_ip() {
    let target = addr(10, 0, 0, 3, 80);
    let mut up = upstream(IpAddr::V4(10, 0, 0, 3), 8080, "remote", Protocol::Tcp);
    up.waypoint = Some(addr(10, 0, 0, 8, 15008));
    let found = Discovery { source_waypoint: None, upstream: Some(up), is_vip: false };
    let req = outbound(None).build_request(target, &found);
    assert_eq!(req.request_type, RequestType::ToServerWaypoint);
    assert_eq!(req.protocol, Protocol::Hbone);
    assert_eq!(req.destination, addr(10, 0, 0, 3, 8080));
    assert_eq!(req.gateway, addr(10, 0, 0, 8, 15008));
}

#[test]
fn direct_local_goes_through_loopback() {
    let target = addr(10, 0, 0, 2, 9000);
    let up = upstream(IpAddr::V4(10, 0, 0, 2), 9000, "node-a", Protocol::Hbone);
    let found = Discovery { source_waypoint: None, upstream: Some(up), is_vip: false };
    let req = outbound(Some("node-a")).build_request(target, &found);
    assert_eq!(
        req,
        Request {
            protocol: Protocol::Hbone,
            direction: Direction::Outbound,
            destination: addr(10, 0, 0, 2, 9000),
            gateway: addr(127, 0, 0, 1, 15008),
            request_type: RequestType::DirectLocal,
        }
    );
    assert!(req.gateway.ip.is_loopback());
}

#[test]
fn same_node_over_tcp_is_direct() {
    let target = addr(10, 0, 0, 2, 9000);
    let up = upstream(IpAddr::V4(10, 0, 0, 2), 9000, "node-a", Protocol::Tcp);
    let found = Discovery { source_waypoint: None, upstream: Some(up), is_vip: false };
    let req = outbound(Some("node-a")).build_request(target, &found);
    assert_eq!(req.request_type, RequestType::Direct);
    assert_eq!(req.protocol, Protocol::Tcp);
    assert_eq!(req.gateway, target);
    assert_eq!(req.destination, addr(10, 0, 0, 2, 9000));
}

#[test]
fn unnamed_node_is_never_local() {
    let target = addr(10, 0, 0, 2, 9000);
    let up = upstream(IpAddr::V4(10, 0, 0, 2), 9000, "", Protocol::Hbone);
    let found = Discovery { source_waypoint: None, upstream: Some(up), is_vip: false };
    let mut cfg = Config::from_environment(None, None);
    cfg.local_node = Some(String::new());
    let req = Outbound::new(cfg).build_request(target, &found);
    assert_eq!(req.request_type, RequestType::Direct);
    assert_eq!(req.gateway, addr(10, 0, 0, 2, 15008));
}

#[test]
fn direct_over_the_overlay() {
    let target = addr(10, 0, 10, 1, 80);
    let up = upstream(IpAddr::V4(10, 0, 0, 3), 8080, "node-b", Protocol::Hbone);
    let found = Discovery { source_waypoint: None, upstream: Some(up), is_vip: true };
    let req = outbound(Some("node-a")).build_request(target, &found);
    assert_eq!(
        req,
        Request {
            protocol: Protocol::Hbone,
            direction: Direction::Outbound,
            destination: addr(10, 0, 0, 3, 8080),
            gateway: addr(10, 0, 0, 3, 15008),
            request_type: RequestType::Direct,
        }
    );
}

#[test]
fn unknown_upstream_passes_through() {
    let target = addr(93, 184, 216, 34, 443);
    let found = Discovery { source_waypoint: None, upstream: None, is_vip: false };
    let req = outbound(Some("node-a")).build_request(target, &found);
    assert_eq!(
        req,
        Request {
            protocol: Protocol::Tcp,
            direction: Direction::Outbound,
            destination: target,
            gateway: target,
            request_type: RequestType::Passthrough,
        }
    );
}

#[test]
fn source_waypoint_takes_precedence() {
    let target = addr(10, 0, 10, 1, 80);
    let mut up = upstream(IpAddr::V4(10, 0, 0, 3), 8080, "node-a", Protocol::Hbone);
    up.waypoint = Some(addr(10, 0, 0, 8, 15008));
    let found = Discovery {
        source_waypoint: Some(addr(10, 0, 0, 7, 15008)),
        upstream: Some(up),
        is_vip: true,
    };
    let req = outbound(Some("node-a")).build_request(target, &found);
    assert_eq!(
        req,
        Request {
            protocol: Protocol::Hbone,
            direction: Direction::Outbound,
            destination: target,
            gateway: addr(10, 0, 0, 7, 15008),
            request_type: RequestType::ToClientWaypoint,
        }
    );
    // also where discovery does not know the destination
    let found = Discovery {
        source_waypoint: Some(addr(10, 0, 0, 7, 15008)),
        upstream: None,
        is_vip: false,
    };
    let req = outbound(None).build_request(target, &found);
    assert_eq!(req.request_type, RequestType::ToClientWaypoint);
    assert_eq!(req.protocol, Protocol::Hbone);
}

#[test]
fn outbound_keeps_its_config() {
    let o = outbound(Some("node-a"));
    assert_eq!(o.cfg().local_node.as_deref(), Some("node-a"));
    assert_eq!(o.cfg().outbound_addr, SocketAddr::new(IpAddr::V6(0), 15001));
}

#[test]
fn shape_of_every_plan() {
    let target = addr(10, 0, 10, 1, 80);
    let waypoints = [None, Some(addr(10, 0, 0, 8, 15008))];
    for source_waypoint in waypoints {
        for known in [false, true] {
            for upstream_waypoint in waypoints {
                for protocol in [Protocol::Tcp, Protocol::Hbone] {
                    for node in ["", "node-a", "node-b"] {
                        for is_vip in [false, true] {
                            let up = Upstream {
                                ip: IpAddr::V4(10, 0, 0, 3),
                                port: 8080,
                                node: node.to_string(),
                                protocol,
                                waypoint: upstream_waypoint,
                            };
                            let found = Discovery {
                                source_waypoint,
                                upstream: if known { Some(up) } else { None },
                                is_vip,
                            };
                            let req = outbound(Some("node-a")).build_request(target, &found);
                            if req.request_type == RequestType::DirectLocal {
                                assert!(req.gateway.ip.is_loopback());
                                assert_eq!(req.gateway.port, 15008);
                                assert_eq!(node, "node-a");
                            }
                            if req.request_type == RequestType::Passthrough {
                                assert_eq!(req.protocol, Protocol::Tcp);
                                assert!(!known);
                            }
                            if req.protocol == Protocol::Tcp {
                                // plain TCP is a passthrough, or goes straight to a
                                // known workload that speaks nothing else
                                assert!(
                                    req.request_type == RequestType::Passthrough
                                        || (req.request_type == RequestType::Direct
                                            && known
                                            && protocol == Protocol::Tcp)
                                );
                                assert_eq!(req.gateway, target);
                            }
                            if source_waypoint.is_some() {
                                assert_eq!(req.request_type, RequestType::ToClientWaypoint);
                            } else if known && upstream_waypoint.is_some() {
                                assert_eq!(req.request_type, RequestType::ToServerWaypoint);
                            }
                        }
                    }
                }
            }
        }
    }
}
