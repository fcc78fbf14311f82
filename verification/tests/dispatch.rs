use ztunnel::config::Config;
use ztunnel::dispatch::{Failure, Order, OutboundConnection, Report, Step};
use ztunnel::net::{IpAddr, SocketAddr};
use ztunnel::outbound::{Direction, Request, RequestType};
use ztunnel::workload::Protocol;

fn addr(a: u8, b: u8, c: u8, d: u8, port: u16) -> SocketAddr {
    SocketAddr::new(IpAddr::V4(a, b, c, d), port)
}

fn overlay_request() -> Request {
    Request {
        protocol: Protocol::Hbone,
        direction: Direction::Inbound,
        destination: addr(10, 0, 10, 1, 80),
        gateway: addr(10, 0, 0, 8, 15008),
        request_type: RequestType::ToServerWaypoint,
    }
}

fn tcp_request() -> Request {
    Request {
        protocol: Protocol::Tcp,
        direction: Direction::Outbound,
        destination: addr(93, 184, 216, 34, 443),
        gateway: addr(93, 184, 216, 34, 443),
        request_type: RequestType::Passthrough,
    }
}

fn config(tls: bool) -> Config {
    Config::from_environment(if tls { None } else { Some("off".to_string()) }, None)
}

fn drive(flow: &mut OutboundConnection, reports: &[Report]) -> Vec<Order> {
    reports.iter().map(|r| flow.proxy(*r)).collect()
}

#[test]
fn overlay_with_tls() {
    let mut flow = OutboundConnection::new(overlay_request(), &config(true));
    assert_eq!(flow.step, Step::Start);
    let orders = drive(
        &mut flow,
        &[
            Report::Accepted,
            Report::Connected(true),
            Report::Secured(true),
            Report::Handshaken(true),
            Report::Answered(Some(200)),
            Report::Upgraded(true),
            Report::Copied(true),
        ],
    );
    assert_eq!(
        orders,
        vec![
            Order::Dial(addr(10, 0, 0, 8, 15008)),
            Order::Secure,
            Order::Handshake {
                window_size: 4194304,
                connection_window_size: 4194304,
                frame_size: 1048576,
            },
            Order::Connect(addr(10, 0, 10, 1, 80)),
            Order::Upgrade,
            Order::Relay,
            Order::Complete,
        ]
    );
    assert!(flow.is_closed());
    assert_eq!(flow.request, overlay_request());
}

#[test]
fn overlay_without_tls_skips_the_tls_handshake() {
    let mut cfg = config(false);
    cfg.window_size = 1;
    cfg.connection_window_size = 2;
    cfg.frame_size = 3;
    let mut flow = OutboundConnection::new(overlay_request(), &cfg);
    let orders = drive(&mut flow, &[Report::Accepted, Report::Connected(true)]);
    assert_eq!(
        orders[1],
        Order::Handshake { window_size: 1, connection_window_size: 2, frame_size: 3 }
    );
    assert_eq!(flow.step, Step::Handshaking);
}

#[test]
fn plain_tcp_relays_at_once() {
    for tls in [false, true] {
        let mut flow = OutboundConnection::new(tcp_request(), &config(tls));
        let orders = drive(
            &mut flow,
            &[Report::Accepted, Report::Connected(true), Report::Copied(true)],
        );
        assert_eq!(
            orders,
            vec![Order::Dial(addr(93, 184, 216, 34, 443)), Order::Relay, Order::Complete]
        );
        assert!(flow.is_closed());
    }
}

#[test]
fn only_2xx_opens_the_tunnel() {
    let answered = |status: Option<u16>| {
        let mut flow = OutboundConnection::new(overlay_request(), &config(true));
        let orders = drive(
            &mut flow,
            &[
                Report::Accepted,
                Report::Connected(true),
                Report::Secured(true),
                Report::Handshaken(true),
                Report::Answered(status),
            ],
        );
        (orders[4], flow.is_closed())
    };
    for ok in [200, 201, 204, 299] {
        assert_eq!(answered(Some(ok)), (Order::Upgrade, false));
    }
    for bad in [0, 100, 199, 300, 400, 401, 404, 503, u16::MAX] {
        assert_eq!(answered(Some(bad)), (Order::Fail(Failure::Refused(bad)), true));
    }
    assert_eq!(answered(None), (Order::Fail(Failure::Io), true));
}

#[test]
fn each_failure_closes_the_flow() {
    let cases: Vec<(Vec<Report>, Failure)> = vec![
        (vec![Report::Accepted, Report::Connected(false)], Failure::Io),
        (vec![Report::Accepted, Report::Connected(true), Report::Secured(false)], Failure::Tls),
        (
            vec![
                Report::Accepted,
                Report::Connected(true),
                Report::Secured(true),
                Report::Handshaken(false),
            ],
            Failure::HttpHandshake,
        ),
        (
            vec![
                Report::Accepted,
                Report::Connected(true),
                Report::Secured(true),
                Report::Handshaken(true),
                Report::Answered(Some(200)),
                Report::Upgraded(false),
            ],
            Failure::UpgradeFailed,
        ),
        (
            vec![
                Report::Accepted,
                Report::Connected(true),
                Report::Secured(true),
                Report::Handshaken(true),
                Report::Answered(Some(200)),
                Report::Upgraded(true),
                Report::Copied(false),
            ],
            Failure::Io,
        ),
    ];
    for (reports, failure) in cases {
        let mut flow = OutboundConnection::new(overlay_request(), &config(true));
        let orders = drive(&mut flow, &reports);
        assert_eq!(*orders.last().unwrap(), Order::Fail(failure));
        assert!(flow.is_closed());
        // nothing is retried
        for r in [Report::Accepted, Report::Connected(true), Report::Copied(true)] {
            assert_eq!(flow.proxy(r), Order::Ignore);
            assert!(flow.is_closed());
        }
    }
}

#[test]
fn reports_out_of_turn_are_ignored() {
    let mut flow = OutboundConnection::new(overlay_request(), &config(true));
    let before = flow;
    assert_eq!(flow.proxy(Report::Answered(Some(200))), Order::Ignore);
    assert_eq!(flow.proxy(Report::Upgraded(true)), Order::Ignore);
    assert_eq!(flow, before);
    flow.proxy(Report::Accepted);
    assert_eq!(flow.proxy(Report::Accepted), Order::Ignore);
    assert_eq!(flow.step, Step::Connecting);
    // a plain TCP flow never shakes hands
    let mut tcp = OutboundConnection::new(tcp_request(), &config(true));
    drive(&mut tcp, &[Report::Accepted, Report::Connected(true)]);
    for r in [Report::Secured(true), Report::Handshaken(true), Report::Answered(Some(200))] {
        assert_eq!(tcp.proxy(r), Order::Ignore);
        assert_eq!(tcp.step, Step::Relaying);
    }
}
