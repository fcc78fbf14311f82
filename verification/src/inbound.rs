//! Admission of inbound overlay tunnels.
//!
//! A tunnel is served by an [`InboundFlow`]: a state machine that is told
//! what happened (an [`Event`]) and answers with what to do next (an
//! [`Action`]). Whoever owns the sockets performs the actions; the machine
//! decides.

use vstd::prelude::*;
use crate::connection::Connection;
use crate::identity::{identity_view, same_identity, Identity, IdentityView};
use crate::lifecycle::lemma_step_keeps_destination;
use crate::net::{IpAddr, SocketAddr};
use crate::workload::{GatewayProtocol, NativeTunnel, Workload};

verus! {

/// The answer to a CONNECT.
#[derive(Clone, Copy, Debug, PartialEq, Eq, Structural)]
pub enum Status {
    /// The tunnel is open.
    Success,
    /// The authority is malformed, or names another IP than the one the
    /// tunnel arrived at without a waypoint relation between the two.
    BadRequest,
    /// Policy denies the flow, or the flow went around a waypoint.
    Unauthorized,
    /// The destination is unknown, or the method is not CONNECT.
    NotFound,
    /// The workload could not be reached.
    ServiceUnavailable,
}

impl Status {
    pub open spec fn number(self) -> u16 {
        match self {
            Status::Success => 200,
            Status::BadRequest => 400,
            Status::Unauthorized => 401,
            Status::NotFound => 404,
            Status::ServiceUnavailable => 503,
        }
    }

    /// The HTTP status code.
    pub fn code(self) -> (n: u16)
        ensures
            n == self.number(),
    {
        match self {
            Status::Success => 200,
            Status::BadRequest => 400,
            Status::Unauthorized => 401,
            Status::NotFound => 404,
            Status::ServiceUnavailable => 503,
        }
    }
}

/// Why a tunnel is refused.
#[derive(Clone, Copy, Debug, PartialEq, Eq, Structural)]
pub enum Rejection {
    /// The method is not CONNECT.
    MethodNotConnect,
    /// The authority is not `host:port`.
    MalformedAuthority,
    /// The authority names another IP than the one the tunnel arrived at,
    /// and that one is no waypoint for it.
    IpMismatch,
    /// Discovery knows no workload at the destination.
    DestinationUnknown,
    /// Policy denies the connection.
    PolicyDenied,
    /// The destination declares a waypoint, and the flow went around it.
    WaypointBypassed,
    /// The workload could not be reached.
    UpstreamUnreachable,
}

impl Rejection {
    /// The status that answers a refused tunnel.
    pub open spec fn answer(self) -> Status {
        match self {
            Rejection::MethodNotConnect => Status::NotFound,
            Rejection::MalformedAuthority => Status::BadRequest,
            Rejection::IpMismatch => Status::BadRequest,
            Rejection::DestinationUnknown => Status::NotFound,
            Rejection::PolicyDenied => Status::Unauthorized,
            Rejection::WaypointBypassed => Status::Unauthorized,
            Rejection::UpstreamUnreachable => Status::ServiceUnavailable,
        }
    }

    pub fn status(self) -> (status: Status)
        ensures
            status == self.answer(),
    {
        match self {
            Rejection::MethodNotConnect => Status::NotFound,
            Rejection::MalformedAuthority => Status::BadRequest,
            Rejection::IpMismatch => Status::BadRequest,
            Rejection::DestinationUnknown => Status::NotFound,
            Rejection::PolicyDenied => Status::Unauthorized,
            Rejection::WaypointBypassed => Status::Unauthorized,
            Rejection::UpstreamUnreachable => Status::ServiceUnavailable,
        }
    }
}

/// What the machine reads of a request on the overlay.
#[derive(Clone, Debug)]
pub struct ConnectRequest {
    pub method: String,
    /// The authority as `host:port`; `None` where it is not of that form.
    pub authority: Option<SocketAddr>,
    /// The `for=` address of the `Forwarded` header, if there is one.
    pub forwarded_for: Option<IpAddr>,
}

/// What discovery says is behind a gateway address.
#[derive(Clone, Debug)]
pub enum GatewayResolution {
    /// Nothing is known at that address.
    Unknown,
    /// One workload, with this identity.
    Workload(Identity),
    /// A service; for each of its endpoints the identity of the endpoint's
    /// workload, or `None` where that workload is unknown.
    Service(Vec<Option<Identity>>),
}

/// Whether a peer that presents `peer` comes from the gateway that resolves
/// to `resolved`. `None` stands for a workload that declares no gateway.
/// A workload must have the peer's identity; of a service, the workload of
/// one endpoint must. A peer without identity comes from no gateway.
pub open spec fn from_gateway(
    peer: Option<IdentityView>,
    resolved: Option<GatewayResolution>,
) -> bool {
    match resolved {
        None => false,
        Some(GatewayResolution::Unknown) => false,
        Some(GatewayResolution::Workload(id)) => peer == Some(id@),
        Some(GatewayResolution::Service(endpoints)) => peer.is_some() && exists|i: int|
            0 <= i < endpoints@.len() && identity_view(#[trigger] endpoints@[i]) == peer,
    }
}

/// Decides whether the peer is the gateway behind `resolved`.
pub fn check_gateway_address(peer: &Option<Identity>, resolved: &Option<GatewayResolution>) -> (from: bool)
    ensures
        from == from_gateway(identity_view(*peer), *resolved),
{
    match resolved {
        None => false,
        Some(GatewayResolution::Unknown) => false,
        Some(GatewayResolution::Workload(id)) => match peer {
            Some(p) => p.same(id),
            None => false,
        },
        Some(GatewayResolution::Service(endpoints)) => {
            if peer.is_none() {
                return false;
            }
            let mut i: usize = 0;
            while i < endpoints.len()
                invariant
                    i <= endpoints@.len(),
                    *resolved == Some(GatewayResolution::Service(*endpoints)),
                    peer.is_some(),
                    forall|j: int|
                        0 <= j < i ==> identity_view(#[trigger] endpoints@[j]) != identity_view(
                            *peer,
                        ),
                decreases endpoints@.len() - i,
            {
                if same_identity(&endpoints[i], peer) {
                    assert(identity_view(endpoints@[i as int]) == identity_view(*peer));
                    return true;
                }
                i += 1;
            }
            false
        },
    }
}

/// Where an admitted tunnel leads, and whether it is addressed to a waypoint
/// on behalf of another workload.
#[derive(Clone, Copy, Debug, PartialEq, Eq, Structural)]
pub struct Routing {
    pub sandwich: bool,
    pub dst: SocketAddr,
}

/// The routing of a CONNECT for `authority` that arrived at `tcp_dst`.
/// Where both name one IP, the authority is the destination. Otherwise the
/// tunnel is admissible only if discovery confirms (`relation`) that the IP
/// it arrived at is a waypoint for the authority's IP; it then leads to that
/// waypoint, on the authority's port.
pub open spec fn route(tcp_dst: SocketAddr, authority: SocketAddr, relation: bool) -> Option<
    Routing,
> {
    if authority.ip == tcp_dst.ip {
        Some(Routing { sandwich: false, dst: authority })
    } else if relation {
        Some(Routing { sandwich: true, dst: SocketAddr { ip: tcp_dst.ip, port: authority.port } })
    } else {
        None
    }
}

pub fn check_sandwich(tcp_dst: SocketAddr, authority: SocketAddr, relation: bool) -> (r: Option<
    Routing,
>)
    ensures
        r == route(tcp_dst, authority, relation),
{
    if authority.ip == tcp_dst.ip {
        Some(Routing { sandwich: false, dst: authority })
    } else if relation {
        Some(Routing { sandwich: true, dst: SocketAddr { ip: tcp_dst.ip, port: authority.port } })
    } else {
        None
    }
}

/// How far a tunnel has come. Each stage but the first and the last waits
/// for the answer to the action that led to it.
#[derive(Clone, Copy, Debug, PartialEq, Eq, Structural)]
pub enum Stage {
    /// Waiting for the request.
    Start,
    /// Waiting to hear whether the IP the tunnel arrived at is a waypoint
    /// for the authority.
    Sandwich,
    /// Waiting for the destination workload.
    Destination,
    /// Waiting for what is behind the destination's waypoint and network
    /// gateway.
    Gateways,
    /// Waiting for the connection manager to take the connection.
    Registering,
    /// Waiting for the policy verdict.
    Rbac,
    /// Waiting for the connection to the workload.
    Dialing,
    /// Waiting for the handle on the close signal.
    Tracking,
    /// Bytes flow.
    Splicing,
    /// Nothing more will happen.
    Closed,
}

impl Stage {
    /// The stages between registration and release.
    pub open spec fn registered(self) -> bool {
        self == Stage::Registering || self == Stage::Rbac || self == Stage::Dialing || self
            == Stage::Tracking || self == Stage::Splicing
    }

    /// The stages that only an admitted tunnel reaches.
    pub open spec fn admitted(self) -> bool {
        self == Stage::Dialing || self == Stage::Tracking || self == Stage::Splicing
    }

    /// The stages from which the destination is settled.
    pub open spec fn routed(self) -> bool {
        self != Stage::Start && self != Stage::Sandwich && self != Stage::Closed
    }
}

/// What happened.
#[derive(Clone, Debug)]
pub enum Event {
    /// A request arrived.
    Request(ConnectRequest),
    /// Discovery said whether the waypoint relation holds.
    WaypointRelation(bool),
    /// Discovery returned the workload at the destination, or none.
    Destination(Option<Workload>),
    /// Discovery resolved the destination's waypoint and network gateway;
    /// `None` for one that the workload does not declare.
    Gateways { waypoint: Option<GatewayResolution>, network_gateway: Option<GatewayResolution> },
    /// The connection manager holds the connection.
    Registered,
    /// Policy allows the connection, or denies it.
    Verdict(bool),
    /// The connection to the workload was established, or failed.
    Dialed(bool),
    /// The connection manager lent the close signal, or had none left.
    Handle(bool),
    /// The copy ended: a side closed, an error occurred, or the close signal
    /// fired.
    CopyEnded,
}

/// The two addresses of a proxy protocol header: the peer, and the
/// authority of its request.
#[derive(Clone, Copy, Debug, PartialEq, Eq, Structural)]
pub struct ProxyAddresses {
    pub src: SocketAddr,
    pub dst: SocketAddr,
}

/// What to do next. Addresses are on the network of the flow's connection,
/// and "the connection" is the one the flow holds when the action is given.
#[derive(Clone, Copy, Debug, PartialEq, Eq, Structural)]
pub enum Action {
    /// The event does not belong to the stage; nothing changed.
    Ignore,
    /// Refuse the tunnel, with the status of the rejection. Nothing was
    /// registered.
    Respond(Rejection),
    /// Ask discovery whether `waypoint` is a waypoint for `target`.
    FindWaypoint { target: IpAddr, waypoint: IpAddr },
    /// Ask discovery for the workload at this address and its services.
    FetchDestination(IpAddr),
    /// Ask discovery what is behind the destination workload's waypoint and
    /// network gateway.
    ResolveGateways,
    /// Register the connection.
    Register,
    /// Ask for the policy verdict on the connection.
    AssertRbac,
    /// Release the connection and refuse the tunnel, with the status of the
    /// rejection.
    ReleaseAndRespond(Rejection),
    /// Connect to the workload at `addr`, from `orig_src` if it is given.
    /// `source` is the address under which to look up the source workload
    /// for the metrics, if it can be looked up at all. With `proxy_protocol`
    /// the connection starts with a proxy protocol header of these two
    /// addresses and the peer's identity.
    Dial {
        orig_src: Option<IpAddr>,
        addr: SocketAddr,
        source: Option<IpAddr>,
        proxy_protocol: Option<ProxyAddresses>,
    },
    /// Answer 200 and ask the connection manager for the close signal.
    RespondAndTrack,
    /// Copy bytes both ways until a side closes or the close signal fires.
    Splice,
    /// Release the connection.
    Release,
}

impl Action {
    /// The actions that register the connection.
    pub open spec fn registers(self) -> bool {
        self == Action::Register
    }

    /// The actions that release the connection.
    pub open spec fn releases(self) -> bool {
        self == Action::Release || (exists|r: Rejection| self == Action::ReleaseAndRespond(r))
    }
}

/// One inbound tunnel on its way from request to release.
#[derive(Clone, Debug)]
pub struct InboundFlow {
    pub stage: Stage,
    /// The flow as policy sees it. Its destination starts as the address the
    /// tunnel arrived at and is settled when the tunnel is routed.
    pub conn: Connection,
    /// Whether connections to workloads may carry the original source.
    pub enable_original_source: bool,
    /// The authority of the request, from `Stage::Sandwich` on.
    pub authority: SocketAddr,
    pub forwarded_for: Option<IpAddr>,
    /// Whether the tunnel is addressed to a waypoint on behalf of the
    /// workload that the authority names.
    pub sandwich: bool,
    /// Whether the destination workload declares a waypoint.
    pub has_waypoint: bool,
    pub native_tunnel: Option<NativeTunnel>,
    pub from_waypoint: bool,
    pub from_gateway: bool,
}

impl InboundFlow {
    /// The flow of a tunnel that was just accepted.
    pub open spec fn fresh(conn: Connection, enable_original_source: bool) -> InboundFlow {
        InboundFlow {
            stage: Stage::Start,
            conn,
            enable_original_source,
            authority: conn.dst,
            forwarded_for: None,
            sandwich: false,
            has_waypoint: false,
            native_tunnel: None,
            from_waypoint: false,
            from_gateway: false,
        }
    }

    /// A routed flow leads to the IP that its authority names, unless it is
    /// addressed to a waypoint; before routing no flow is. And no admitted
    /// flow goes around a waypoint.
    pub open spec fn wf(self) -> bool {
        &&& if self.stage.routed() {
            self.sandwich || self.authority.ip == self.conn.dst.ip
        } else {
            self.stage == Stage::Closed || !self.sandwich
        }
        &&& self.stage.admitted() ==> !self.bypasses_waypoint()
    }

    /// Policy is asked unless the peer is the destination's waypoint or the
    /// tunnel is addressed to a waypoint.
    pub open spec fn rbac_required(self) -> bool {
        !self.from_waypoint && !self.sandwich
    }

    /// A flow goes around a waypoint if the destination declares one, the
    /// peer is not it, and the tunnel is not addressed to a waypoint.
    pub open spec fn bypasses_waypoint(self) -> bool {
        self.has_waypoint && !self.from_waypoint && !self.sandwich
    }

    /// The address the flow is attributed to: what the waypoint forwarded,
    /// if the peer is the waypoint and it forwarded anything; else the peer.
    pub open spec fn source_ip(self) -> IpAddr {
        if self.from_waypoint {
            match self.forwarded_for {
                Some(ip) => ip,
                None => self.conn.src.ip,
            }
        } else {
            self.conn.src.ip
        }
    }

    /// Whether the workload wants a proxy protocol header.
    pub open spec fn wants_proxy_protocol(self) -> bool {
        match self.native_tunnel {
            Some(tunnel) => tunnel.protocol == GatewayProtocol::Proxy,
            None => false,
        }
    }

    /// The address to connect to: the destination, on the port of the
    /// workload's proxy protocol tunnel if it names one.
    pub open spec fn dial_addr(self) -> SocketAddr {
        match self.native_tunnel {
            Some(NativeTunnel { protocol: GatewayProtocol::Proxy, port: Some(p) }) => SocketAddr {
                ip: self.conn.dst.ip,
                port: p,
            },
            _ => self.conn.dst,
        }
    }

    /// The connection to the workload that an admitted flow asks for.
    pub open spec fn dial(self) -> Action {
        Action::Dial {
            orig_src: if self.enable_original_source {
                Some(self.source_ip())
            } else {
                None
            },
            addr: self.dial_addr(),
            source: if self.from_gateway {
                None
            } else {
                Some(self.source_ip())
            },
            proxy_protocol: if self.wants_proxy_protocol() {
                Some(ProxyAddresses { src: self.conn.src, dst: self.authority })
            } else {
                None
            },
        }
    }

    /// The flow at another stage, all else unchanged.
    pub open spec fn at(self, stage: Stage) -> InboundFlow {
        InboundFlow { stage, ..self }
    }

    /// The flow once its routing is known.
    pub open spec fn routed_by(self, routing: Option<Routing>) -> (InboundFlow, Action) {
        match routing {
            Some(r) => (
                InboundFlow {
                    stage: Stage::Destination,
                    sandwich: r.sandwich,
                    conn: Connection { dst: r.dst, ..self.conn },
                    ..self
                },
                Action::FetchDestination(r.dst.ip),
            ),
            None => (self.at(Stage::Closed), Action::Respond(Rejection::IpMismatch)),
        }
    }

    /// What a registered flow does once policy allows it, or need not be
    /// asked.
    pub open spec fn allowed(self) -> (InboundFlow, Action) {
        if self.bypasses_waypoint() {
            (self.at(Stage::Closed), Action::ReleaseAndRespond(Rejection::WaypointBypassed))
        } else {
            (self.at(Stage::Dialing), self.dial())
        }
    }

    /// The transition: the flow after `event`, and what to do.
    pub open spec fn next(self, event: Event) -> (InboundFlow, Action) {
        match (self.stage, event) {
            (Stage::Start, Event::Request(req)) => {
                if req.method@ != "CONNECT"@ {
                    (self.at(Stage::Closed), Action::Respond(Rejection::MethodNotConnect))
                } else {
                    match req.authority {
                        None => (
                            self.at(Stage::Closed),
                            Action::Respond(Rejection::MalformedAuthority),
                        ),
                        Some(authority) => {
                            let heard = InboundFlow {
                                authority,
                                forwarded_for: req.forwarded_for,
                                ..self
                            };
                            if authority.ip == self.conn.dst.ip {
                                heard.routed_by(route(self.conn.dst, authority, false))
                            } else {
                                (
                                    heard.at(Stage::Sandwich),
                                    Action::FindWaypoint {
                                        target: authority.ip,
                                        waypoint: self.conn.dst.ip,
                                    },
                                )
                            }
                        },
                    }
                }
            },
            (Stage::Sandwich, Event::WaypointRelation(relation)) => self.routed_by(
                route(self.conn.dst, self.authority, relation),
            ),
            (Stage::Destination, Event::Destination(found)) => match found {
                None => (self.at(Stage::Closed), Action::Respond(Rejection::DestinationUnknown)),
                Some(workload) => (
                    InboundFlow {
                        stage: Stage::Gateways,
                        has_waypoint: workload.waypoint.is_some(),
                        native_tunnel: workload.native_tunnel,
                        ..self
                    },
                    Action::ResolveGateways,
                ),
            },
            (Stage::Gateways, Event::Gateways { waypoint, network_gateway }) => (
                InboundFlow {
                    stage: Stage::Registering,
                    from_waypoint: from_gateway(identity_view(self.conn.src_identity), waypoint),
                    from_gateway: from_gateway(
                        identity_view(self.conn.src_identity),
                        network_gateway,
                    ),
                    ..self
                },
                Action::Register,
            ),
            (Stage::Registering, Event::Registered) => if self.rbac_required() {
                (self.at(Stage::Rbac), Action::AssertRbac)
            } else {
                self.allowed()
            },
            (Stage::Rbac, Event::Verdict(allow)) => if allow {
                self.allowed()
            } else {
                (self.at(Stage::Closed), Action::ReleaseAndRespond(Rejection::PolicyDenied))
            },
            (Stage::Dialing, Event::Dialed(connected)) => if connected {
                (self.at(Stage::Tracking), Action::RespondAndTrack)
            } else {
                (self.at(Stage::Closed), Action::ReleaseAndRespond(Rejection::UpstreamUnreachable))
            },
            (Stage::Tracking, Event::Handle(held)) => if held {
                (self.at(Stage::Splicing), Action::Splice)
            } else {
                (self.at(Stage::Closed), Action::Release)
            },
            (Stage::Splicing, Event::CopyEnded) => (self.at(Stage::Closed), Action::Release),
            _ => (self, Action::Ignore),
        }
    }

    /// Starts the flow of a tunnel that arrived for `conn.dst`.
    pub fn new(conn: Connection, enable_original_source: bool) -> (flow: InboundFlow)
        ensures
            flow == InboundFlow::fresh(conn, enable_original_source),
            flow.wf(),
    {
        let authority = conn.dst;
        InboundFlow {
            stage: Stage::Start,
            conn,
            enable_original_source,
            authority,
            forwarded_for: None,
            sandwich: false,
            has_waypoint: false,
            native_tunnel: None,
            from_waypoint: false,
            from_gateway: false,
        }
    }

    /// The connection to register, to ask policy about and to release.
    pub fn connection(&self) -> (conn: &Connection)
        ensures
            *conn == self.conn,
    {
        &self.conn
    }

    pub fn is_closed(&self) -> (closed: bool)
        ensures
            closed == (self.stage == Stage::Closed),
    {
        self.stage == Stage::Closed
    }

    fn close(self, action: Action) -> (r: (InboundFlow, Action))
        ensures
            r == (self.at(Stage::Closed), action),
    {
        let mut flow = self;
        flow.stage = Stage::Closed;
        (flow, action)
    }

    fn apply_routing(self, routing: Option<Routing>) -> (r: (InboundFlow, Action))
        ensures
            r == self.routed_by(routing),
    {
        match routing {
            Some(r) => {
                let mut flow = self;
                flow.stage = Stage::Destination;
                flow.sandwich = r.sandwich;
                flow.conn.dst = r.dst;
                (flow, Action::FetchDestination(r.dst.ip))
            },
            None => self.close(Action::Respond(Rejection::IpMismatch)),
        }
    }

    fn effective_source(&self) -> (ip: IpAddr)
        ensures
            ip == self.source_ip(),
    {
        if self.from_waypoint {
            match self.forwarded_for {
                Some(ip) => ip,
                None => self.conn.src.ip,
            }
        } else {
            self.conn.src.ip
        }
    }

    fn proceed(self) -> (r: (InboundFlow, Action))
        ensures
            r == self.allowed(),
    {
        if self.has_waypoint && !self.from_waypoint && !self.sandwich {
            return self.close(Action::ReleaseAndRespond(Rejection::WaypointBypassed));
        }
        let source_ip = self.effective_source();
        let (addr, proxy_protocol) = match self.native_tunnel {
            Some(NativeTunnel { protocol: GatewayProtocol::Proxy, port }) => {
                let addr = match port {
                    Some(p) => SocketAddr { ip: self.conn.dst.ip, port: p },
                    None => self.conn.dst,
                };
                (addr, Some(ProxyAddresses { src: self.conn.src, dst: self.authority }))
            },
            _ => (self.conn.dst, None),
        };
        let action = Action::Dial {
            orig_src: if self.enable_original_source {
                Some(source_ip)
            } else {
                None
            },
            addr,
            source: if self.from_gateway {
                None
            } else {
                Some(source_ip)
            },
            proxy_protocol,
        };
        let mut flow = self;
        flow.stage = Stage::Dialing;
        (flow, action)
    }

    /// Takes `event` and says what to do next. An event that the stage does
    /// not wait for changes nothing and is answered with `Action::Ignore`.
    pub fn step(self, event: Event) -> (r: (InboundFlow, Action))
        ensures
            r == self.next(event),
            self.wf() ==> r.0.wf(),
    {
        proof {
            if self.wf() {
                lemma_step_keeps_destination(self, event);
            }
        }
        match self.stage {
            Stage::Start => match event {
                Event::Request(req) => {
                    let connect = "CONNECT".to_owned();
                    if !(req.method == connect) {
                        return self.close(Action::Respond(Rejection::MethodNotConnect));
                    }
                    match req.authority {
                        None => self.close(Action::Respond(Rejection::MalformedAuthority)),
                        Some(authority) => {
                            let tcp_dst = self.conn.dst;
                            let mut flow = self;
                            flow.authority = authority;
                            flow.forwarded_for = req.forwarded_for;
                            if authority.ip == tcp_dst.ip {
                                flow.apply_routing(check_sandwich(tcp_dst, authority, false))
                            } else {
                                flow.stage = Stage::Sandwich;
                                (
                                    flow,
                                    Action::FindWaypoint {
                                        target: authority.ip,
                                        waypoint: tcp_dst.ip,
                                    },
                                )
                            }
                        },
                    }
                },
                _ => (self, Action::Ignore),
            },
            Stage::Sandwich => match event {
                Event::WaypointRelation(relation) => {
                    let routing = check_sandwich(self.conn.dst, self.authority, relation);
                    self.apply_routing(routing)
                },
                _ => (self, Action::Ignore),
            },
            Stage::Destination => match event {
                Event::Destination(found) => match found {
                    None => self.close(Action::Respond(Rejection::DestinationUnknown)),
                    Some(workload) => {
                        let mut flow = self;
                        flow.stage = Stage::Gateways;
                        flow.has_waypoint = workload.waypoint.is_some();
                        flow.native_tunnel = workload.native_tunnel;
                        (flow, Action::ResolveGateways)
                    },
                },
                _ => (self, Action::Ignore),
            },
            Stage::Gateways => match event {
                Event::Gateways { waypoint, network_gateway } => {
                    let from_waypoint = check_gateway_address(&self.conn.src_identity, &waypoint);
                    let from_gateway = check_gateway_address(
                        &self.conn.src_identity,
                        &network_gateway,
                    );
                    let mut flow = self;
                    flow.stage = Stage::Registering;
                    flow.from_waypoint = from_waypoint;
                    flow.from_gateway = from_gateway;
                    (flow, Action::Register)
                },
                _ => (self, Action::Ignore),
            },
            Stage::Registering => match event {
                Event::Registered => {
                    if !self.from_waypoint && !self.sandwich {
                        let mut flow = self;
                        flow.stage = Stage::Rbac;
                        (flow, Action::AssertRbac)
                    } else {
                        self.proceed()
                    }
                },
                _ => (self, Action::Ignore),
            },
            Stage::Rbac => match event {
                Event::Verdict(allow) => {
                    if allow {
                        self.proceed()
                    } else {
                        self.close(Action::ReleaseAndRespond(Rejection::PolicyDenied))
                    }
                },
                _ => (self, Action::Ignore),
            },
            Stage::Dialing => match event {
                Event::Dialed(connected) => {
                    if connected {
                        let mut flow = self;
                        flow.stage = Stage::Tracking;
                        (flow, Action::RespondAndTrack)
                    } else {
                        self.close(Action::ReleaseAndRespond(Rejection::UpstreamUnreachable))
                    }
                },
                _ => (self, Action::Ignore),
            },
            Stage::Tracking => match event {
                Event::Handle(held) => {
                    if held {
                        let mut flow = self;
                        flow.stage = Stage::Splicing;
                        (flow, Action::Splice)
                    } else {
                        self.close(Action::Release)
                    }
                },
                _ => (self, Action::Ignore),
            },
            Stage::Splicing => match event {
                Event::CopyEnded => self.close(Action::Release),
                _ => (self, Action::Ignore),
            },
            Stage::Closed => (self, Action::Ignore),
        }
    }
}

} // verus!
