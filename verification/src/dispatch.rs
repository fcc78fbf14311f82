//! The dispatch of one planned outbound flow: over the overlay, or as plain
//! TCP.
//!
//! As with inbound tunnels, whoever owns the sockets reports what happened
//! and is told what to do next.

use vstd::prelude::*;
use crate::config::Config;
use crate::net::SocketAddr;
use crate::outbound::Request;
use crate::workload::Protocol;

verus! {

/// Why an outbound flow failed.
#[derive(Clone, Copy, Debug, PartialEq, Eq, Structural)]
pub enum Failure {
    /// A socket could not be opened, or a read or a write failed.
    Io,
    /// The TLS handshake failed.
    Tls,
    /// The HTTP/2 handshake failed.
    HttpHandshake,
    /// The peer answered the CONNECT with this status, which is no success.
    Refused(u16),
    /// The stream could not be turned into a byte pipe.
    UpgradeFailed,
}

/// How far the dispatch has come.
#[derive(Clone, Copy, Debug, PartialEq, Eq, Structural)]
pub enum Step {
    /// Nothing was done yet.
    Start,
    /// Waiting for the TCP connection to the gateway.
    Connecting,
    /// Waiting for the TLS handshake.
    Securing,
    /// Waiting for the HTTP/2 handshake.
    Handshaking,
    /// Waiting for the answer to the CONNECT.
    Requesting,
    /// Waiting for the stream to become a byte pipe.
    Upgrading,
    /// Bytes flow.
    Relaying,
    /// Nothing more will happen.
    Closed,
}

/// What happened.
#[derive(Clone, Copy, Debug, PartialEq, Eq, Structural)]
pub enum Report {
    /// The flow was intercepted.
    Accepted,
    /// The connection to the gateway was established, or failed.
    Connected(bool),
    /// The TLS handshake succeeded, or failed.
    Secured(bool),
    /// The HTTP/2 handshake succeeded, or failed.
    Handshaken(bool),
    /// The peer answered the CONNECT with this status; `None` if the request
    /// could not be sent or no answer came.
    Answered(Option<u16>),
    /// The stream became a byte pipe, or did not.
    Upgraded(bool),
    /// The copy ended, with or without an error.
    Copied(bool),
}

/// What to do next.
#[derive(Clone, Copy, Debug, PartialEq, Eq, Structural)]
pub enum Order {
    /// The report does not belong to the step; nothing changed.
    Ignore,
    /// Open a TCP connection to this address.
    Dial(SocketAddr),
    /// Wrap the connection in the overlay's TLS.
    Secure,
    /// Perform the HTTP/2 handshake with these settings.
    Handshake { window_size: u32, connection_window_size: u32, frame_size: u32 },
    /// Send a CONNECT for this authority, as HTTP/2.
    Connect(SocketAddr),
    /// Turn the stream into a byte pipe.
    Upgrade,
    /// Copy bytes both ways between the intercepted stream and the upstream,
    /// until both sides have ended.
    Relay,
    /// Close the intercepted stream; the flow is complete.
    Complete,
    /// Close the intercepted stream; the flow failed.
    Fail(Failure),
}

/// Whether a status is a success: exactly those from 200 to 299 are.
pub open spec fn is_success(status: u16) -> bool {
    200 <= status < 300
}

/// One intercepted flow on its way to its upstream.
#[derive(Clone, Copy, Debug, PartialEq, Eq, Structural)]
pub struct OutboundConnection {
    pub step: Step,
    /// The plan of the flow.
    pub request: Request,
    /// Whether overlay connections use TLS.
    pub tls: bool,
    pub window_size: u32,
    pub connection_window_size: u32,
    pub frame_size: u32,
}

impl OutboundConnection {
    /// The flow at another step, all else unchanged.
    pub open spec fn at(self, step: Step) -> OutboundConnection {
        OutboundConnection { step, ..self }
    }

    /// The HTTP/2 handshake with the configured sizes.
    pub open spec fn handshake(self) -> Order {
        Order::Handshake {
            window_size: self.window_size,
            connection_window_size: self.connection_window_size,
            frame_size: self.frame_size,
        }
    }

    /// The transition: the flow after `report`, and what to do. Any failure
    /// closes the flow; there is no retry.
    pub open spec fn next(self, report: Report) -> (OutboundConnection, Order) {
        match (self.step, report) {
            (Step::Start, Report::Accepted) => (
                self.at(Step::Connecting),
                Order::Dial(self.request.gateway),
            ),
            (Step::Connecting, Report::Connected(ok)) => if !ok {
                (self.at(Step::Closed), Order::Fail(Failure::Io))
            } else if self.request.protocol == Protocol::Tcp {
                (self.at(Step::Relaying), Order::Relay)
            } else if self.tls {
                (self.at(Step::Securing), Order::Secure)
            } else {
                (self.at(Step::Handshaking), self.handshake())
            },
            (Step::Securing, Report::Secured(ok)) => if ok {
                (self.at(Step::Handshaking), self.handshake())
            } else {
                (self.at(Step::Closed), Order::Fail(Failure::Tls))
            },
            (Step::Handshaking, Report::Handshaken(ok)) => if ok {
                (self.at(Step::Requesting), Order::Connect(self.request.destination))
            } else {
                (self.at(Step::Closed), Order::Fail(Failure::HttpHandshake))
            },
            (Step::Requesting, Report::Answered(answer)) => match answer {
                None => (self.at(Step::Closed), Order::Fail(Failure::Io)),
                Some(status) => if is_success(status) {
                    (self.at(Step::Upgrading), Order::Upgrade)
                } else {
                    (self.at(Step::Closed), Order::Fail(Failure::Refused(status)))
                },
            },
            (Step::Upgrading, Report::Upgraded(ok)) => if ok {
                (self.at(Step::Relaying), Order::Relay)
            } else {
                (self.at(Step::Closed), Order::Fail(Failure::UpgradeFailed))
            },
            (Step::Relaying, Report::Copied(ok)) => if ok {
                (self.at(Step::Closed), Order::Complete)
            } else {
                (self.at(Step::Closed), Order::Fail(Failure::Io))
            },
            _ => (self, Order::Ignore),
        }
    }

    /// The dispatch of the flow that was planned as `request`.
    pub fn new(request: Request, cfg: &Config) -> (flow: OutboundConnection)
        ensures
            flow == (OutboundConnection {
                step: Step::Start,
                request,
                tls: cfg.tls,
                window_size: cfg.window_size,
                connection_window_size: cfg.connection_window_size,
                frame_size: cfg.frame_size,
            }),
    {
        OutboundConnection {
            step: Step::Start,
            request,
            tls: cfg.tls,
            window_size: cfg.window_size,
            connection_window_size: cfg.connection_window_size,
            frame_size: cfg.frame_size,
        }
    }

    pub fn is_closed(&self) -> (closed: bool)
        ensures
            closed == (self.step == Step::Closed),
    {
        self.step == Step::Closed
    }

    fn goes(&mut self, step: Step, order: Order) -> (given: Order)
        ensures
            *final(self) == old(self).at(step),
            given == order,
    {
        self.step = step;
        order
    }

    fn open_tunnel(&mut self) -> (order: Order)
        ensures
            *final(self) == old(self).at(Step::Handshaking),
            order == old(self).handshake(),
    {
        self.step = Step::Handshaking;
        Order::Handshake {
            window_size: self.window_size,
            connection_window_size: self.connection_window_size,
            frame_size: self.frame_size,
        }
    }

    /// Takes `report` and says what to do next. A report that the step does
    /// not wait for changes nothing and is answered with `Order::Ignore`.
    pub fn proxy(&mut self, report: Report) -> (order: Order)
        ensures
            (*final(self), order) == old(self).next(report),
    {
        match (self.step, report) {
            (Step::Start, Report::Accepted) => {
                let gateway = self.request.gateway;
                self.goes(Step::Connecting, Order::Dial(gateway))
            },
            (Step::Connecting, Report::Connected(ok)) => {
                if !ok {
                    self.goes(Step::Closed, Order::Fail(Failure::Io))
                } else if self.request.protocol == Protocol::Tcp {
                    self.goes(Step::Relaying, Order::Relay)
                } else if self.tls {
                    self.goes(Step::Securing, Order::Secure)
                } else {
                    self.open_tunnel()
                }
            },
            (Step::Securing, Report::Secured(ok)) => {
                if ok {
                    self.open_tunnel()
                } else {
                    self.goes(Step::Closed, Order::Fail(Failure::Tls))
                }
            },
            (Step::Handshaking, Report::Handshaken(ok)) => {
                if ok {
                    let authority = self.request.destination;
                    self.goes(Step::Requesting, Order::Connect(authority))
                } else {
                    self.goes(Step::Closed, Order::Fail(Failure::HttpHandshake))
                }
            },
            (Step::Requesting, Report::Answered(answer)) => match answer {
                None => self.goes(Step::Closed, Order::Fail(Failure::Io)),
                Some(status) => {
                    if 200 <= status && status < 300 {
                        self.goes(Step::Upgrading, Order::Upgrade)
                    } else {
                        self.goes(Step::Closed, Order::Fail(Failure::Refused(status)))
                    }
                },
            },
            (Step::Upgrading, Report::Upgraded(ok)) => {
                if ok {
                    self.goes(Step::Relaying, Order::Relay)
                } else {
                    self.goes(Step::Closed, Order::Fail(Failure::UpgradeFailed))
                }
            },
            (Step::Relaying, Report::Copied(ok)) => {
                if ok {
                    self.goes(Step::Closed, Order::Complete)
                } else {
                    self.goes(Step::Closed, Order::Fail(Failure::Io))
                }
            },
            _ => Order::Ignore,
        }
    }
}

/// The flow after `reports`, one after the other.
pub open spec fn run(flow: OutboundConnection, reports: Seq<Report>) -> OutboundConnection
    decreases reports.len(),
{
    if reports.len() == 0 {
        flow
    } else {
        run(flow.next(reports[0]).0, reports.drop_first())
    }
}

/// What has been settled when a flow is at a step: a plain TCP flow never
/// is at a step of the tunnel, and a tunnel that relays or upgrades was
/// answered with a success.
pub open spec fn settled(flow: OutboundConnection, accepted: bool) -> bool {
    match flow.step {
        Step::Securing => flow.request.protocol == Protocol::Hbone && flow.tls,
        Step::Handshaking | Step::Requesting => flow.request.protocol == Protocol::Hbone,
        Step::Upgrading => flow.request.protocol == Protocol::Hbone && accepted,
        Step::Relaying => flow.request.protocol == Protocol::Tcp || accepted,
        _ => true,
    }
}

/// Whether `report` is a successful answer to a CONNECT.
pub open spec fn succeeds(report: Report) -> bool {
    match report {
        Report::Answered(Some(status)) => is_success(status),
        _ => false,
    }
}

/// Whether one of `reports` is a successful answer to a CONNECT.
pub open spec fn answered_with_success(reports: Seq<Report>) -> bool {
    exists|k: int| 0 <= k < reports.len() && succeeds(#[trigger] reports[k])
}

/// The plan is never changed. A flow over plain TCP is relayed as soon as
/// the gateway is connected, without TLS, handshake or CONNECT. A flow over
/// the overlay is relayed only after the peer answered its CONNECT with a
/// success, and is wrapped in TLS only if TLS is switched on.
pub proof fn lemma_relay_after_success(request: Request, cfg: Config, reports: Seq<Report>)
    ensures
        ({
            let start = OutboundConnection {
                step: Step::Start,
                request,
                tls: cfg.tls,
                window_size: cfg.window_size,
                connection_window_size: cfg.connection_window_size,
                frame_size: cfg.frame_size,
            };
            let end = run(start, reports);
            &&& end.request == request
            &&& end.tls == cfg.tls
            &&& settled(end, answered_with_success(reports))
        }),
{
    let start = OutboundConnection {
        step: Step::Start,
        request,
        tls: cfg.tls,
        window_size: cfg.window_size,
        connection_window_size: cfg.connection_window_size,
        frame_size: cfg.frame_size,
    };
    lemma_run_settled(start, reports, false);
}

/// Running a settled flow leaves it settled.
pub proof fn lemma_run_settled(flow: OutboundConnection, reports: Seq<Report>, accepted: bool)
    requires
        settled(flow, accepted),
    ensures
        run(flow, reports).request == flow.request,
        run(flow, reports).tls == flow.tls,
        settled(run(flow, reports), accepted || answered_with_success(reports)),
    decreases reports.len(),
{
    if reports.len() > 0 {
        let rest = reports.drop_first();
        let after = flow.next(reports[0]).0;
        let now = accepted || succeeds(reports[0]);
        lemma_run_settled(after, rest, now);
        if answered_with_success(rest) {
            let k = choose|k: int| 0 <= k < rest.len() && succeeds(#[trigger] rest[k]);
            assert(succeeds(reports[k + 1]));
        }
        if succeeds(reports[0]) {
            assert(answered_with_success(reports));
        }
    }
}

} // verus!
