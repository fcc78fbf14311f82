//! What holds of an inbound flow over its whole life, whatever events it is
//! given.

use vstd::prelude::*;
use crate::inbound::{route, Action, ConnectRequest, Event, InboundFlow, Routing, Stage};
use crate::net::SocketAddr;

verus! {

/// The flow after `events`, one after the other.
pub open spec fn run(flow: InboundFlow, events: Seq<Event>) -> InboundFlow
    decreases events.len(),
{
    if events.len() == 0 {
        flow
    } else {
        run(flow.next(events[0]).0, events.drop_first())
    }
}

/// The actions that the flow answers `events` with.
pub open spec fn actions(flow: InboundFlow, events: Seq<Event>) -> Seq<Action>
    decreases events.len(),
{
    if events.len() == 0 {
        Seq::empty()
    } else {
        seq![flow.next(events[0]).1] + actions(flow.next(events[0]).0, events.drop_first())
    }
}

/// How many of `actions` register the connection.
pub open spec fn registrations(actions: Seq<Action>) -> nat
    decreases actions.len(),
{
    if actions.len() == 0 {
        0
    } else {
        (if actions[0].registers() {
            1nat
        } else {
            0nat
        }) + registrations(actions.drop_first())
    }
}

/// How many of `actions` release the connection.
pub open spec fn releases(actions: Seq<Action>) -> nat
    decreases actions.len(),
{
    if actions.len() == 0 {
        0
    } else {
        (if actions[0].releases() {
            1nat
        } else {
            0nat
        }) + releases(actions.drop_first())
    }
}

/// 1 while the connection is registered and not yet released, else 0.
pub open spec fn owed(flow: InboundFlow) -> nat {
    if flow.stage.registered() {
        1
    } else {
        0
    }
}

/// The stages before the connection is registered.
pub open spec fn unregistered(stage: Stage) -> bool {
    stage == Stage::Start || stage == Stage::Sandwich || stage == Stage::Destination || stage
        == Stage::Gateways
}

/// One step registers only a connection that was never registered, releases
/// only one that is registered, and leaves a closed flow closed.
pub proof fn lemma_step_accounting(flow: InboundFlow, event: Event)
    ensures
        ({
            let (after, action) = flow.next(event);
            &&& action.registers() ==> unregistered(flow.stage) && after.stage.registered()
            &&& action.releases() ==> flow.stage.registered() && after.stage == Stage::Closed
            &&& !action.registers() && !action.releases() ==> owed(after) == owed(flow)
            &&& unregistered(after.stage) ==> unregistered(flow.stage)
            &&& flow.stage == Stage::Closed ==> after == flow && action == Action::Ignore
        }),
{
}

/// Over any run, what was registered and is not released yet is still owed:
/// registrations and releases differ by what the flow owed before and owes
/// after.
pub proof fn lemma_release_balance(flow: InboundFlow, events: Seq<Event>)
    ensures
        registrations(actions(flow, events)) + owed(flow) == releases(actions(flow, events)) + owed(
            run(flow, events),
        ),
        registrations(actions(flow, events)) <= (if unregistered(flow.stage) {
            1nat
        } else {
            0nat
        }),
    decreases events.len(),
{
    if events.len() > 0 {
        let (after, action) = flow.next(events[0]);
        let rest = actions(after, events.drop_first());
        lemma_step_accounting(flow, events[0]);
        lemma_release_balance(after, events.drop_first());
        let all = actions(flow, events);
        assert(all[0] == action);
        assert(all.drop_first() =~= rest);
    }
}

/// From acceptance on, a connection is registered at most once and released
/// at most as often as registered. While the flow is in a registered stage
/// the release is outstanding; once the flow is closed, a connection that
/// was registered has been released exactly once, whichever way the flow
/// ended.
pub proof fn lemma_released_exactly_once(flow: InboundFlow, events: Seq<Event>)
    requires
        flow.stage == Stage::Start,
    ensures
        registrations(actions(flow, events)) <= 1,
        releases(actions(flow, events)) <= registrations(actions(flow, events)),
        run(flow, events).stage == Stage::Closed ==> releases(actions(flow, events))
            == registrations(actions(flow, events)),
        run(flow, events).stage.registered() ==> registrations(actions(flow, events)) == 1
            && releases(actions(flow, events)) == 0,
{
    lemma_release_balance(flow, events);
}

/// Every step keeps a well-formed flow well-formed, never changes who sends
/// or the IP and network the flow leads to, and marks a flow as addressed to
/// a waypoint only when discovery has just confirmed the relation.
pub proof fn lemma_step_keeps_destination(flow: InboundFlow, event: Event)
    requires
        flow.wf(),
    ensures
        ({
            let after = flow.next(event).0;
            &&& after.wf()
            &&& after.conn.dst.ip == flow.conn.dst.ip
            &&& after.conn.dst_network == flow.conn.dst_network
            &&& after.conn.src == flow.conn.src
            &&& after.conn.src_identity == flow.conn.src_identity
            &&& after.sandwich && !flow.sandwich ==> event == Event::WaypointRelation(true)
                && after.authority.ip != after.conn.dst.ip
        }),
{
}

/// An admitted flow leads to the IP on the network at which the tunnel
/// arrived; the authority of the request named that IP, or discovery
/// confirmed that the IP is a waypoint for the one the authority names; and
/// the flow does not go around a waypoint.
pub proof fn lemma_admitted_destination(flow: InboundFlow, events: Seq<Event>)
    requires
        flow.wf(),
    ensures
        ({
            let end = run(flow, events);
            &&& end.wf()
            &&& end.conn.dst.ip == flow.conn.dst.ip
            &&& end.conn.dst_network == flow.conn.dst_network
            &&& end.conn.src == flow.conn.src
            &&& end.conn.src_identity == flow.conn.src_identity
            &&& end.sandwich ==> flow.sandwich || events.contains(Event::WaypointRelation(true))
            &&& end.stage.admitted() ==> !end.bypasses_waypoint() && (end.authority.ip
                == end.conn.dst.ip || end.sandwich)
        }),
    decreases events.len(),
{
    if events.len() > 0 {
        let after = flow.next(events[0]).0;
        let rest = events.drop_first();
        lemma_step_keeps_destination(flow, events[0]);
        lemma_admitted_destination(after, rest);
        let confirmed = Event::WaypointRelation(true);
        if rest.contains(confirmed) {
            let k = choose|k: int| 0 <= k < rest.len() && rest[k] == confirmed;
            assert(events[k + 1] == confirmed);
        }
        if events[0] == confirmed {
            assert(events.contains(confirmed));
        }
    }
}

/// Where the authority names the IP at which the tunnel arrived, the routing
/// is the same whatever discovery says of waypoints.
pub proof fn lemma_same_ip_routing(tcp_dst: SocketAddr, authority: SocketAddr, relation: bool)
    requires
        authority.ip == tcp_dst.ip,
    ensures
        route(tcp_dst, authority, relation) == Some(Routing { sandwich: false, dst: authority }),
{
}

/// A CONNECT whose authority names the IP at which the tunnel arrived goes
/// on as it would if discovery had been asked about waypoints first,
/// whatever the answer.
pub proof fn lemma_same_ip_flow(
    flow: InboundFlow,
    request: ConnectRequest,
    authority: SocketAddr,
    relation: bool,
)
    requires
        flow.stage == Stage::Start,
        request.method@ == "CONNECT"@,
        request.authority == Some(authority),
        authority.ip == flow.conn.dst.ip,
    ensures
        flow.next(Event::Request(request)) == (InboundFlow {
            stage: Stage::Sandwich,
            authority,
            forwarded_for: request.forwarded_for,
            ..flow
        }).next(Event::WaypointRelation(relation)),
{
}

/// How far a stage is from the start.
pub open spec fn rank(stage: Stage) -> nat {
    match stage {
        Stage::Start => 0,
        Stage::Sandwich => 1,
        Stage::Destination => 2,
        Stage::Gateways => 3,
        Stage::Registering => 4,
        Stage::Rbac => 5,
        Stage::Dialing => 6,
        Stage::Tracking => 7,
        Stage::Splicing => 8,
        Stage::Closed => 9,
    }
}

/// The event that a stage waits for.
pub open spec fn awaited(stage: Stage, event: Event) -> bool {
    match (stage, event) {
        (Stage::Start, Event::Request(_)) => true,
        (Stage::Sandwich, Event::WaypointRelation(_)) => true,
        (Stage::Destination, Event::Destination(_)) => true,
        (Stage::Gateways, Event::Gateways { .. }) => true,
        (Stage::Registering, Event::Registered) => true,
        (Stage::Rbac, Event::Verdict(_)) => true,
        (Stage::Dialing, Event::Dialed(_)) => true,
        (Stage::Tracking, Event::Handle(_)) => true,
        (Stage::Splicing, Event::CopyEnded) => true,
        _ => false,
    }
}

/// How many of `actions` are not `Action::Ignore`.
pub open spec fn effective(actions: Seq<Action>) -> nat
    decreases actions.len(),
{
    if actions.len() == 0 {
        0
    } else {
        (if actions[0] != Action::Ignore {
            1nat
        } else {
            0nat
        }) + effective(actions.drop_first())
    }
}

/// The event that the stage waits for moves the flow to a later stage; any
/// other event is ignored and changes nothing.
pub proof fn lemma_step_advances(flow: InboundFlow, event: Event)
    ensures
        awaited(flow.stage, event) ==> flow.next(event).1 != Action::Ignore && rank(
            flow.next(event).0.stage,
        ) > rank(flow.stage),
        !awaited(flow.stage, event) ==> flow.next(event) == (flow, Action::Ignore),
{
}

/// However many events a flow is given, it answers at most nine of them
/// with an action: each such answer moves it to a later stage.
pub proof fn lemma_bounded_life(flow: InboundFlow, events: Seq<Event>)
    ensures
        effective(actions(flow, events)) + rank(flow.stage) <= rank(run(flow, events).stage) <= 9,
    decreases events.len(),
{
    if events.len() > 0 {
        let (after, action) = flow.next(events[0]);
        lemma_step_advances(flow, events[0]);
        lemma_bounded_life(after, events.drop_first());
        let all = actions(flow, events);
        assert(all[0] == action);
        assert(all.drop_first() =~= actions(after, events.drop_first()));
    }
}

/// The tunnel is answered with success exactly when the connection to the
/// workload has just been established. And the workload is dialled only for
/// a registered flow that policy has just allowed, or that need not ask:
/// one from the destination's waypoint or addressed to a waypoint; never
/// for a flow that goes around a waypoint.
pub proof fn lemma_success_follows_dial(flow: InboundFlow, event: Event)
    ensures
        flow.next(event).1 == Action::RespondAndTrack <==> flow.stage == Stage::Dialing && event
            == Event::Dialed(true),
        flow.next(event).0.stage == Stage::Dialing && flow.stage != Stage::Dialing ==> {
            &&& flow.next(event).1 == flow.dial()
            &&& !flow.bypasses_waypoint()
            &&& (flow.stage == Stage::Rbac && event == Event::Verdict(true)) || (flow.stage
                == Stage::Registering && event == Event::Registered && !flow.rbac_required())
        },
{
}

} // verus!
