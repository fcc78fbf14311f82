//! Half-close propagation and byte accounting of a copy between two
//! streams.
//!
//! Two copies run, one in each direction. When one side ends its stream the
//! write half towards the other side is shut down, and the other direction
//! goes on until it ends too. An error in either direction ends both.

use vstd::prelude::*;

verus! {

/// What a copy reports.
#[derive(Clone, Copy, Debug, PartialEq, Eq, Structural)]
pub enum CopyEvent {
    /// This many bytes of the client were written to the upstream.
    ClientData(u64),
    /// This many bytes of the upstream were written to the client.
    UpstreamData(u64),
    /// The client sent its last byte.
    ClientEof,
    /// The upstream sent its last byte.
    UpstreamEof,
    /// A read or a write failed.
    Failed,
}

/// What to do about it.
#[derive(Clone, Copy, Debug, PartialEq, Eq, Structural)]
pub enum CopyAction {
    /// Nothing.
    Nothing,
    /// Shut down the write half towards the upstream.
    ShutdownUpstream,
    /// Shut down the write half towards the client.
    ShutdownClient,
    /// Drop both sockets and report the failure.
    Abort,
}

/// The state of a copy.
#[derive(Clone, Copy, Debug, PartialEq, Eq, Structural)]
pub struct Relay {
    /// The client has ended its stream.
    pub client_done: bool,
    /// The upstream has ended its stream.
    pub upstream_done: bool,
    /// A copy failed.
    pub failed: bool,
    /// Bytes copied from the client to the upstream; stays at `u64::MAX`
    /// once it has reached it.
    pub sent: u64,
    /// Bytes copied from the upstream to the client; stays at `u64::MAX`
    /// once it has reached it.
    pub received: u64,
}

/// `count + n`, or `u64::MAX` where that is less.
pub open spec fn counted(count: u64, n: u64) -> u64 {
    if count + n > u64::MAX {
        u64::MAX
    } else {
        (count + n) as u64
    }
}

impl Relay {
    /// Nothing is left to copy: both sides have ended, or a copy failed.
    pub open spec fn is_finished(self) -> bool {
        self.failed || (self.client_done && self.upstream_done)
    }

    /// Whether the relay takes `event` into account: not once it is
    /// finished, and nothing from a side that has ended.
    pub open spec fn accepts(self, event: CopyEvent) -> bool {
        !self.is_finished() && match event {
            CopyEvent::ClientData(_) => !self.client_done,
            CopyEvent::ClientEof => !self.client_done,
            CopyEvent::UpstreamData(_) => !self.upstream_done,
            CopyEvent::UpstreamEof => !self.upstream_done,
            CopyEvent::Failed => true,
        }
    }

    /// The relay after `event`, and what to do.
    pub open spec fn next(self, event: CopyEvent) -> (Relay, CopyAction) {
        if !self.accepts(event) {
            (self, CopyAction::Nothing)
        } else {
            match event {
                CopyEvent::ClientData(n) => (
                    Relay { sent: counted(self.sent, n), ..self },
                    CopyAction::Nothing,
                ),
                CopyEvent::UpstreamData(n) => (
                    Relay { received: counted(self.received, n), ..self },
                    CopyAction::Nothing,
                ),
                CopyEvent::ClientEof => (
                    Relay { client_done: true, ..self },
                    CopyAction::ShutdownUpstream,
                ),
                CopyEvent::UpstreamEof => (
                    Relay { upstream_done: true, ..self },
                    CopyAction::ShutdownClient,
                ),
                CopyEvent::Failed => (Relay { failed: true, ..self }, CopyAction::Abort),
            }
        }
    }

    /// A copy with both directions open and nothing copied.
    pub fn new() -> (relay: Relay)
        ensures
            relay == (Relay {
                client_done: false,
                upstream_done: false,
                failed: false,
                sent: 0,
                received: 0,
            }),
            !relay.is_finished(),
    {
        Relay { client_done: false, upstream_done: false, failed: false, sent: 0, received: 0 }
    }

    pub fn finished(&self) -> (done: bool)
        ensures
            done == self.is_finished(),
    {
        self.failed || (self.client_done && self.upstream_done)
    }

    /// Takes what a copy reported and says what to do.
    pub fn on(&mut self, event: CopyEvent) -> (action: CopyAction)
        ensures
            (*final(self), action) == old(self).next(event),
    {
        if self.finished() {
            return CopyAction::Nothing;
        }
        match event {
            CopyEvent::ClientData(n) => {
                if !self.client_done {
                    self.sent = add_saturating(self.sent, n);
                }
                CopyAction::Nothing
            },
            CopyEvent::UpstreamData(n) => {
                if !self.upstream_done {
                    self.received = add_saturating(self.received, n);
                }
                CopyAction::Nothing
            },
            CopyEvent::ClientEof => {
                if self.client_done {
                    CopyAction::Nothing
                } else {
                    self.client_done = true;
                    CopyAction::ShutdownUpstream
                }
            },
            CopyEvent::UpstreamEof => {
                if self.upstream_done {
                    CopyAction::Nothing
                } else {
                    self.upstream_done = true;
                    CopyAction::ShutdownClient
                }
            },
            CopyEvent::Failed => {
                self.failed = true;
                CopyAction::Abort
            },
        }
    }
}

fn add_saturating(count: u64, n: u64) -> (sum: u64)
    ensures
        sum == counted(count, n),
{
    if n > u64::MAX - count {
        u64::MAX
    } else {
        count + n
    }
}

/// The relay after `events`, one after the other.
pub open spec fn run(relay: Relay, events: Seq<CopyEvent>) -> Relay
    decreases events.len(),
{
    if events.len() == 0 {
        relay
    } else {
        run(relay.next(events[0]).0, events.drop_first())
    }
}

/// The bytes that `events` report from the client while the relay takes its
/// data.
pub open spec fn client_bytes(relay: Relay, events: Seq<CopyEvent>) -> nat
    decreases events.len(),
{
    if events.len() == 0 {
        0
    } else {
        (match events[0] {
            CopyEvent::ClientData(n) => if relay.accepts(events[0]) {
                n as nat
            } else {
                0
            },
            _ => 0,
        }) + client_bytes(relay.next(events[0]).0, events.drop_first())
    }
}

/// The bytes that `events` report from the upstream while the relay takes
/// its data.
pub open spec fn upstream_bytes(relay: Relay, events: Seq<CopyEvent>) -> nat
    decreases events.len(),
{
    if events.len() == 0 {
        0
    } else {
        (match events[0] {
            CopyEvent::UpstreamData(n) => if relay.accepts(events[0]) {
                n as nat
            } else {
                0
            },
            _ => 0,
        }) + upstream_bytes(relay.next(events[0]).0, events.drop_first())
    }
}

/// The end of one side's stream shuts down the write half towards the other
/// side, once; the other direction stays open until its own end; and the
/// relay is finished exactly when both have ended or a copy failed.
pub proof fn lemma_half_close(relay: Relay, event: CopyEvent)
    requires
        !relay.is_finished(),
    ensures
        relay.next(event).1 == CopyAction::ShutdownUpstream <==> event == CopyEvent::ClientEof
            && !relay.client_done,
        relay.next(event).1 == CopyAction::ShutdownClient <==> event == CopyEvent::UpstreamEof
            && !relay.upstream_done,
        event == CopyEvent::ClientEof ==> relay.next(event).0.upstream_done == relay.upstream_done,
        event == CopyEvent::UpstreamEof ==> relay.next(event).0.client_done == relay.client_done,
        event == CopyEvent::ClientEof || event == CopyEvent::UpstreamEof || event
            == CopyEvent::Failed ==> relay.next(event).0.next(event).1 == CopyAction::Nothing,
        relay.next(event).0.is_finished() <==> event == CopyEvent::Failed || (event
            == CopyEvent::ClientEof && relay.upstream_done) || (event == CopyEvent::UpstreamEof
            && relay.client_done),
{
}

/// In each direction the relay has counted every byte that was reported to
/// it while that direction was open: its counters are what they were plus
/// those bytes, as long as that fits in 64 bits.
pub proof fn lemma_bytes_counted(relay: Relay, events: Seq<CopyEvent>)
    ensures
        run(relay, events).sent == if relay.sent + client_bytes(relay, events) > u64::MAX {
            u64::MAX as int
        } else {
            relay.sent + client_bytes(relay, events)
        },
        run(relay, events).received == if relay.received + upstream_bytes(relay, events)
            > u64::MAX {
            u64::MAX as int
        } else {
            relay.received + upstream_bytes(relay, events)
        },
    decreases events.len(),
{
    if events.len() > 0 {
        lemma_bytes_counted(relay.next(events[0]).0, events.drop_first());
    }
}

} // verus!
