//! Per-connection handler decisions.
//!
//! One handler drives each connected peer: after the protocol upgrade it
//! enters the relay, then waits concurrently on the peer's inbound frames
//! and on the fan-out channel, and leaves the relay exactly once when its
//! loop ends. The waiting, the sockets and the task live in the host
//! application; every decision — what a frame does to the relay state, what
//! to send back, when the loop must end, and which fan-out messages to
//! forward — is made here. A failed protocol upgrade never reaches these
//! functions: such a connection exits without any state change.

use vstd::prelude::*;

use crate::channel::step_position;
use crate::channel::Recv;
use crate::channel::Subscriber;
use crate::relay::set_snapshot_spec;
use crate::relay::Relay;
use crate::relay::RelayView;

verus! {

/// What the peer's next inbound frame amounted to.
pub enum ClientEvent {
    /// A binary frame: a full document snapshot to store and republish.
    Binary(Vec<u8>),
    /// A liveness probe, with its payload.
    Ping(Vec<u8>),
    /// The peer signalled close, or its stream ended.
    Close,
    /// Reading from the peer failed.
    TransportError,
    /// Any other frame kind; ignored.
    Other,
}

/// What the handler does after one inbound frame.
pub struct Step {
    /// A probe answer to send immediately, carrying the probe's payload.
    pub pong: Option<Vec<u8>>,
    /// Whether the connection's event loop must end.
    pub disconnect: bool,
}

/// What a freshly accepted connection is handed.
pub struct Connected {
    /// The live client count after this connection was accepted; the host
    /// is notified of it.
    pub count: usize,
    /// The connection's first outbound message: exactly the stored
    /// snapshot, or nothing when none is stored yet.
    pub initial: Option<Vec<u8>>,
    /// This connection's subscription into the fan-out channel.
    pub sub: Subscriber,
}

/// A connection that completed its protocol upgrade enters the relay: the
/// live-client counter rises by one, the stored snapshot — if one exists —
/// becomes the connection's first outbound message, and the connection
/// subscribes to the fan-out channel, seeing exactly the messages published
/// from now on. Nothing is published and the snapshot is untouched.
pub fn on_connect(relay: &mut Relay) -> (c: Connected)
    requires
        old(relay).wf(),
        old(relay)@.client_count < usize::MAX,
    ensures
        final(relay).wf(),
        final(relay)@ == (RelayView {
            client_count: old(relay)@.client_count + 1,
            ..old(relay)@
        }),
        c.count as nat == old(relay)@.client_count + 1,
        c.initial is Some <==> old(relay)@.snapshot is Some,
        c.initial matches Some(doc) ==> old(relay)@.snapshot == Some(doc@),
        c.sub.position() == old(relay)@.history.len(),
{
    let count = relay.increment_count();
    let initial = relay.get_snapshot();
    let sub = relay.subscribe();
    Connected { count, initial, sub }
}

/// One inbound frame from the peer. A binary frame replaces the snapshot
/// and republishes it under this client's identity, in one step. A liveness
/// probe is answered immediately with a pong carrying the identical payload
/// and changes nothing. A close or a transport error ends the loop and
/// changes nothing; whatever the frame, the client count is untouched —
/// leaving the relay happens exactly once, in the loop's cleanup.
pub fn on_client_event(relay: &mut Relay, client: u64, ev: ClientEvent) -> (step: Step)
    requires
        old(relay).wf(),
        old(relay)@.history.len() < usize::MAX,
    ensures
        final(relay).wf(),
        final(relay)@.client_count == old(relay)@.client_count,
        ev matches ClientEvent::Binary(doc) ==> (final(relay)@ == set_snapshot_spec(
            old(relay)@,
            Some(client),
            doc@,
        ) && step.pong is None && !step.disconnect),
        ev matches ClientEvent::Ping(p) ==> (final(relay)@ == old(relay)@ && (step.pong
            matches Some(q) && q@ == p@) && !step.disconnect),
        ev is Close ==> final(relay)@ == old(relay)@ && step.pong is None && step.disconnect,
        ev is TransportError ==> final(relay)@ == old(relay)@ && step.pong is None
            && step.disconnect,
        ev is Other ==> final(relay)@ == old(relay)@ && step.pong is None && !step.disconnect,
{
    match ev {
        ClientEvent::Binary(doc) => {
            relay.set_snapshot(Some(client), doc);
            Step { pong: None, disconnect: false }
        },
        ClientEvent::Ping(p) => Step { pong: Some(p), disconnect: false },
        ClientEvent::Close => Step { pong: None, disconnect: true },
        ClientEvent::TransportError => Step { pong: None, disconnect: true },
        ClientEvent::Other => Step { pong: None, disconnect: false },
    }
}

/// What one poll of a connection's subscription asks the handler to do.
pub enum Forward {
    /// Nothing is pending: wait for the next publish.
    Idle,
    /// Something was consumed but nothing is to be sent: this connection's
    /// own publish, or a lag notice. Poll again.
    Skip,
    /// Send this payload to the peer.
    Deliver(Vec<u8>),
}

/// One poll of this connection's subscription. A pending message published
/// by anyone else — another client or the host — is to be forwarded exactly
/// as published; this connection's own publishes are not echoed back to it.
/// Nothing is sent when the channel is idle or when the subscriber lagged
/// past the retention bound (its cursor then jumps to the oldest retained
/// message and newer messages still arrive in publish order). The relay
/// state is never touched.
pub fn on_fanout(relay: &Relay, sub: &mut Subscriber, client: u64) -> (r: Forward)
    requires
        relay.wf(),
        old(sub).position() <= relay@.history.len(),
    ensures
        final(sub).position() == step_position(
            relay@.history.len(),
            relay@.oldest(),
            old(sub).position(),
        ),
        old(sub).position() <= final(sub).position() <= relay@.history.len(),
        ({
            let n = relay@.history.len();
            let cur = old(sub).position();
            if cur == n {
                r is Idle
            } else if cur < relay@.oldest() {
                r is Skip
            } else if relay@.history[cur as int].origin == Some(client) {
                r is Skip
            } else {
                r matches Forward::Deliver(doc) && doc@ == relay@.history[cur as int].payload
            }
        }),
{
    match relay.recv(sub) {
        Recv::Empty => Forward::Idle,
        Recv::Lagged(_) => Forward::Skip,
        Recv::Delivered(m) => {
            let mine = match m.origin {
                Some(o) => o == client,
                None => false,
            };
            if mine {
                Forward::Skip
            } else {
                Forward::Deliver(m.payload)
            }
        },
    }
}

} // verus!
