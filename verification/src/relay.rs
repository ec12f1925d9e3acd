//! The shared relay state: the fixed listening port, the fan-out channel,
//! the latest accepted document snapshot, and the live-client counter.
//!
//! One relay value is constructed when the relay starts and is shared by the
//! listener and every connection handler; the host application guards it
//! with short critical sections that are never held across network I/O. The
//! snapshot is content-opaque: the relay never parses it, and every update
//! replaces it whole — last write wins. A snapshot pushed by the host is
//! treated exactly like one received from a client: stored and published in
//! the same single step, differing only in its recorded origin.

use vstd::prelude::*;

use crate::channel::clone_bytes;
use crate::channel::FanOut;
use crate::channel::Msg;
use crate::channel::MsgView;
use crate::channel::Recv;
use crate::channel::Subscriber;
use crate::channel::step_position;
use crate::counting::count_step;
use crate::counting::dec_saturating;
use crate::counting::CountEvent;

verus! {

/// The mathematical image of the relay state.
#[verifier::ext_equal]
pub ghost struct RelayView {
    /// The fixed listening port, immutable after construction.
    pub port: u16,
    /// The latest accepted snapshot, or none before the first update.
    pub snapshot: Option<Seq<u8>>,
    /// The number of currently live connections.
    pub client_count: nat,
    /// The fan-out channel's retention bound.
    pub capacity: nat,
    /// Every message ever published on the fan-out channel, in order.
    pub history: Seq<MsgView>,
}

impl RelayView {
    /// How many published messages the fan-out channel still retains.
    pub open spec fn retained(self) -> nat {
        if self.history.len() <= self.capacity {
            self.history.len()
        } else {
            self.capacity
        }
    }

    /// The history index of the oldest message still retained.
    pub open spec fn oldest(self) -> nat {
        (self.history.len() - self.retained()) as nat
    }
}

/// Replace-and-publish as one atomic step: the stored snapshot becomes
/// `doc`, and `doc` is appended to the publish history under `origin`.
/// Nothing else changes — in particular not the client count.
pub open spec fn set_snapshot_spec(r: RelayView, origin: Option<u64>, doc: Seq<u8>) -> RelayView {
    RelayView {
        snapshot: Some(doc),
        history: r.history.push(MsgView { origin, payload: doc }),
        ..r
    }
}

/// The shared relay state.
pub struct Relay {
    port: u16,
    channel: FanOut,
    snapshot: Option<Vec<u8>>,
    client_count: usize,
}

impl View for Relay {
    type V = RelayView;

    closed spec fn view(&self) -> RelayView {
        RelayView {
            port: self.port,
            snapshot: match self.snapshot {
                Some(doc) => Some(doc@),
                None => None,
            },
            client_count: self.client_count as nat,
            capacity: self.channel.capacity(),
            history: self.channel.history(),
        }
    }
}

impl Relay {
    /// The fan-out channel's buffer matches its publish history.
    pub closed spec fn wf(self) -> bool {
        self.channel.wf()
    }

    /// A fresh relay on the given port, with no snapshot, no clients, and a
    /// fan-out channel that retains at most `cap` messages.
    pub fn new(port: u16, cap: usize) -> (r: Relay)
        requires
            1 <= cap,
        ensures
            r.wf(),
            r@.port == port,
            r@.snapshot is None,
            r@.client_count == 0,
            r@.capacity == cap as nat,
            r@.history == Seq::<MsgView>::empty(),
    {
        Relay { port, channel: FanOut::new(cap), snapshot: None, client_count: 0 }
    }

    /// The fixed listening port.
    pub fn port(&self) -> (p: u16)
        ensures
            p == self@.port,
    {
        self.port
    }

    /// A copy of the latest snapshot, or none before the first update.
    pub fn get_snapshot(&self) -> (r: Option<Vec<u8>>)
        ensures
            r is Some <==> self@.snapshot is Some,
            r matches Some(doc) ==> self@.snapshot == Some(doc@),
    {
        match &self.snapshot {
            Some(doc) => Some(clone_bytes(doc)),
            None => None,
        }
    }

    /// Replaces the stored snapshot and publishes it on the fan-out channel,
    /// as one step: last write wins regardless of call ordering. `origin`
    /// records which client sent the snapshot, or none when the host pushed
    /// it; both are treated identically. The client count is untouched.
    pub fn set_snapshot(&mut self, origin: Option<u64>, doc: Vec<u8>)
        requires
            old(self).wf(),
            old(self)@.history.len() < usize::MAX,
        ensures
            final(self).wf(),
            final(self)@ == set_snapshot_spec(old(self)@, origin, doc@),
    {
        let ghost pre = self@;
        let ghost dv = doc@;
        let stored = clone_bytes(&doc);
        self.snapshot = Some(stored);
        self.channel.publish(Msg { origin, payload: doc });
        proof {
            assert(self@ =~= set_snapshot_spec(pre, origin, dv));
        }
    }

    /// How many messages have ever been published on the fan-out channel.
    /// The host checks it against the machine limit before a publish.
    pub fn published_count(&self) -> (n: usize)
        requires
            self.wf(),
        ensures
            n as nat == self@.history.len(),
    {
        self.channel.published_count()
    }

    /// The current live client count.
    pub fn get_count(&self) -> (n: usize)
        ensures
            n as nat == self@.client_count,
    {
        self.client_count
    }

    /// One more live connection; returns the new count, which the host is
    /// notified of. Nothing else changes.
    pub fn increment_count(&mut self) -> (n: usize)
        requires
            old(self).wf(),
            old(self)@.client_count < usize::MAX,
        ensures
            final(self).wf(),
            n as nat == count_step(old(self)@.client_count, CountEvent::Connect),
            final(self)@ == (RelayView {
                client_count: old(self)@.client_count + 1,
                ..old(self)@
            }),
    {
        let ghost pre = self@;
        self.client_count = self.client_count + 1;
        proof {
            assert(self@ =~= (RelayView { client_count: pre.client_count + 1, ..pre }));
        }
        self.client_count
    }

    /// One live connection fewer; returns the new count, which the host is
    /// notified of. The count saturates at zero and never goes negative.
    /// Nothing else changes.
    pub fn decrement_count(&mut self) -> (n: usize)
        requires
            old(self).wf(),
        ensures
            final(self).wf(),
            n as nat == count_step(old(self)@.client_count, CountEvent::Disconnect),
            final(self)@ == (RelayView {
                client_count: dec_saturating(old(self)@.client_count),
                ..old(self)@
            }),
    {
        let ghost pre = self@;
        if self.client_count > 0 {
            self.client_count = self.client_count - 1;
        }
        proof {
            assert(self@ =~= (RelayView {
                client_count: dec_saturating(pre.client_count),
                ..pre
            }));
        }
        self.client_count
    }

    /// A new subscription into the fan-out channel, positioned at the end of
    /// the publish history: it sees exactly the messages published after
    /// this call.
    pub fn subscribe(&self) -> (s: Subscriber)
        requires
            self.wf(),
        ensures
            s.position() == self@.history.len(),
    {
        self.channel.subscribe()
    }

    /// One poll of a subscription against the fan-out channel; see
    /// `FanOut::recv`. A delivered message is exactly the message published
    /// at the subscriber's position; a message is passed over undelivered
    /// only when the subscriber lagged past the retention bound.
    pub fn recv(&self, sub: &mut Subscriber) -> (r: Recv)
        requires
            self.wf(),
            old(sub).position() <= self@.history.len(),
        ensures
            final(sub).position() == step_position(
                self@.history.len(),
                self@.oldest(),
                old(sub).position(),
            ),
            old(sub).position() <= final(sub).position() <= self@.history.len(),
            ({
                let n = self@.history.len();
                let cur = old(sub).position();
                if cur == n {
                    r is Empty
                } else if cur < self@.oldest() {
                    r matches Recv::Lagged(k) && k as nat == (self@.oldest() - cur) as nat
                } else {
                    r matches Recv::Delivered(m) && m@ == self@.history[cur as int]
                }
            }),
    {
        self.channel.recv(sub)
    }
}

/// Last write wins: replace-and-publish is one atomic step, so storing `s1`
/// and then `s2` — from any two sources, client or host, in any
/// interleaving of the two steps — leaves the stored snapshot equal to
/// `s2`, and the two publishes stand in the history in exactly that order.
pub proof fn lemma_last_write_wins(
    r: RelayView,
    o1: Option<u64>,
    s1: Seq<u8>,
    o2: Option<u64>,
    s2: Seq<u8>,
)
    ensures
        set_snapshot_spec(set_snapshot_spec(r, o1, s1), o2, s2).snapshot == Some(s2),
        set_snapshot_spec(set_snapshot_spec(r, o1, s1), o2, s2).history == r.history.push(
            (MsgView { origin: o1, payload: s1 }),
        ).push((MsgView { origin: o2, payload: s2 })),
        set_snapshot_spec(set_snapshot_spec(r, o1, s1), o2, s2).client_count == r.client_count,
{
}

} // verus!
