//! The fan-out channel: a bounded, multi-consumer broadcast primitive with
//! drop-oldest-on-overflow semantics.
//!
//! One publisher reaches every subscriber. The channel retains at most
//! `capacity` of the most recently published messages; a subscriber that
//! falls further behind than that has the oldest entries evicted unseen —
//! never reordered and never altered. The lossiness is deliberate: every
//! message carries the full document state, so a subscriber that misses
//! intermediate messages still converges on its next delivery, and one
//! lagging subscriber can never stall the publisher or any other subscriber.

use vstd::prelude::*;

verus! {

/// One published message: a full document snapshot tagged with the client it
/// came from (`None` when the host pushed it).
pub struct Msg {
    pub origin: Option<u64>,
    pub payload: Vec<u8>,
}

/// The mathematical image of a message.
#[verifier::ext_equal]
pub ghost struct MsgView {
    pub origin: Option<u64>,
    pub payload: Seq<u8>,
}

impl View for Msg {
    type V = MsgView;

    open spec fn view(&self) -> MsgView {
        MsgView { origin: self.origin, payload: self.payload@ }
    }
}

/// Copies a byte vector; the copy holds exactly the same bytes.
pub(crate) fn clone_bytes(v: &Vec<u8>) -> (r: Vec<u8>)
    ensures
        r@ == v@,
{
    let r = v.clone();
    proof {
        assert(r@ =~= v@);
    }
    r
}

/// The bounded drop-oldest broadcast channel. The ghost field `hist` records
/// every message ever published; the executable buffer retains the most
/// recent `capacity` of them.
pub struct FanOut {
    cap: usize,
    buf: Vec<Msg>,
    published: usize,
    hist: Ghost<Seq<MsgView>>,
}

/// A subscription handle: the index into the publish history of the next
/// message this subscriber has yet to consume.
pub struct Subscriber {
    cursor: usize,
}

/// What one poll of the channel yields for a subscriber.
pub enum Recv {
    /// Nothing pending: the subscriber has consumed the whole history.
    Empty,
    /// The subscriber lagged past the retention bound; this many messages
    /// were evicted unseen and the cursor moved to the oldest retained one.
    Lagged(usize),
    /// The next pending message, exactly as published.
    Delivered(Msg),
}

impl Subscriber {
    /// The index of the next message this subscriber will consume.
    pub closed spec fn position(self) -> nat {
        self.cursor as nat
    }
}

/// How one poll moves a subscriber's cursor: not at all when nothing is
/// pending, to the oldest retained message when it has lagged past the
/// retention bound, else one step forward.
pub open spec fn step_position(n: nat, oldest: nat, cur: nat) -> nat {
    if cur >= n {
        cur
    } else if cur < oldest {
        oldest
    } else {
        (cur + 1) as nat
    }
}

impl FanOut {
    /// Every message ever published, in publish order.
    pub closed spec fn history(self) -> Seq<MsgView> {
        self.hist@
    }

    /// The retention bound: how many of the most recent messages are kept.
    pub closed spec fn capacity(self) -> nat {
        self.cap as nat
    }

    /// How many messages are currently retained.
    pub open spec fn retained(self) -> nat {
        if self.history().len() <= self.capacity() {
            self.history().len()
        } else {
            self.capacity()
        }
    }

    /// The history index of the oldest message still retained.
    pub open spec fn oldest(self) -> nat {
        (self.history().len() - self.retained()) as nat
    }

    /// The executable buffer holds exactly the retained tail of the history.
    pub closed spec fn wf(self) -> bool {
        &&& self.cap >= 1
        &&& self.hist@.len() == self.published
        &&& self.buf.len() == self.retained()
        &&& forall|i: int|
            0 <= i < self.buf.len() ==> self.buf[i]@ == self.hist@[self.oldest() + i]
    }

    /// A fresh channel that retains at most `cap` messages.
    pub fn new(cap: usize) -> (c: FanOut)
        requires
            1 <= cap,
        ensures
            c.wf(),
            c.capacity() == cap as nat,
            c.history() == Seq::<MsgView>::empty(),
    {
        FanOut { cap, buf: Vec::new(), published: 0, hist: Ghost(Seq::empty()) }
    }

    /// Publishes a message to every subscriber: appends it to the history,
    /// evicting the oldest retained message if the buffer is full. Never
    /// blocks on, and is never refused because of, a slow subscriber.
    pub fn publish(&mut self, m: Msg)
        requires
            old(self).wf(),
            old(self).history().len() < usize::MAX,
        ensures
            final(self).wf(),
            final(self).capacity() == old(self).capacity(),
            final(self).history() == old(self).history().push(m@),
    {
        let ghost pre = *self;
        let ghost mv = m@;
        if self.buf.len() == self.cap {
            self.buf.remove(0);
        }
        self.buf.push(m);
        self.published = self.published + 1;
        proof {
            self.hist@ = self.hist@.push(mv);
            assert forall|i: int|
                0 <= i < self.buf.len() implies self.buf[i]@ == self.hist@[self.oldest() + i]
            by {
                if i < self.buf.len() - 1 {
                    if pre.buf.len() == pre.cap {
                        assert(self.buf[i] == pre.buf[i + 1]);
                    } else {
                        assert(self.buf[i] == pre.buf[i]);
                    }
                }
            }
        }
    }

    /// How many messages have ever been published.
    pub fn published_count(&self) -> (n: usize)
        requires
            self.wf(),
        ensures
            n as nat == self.history().len(),
    {
        self.published
    }

    /// A new subscription, positioned at the end of the current history: it
    /// will see exactly the messages published after this call.
    pub fn subscribe(&self) -> (s: Subscriber)
        requires
            self.wf(),
        ensures
            s.position() == self.history().len(),
    {
        Subscriber { cursor: self.published }
    }

    /// One poll on behalf of a subscriber. A delivered message is exactly
    /// the message published at the subscriber's position — unmodified and
    /// in publish order; the cursor never moves backward. A message is
    /// passed over undelivered only when the subscriber has lagged past the
    /// retention bound.
    pub fn recv(&self, sub: &mut Subscriber) -> (r: Recv)
        requires
            self.wf(),
            old(sub).position() <= self.history().len(),
        ensures
            final(sub).position() == step_position(
                self.history().len(),
                self.oldest(),
                old(sub).position(),
            ),
            old(sub).position() <= final(sub).position() <= self.history().len(),
            ({
                let n = self.history().len();
                let cur = old(sub).position();
                if cur == n {
                    r is Empty
                } else if cur < self.oldest() {
                    r matches Recv::Lagged(k) && k as nat == (self.oldest() - cur) as nat
                } else {
                    r matches Recv::Delivered(m) && m@ == self.history()[cur as int]
                }
            }),
    {
        let ghost cur0 = sub.cursor as nat;
        let n = self.published;
        let oldest = n - self.buf.len();
        if sub.cursor == n {
            Recv::Empty
        } else if sub.cursor < oldest {
            let skipped = oldest - sub.cursor;
            sub.cursor = oldest;
            Recv::Lagged(skipped)
        } else {
            let idx = sub.cursor - oldest;
            let origin = self.buf[idx].origin;
            let payload = clone_bytes(&self.buf[idx].payload);
            sub.cursor = sub.cursor + 1;
            let m = Msg { origin, payload };
            proof {
                assert(m@ =~= self.history()[cur0 as int]);
            }
            Recv::Delivered(m)
        }
    }
}

/// Delivery is lossy only past the retention bound. When one poll moves a
/// subscriber's cursor beyond a pending message `k`, either that very poll
/// delivered message `k` itself (`cur == k`, and by `recv`'s contract the
/// result is exactly `history()[k]`), or message `k` had already been
/// evicted (`k < oldest`). A retained message is never passed over.
pub proof fn lemma_no_silent_skip(n: nat, oldest: nat, cur: nat, k: nat)
    requires
        oldest <= n,
        cur <= k < n,
        step_position(n, oldest, cur) > k,
    ensures
        cur < oldest ==> k < oldest,
        oldest <= cur ==> cur == k,
{
}

/// A subscriber with pending messages always makes progress: one poll moves
/// the cursor strictly forward and never past the end of the history, so
/// every pending message is eventually either delivered or evicted. The
/// cursor never moves backward, so deliveries come in publish order.
pub proof fn lemma_progress(n: nat, oldest: nat, cur: nat)
    requires
        oldest <= n,
        cur < n,
    ensures
        cur < step_position(n, oldest, cur) <= n,
        forall|c: nat| c <= step_position(n, oldest, c),
{
}

/// The cursor after `t` polls of a channel whose history is static.
pub open spec fn cursor_after(n: nat, oldest: nat, cur: nat, t: nat) -> nat
    decreases t,
{
    if t == 0 {
        cur
    } else {
        step_position(n, oldest, cursor_after(n, oldest, cur, (t - 1) as nat))
    }
}

/// Polling `t + 1` times is one poll followed by `t` polls.
proof fn lemma_cursor_after_front(n: nat, oldest: nat, cur: nat, t: nat)
    ensures
        cursor_after(n, oldest, cur, t + 1) == cursor_after(
            n,
            oldest,
            step_position(n, oldest, cur),
            t,
        ),
    decreases t,
{
    if t == 0 {
        assert(cursor_after(n, oldest, cur, 1) == step_position(
            n,
            oldest,
            cursor_after(n, oldest, cur, 0),
        ));
    } else {
        lemma_cursor_after_front(n, oldest, cur, (t - 1) as nat);
        assert(cursor_after(n, oldest, cur, t + 1) == step_position(
            n,
            oldest,
            cursor_after(n, oldest, cur, t),
        ));
        assert(cursor_after(n, oldest, step_position(n, oldest, cur), t) == step_position(
            n,
            oldest,
            cursor_after(n, oldest, step_position(n, oldest, cur), (t - 1) as nat),
        ));
    }
}

/// Polling never moves a subscriber backward: after any further polls the
/// cursor is at least where it was. Deliveries therefore come in publish
/// order — a later poll can never yield an earlier message.
pub proof fn lemma_cursor_monotone(n: nat, oldest: nat, cur: nat, t1: nat, t2: nat)
    requires
        t1 <= t2,
    ensures
        cursor_after(n, oldest, cur, t1) <= cursor_after(n, oldest, cur, t2),
    decreases t2 - t1,
{
    if t1 < t2 {
        lemma_cursor_monotone(n, oldest, cur, t1, (t2 - 1) as nat);
    }
}

/// Eventual delivery: while message `k` stays within the retention bound, a
/// subscriber positioned at or before `k` reaches it exactly — after some
/// number of polls its cursor stands on `k`, and by `recv`'s contract that
/// poll delivers `history()[k]` unmodified. So every snapshot published
/// while a client is subscribed is delivered to that client, unmodified and
/// in publish order, unless the client lags past the retention bound.
pub proof fn lemma_eventual_delivery(n: nat, oldest: nat, cur: nat, k: nat)
    requires
        oldest <= k < n,
        cur <= k,
    ensures
        exists|t: nat| cursor_after(n, oldest, cur, t) == k,
    decreases k - cur,
{
    if cur == k {
        assert(cursor_after(n, oldest, cur, 0) == k);
    } else {
        let s = step_position(n, oldest, cur);
        assert(s <= k);
        lemma_eventual_delivery(n, oldest, s, k);
        let t = choose|t: nat| cursor_after(n, oldest, s, t) == k;
        lemma_cursor_after_front(n, oldest, cur, t);
        assert(cursor_after(n, oldest, cur, t + 1) == k);
    }
}

} // verus!
