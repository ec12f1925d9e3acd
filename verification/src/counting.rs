//! Bookkeeping for the live-client counter.
//!
//! Every accepted connection raises the count by one and every terminated
//! connection lowers it by one, saturating at zero, so the counter can never
//! go negative. When the events are well formed — no prefix of the history
//! terminates more connections than it accepted, which the handler
//! guarantees by decrementing exactly once, and only after its increment —
//! the counter equals accepted minus terminated exactly.

use vstd::prelude::*;

verus! {

/// Saturating decrement: how the live-client counter falls on a disconnect.
pub open spec fn dec_saturating(c: nat) -> nat {
    if c == 0 {
        0
    } else {
        (c - 1) as nat
    }
}

/// One change to the set of live connections.
pub enum CountEvent {
    /// A connection completed its handshake and was accepted.
    Connect,
    /// A connection ended: ordinary close, peer close, or transport error.
    Disconnect,
}

/// The counter after one event.
pub open spec fn count_step(c: nat, e: CountEvent) -> nat {
    match e {
        CountEvent::Connect => c + 1,
        CountEvent::Disconnect => dec_saturating(c),
    }
}

/// The counter after a whole history of events, starting from `c0`.
pub open spec fn count_after(c0: nat, es: Seq<CountEvent>) -> nat
    decreases es.len(),
{
    if es.len() == 0 {
        c0
    } else {
        count_step(count_after(c0, es.drop_last()), es.last())
    }
}

/// How many of the events accept a connection.
pub open spec fn num_connects(es: Seq<CountEvent>) -> nat
    decreases es.len(),
{
    if es.len() == 0 {
        0
    } else {
        num_connects(es.drop_last()) + if es.last() is Connect {
            1nat
        } else {
            0nat
        }
    }
}

/// How many of the events terminate a connection.
pub open spec fn num_disconnects(es: Seq<CountEvent>) -> nat
    decreases es.len(),
{
    if es.len() == 0 {
        0
    } else {
        num_disconnects(es.drop_last()) + if es.last() is Disconnect {
            1nat
        } else {
            0nat
        }
    }
}

/// The counter never goes negative, whatever the events were: it is a
/// natural number, and a disconnect saturates at zero instead of crossing it.
pub proof fn lemma_count_never_negative(c0: nat, es: Seq<CountEvent>)
    ensures
        count_after(c0, es) >= 0,
{
}

/// For any sequence of connect and disconnect events in which no prefix
/// terminates more connections than it accepted, the counter after
/// processing, starting from zero, equals accepted minus terminated.
pub proof fn lemma_count_is_connects_minus_disconnects(es: Seq<CountEvent>)
    requires
        forall|i: int|
            0 <= i <= es.len() ==> num_disconnects(#[trigger] es.take(i)) <= num_connects(
                es.take(i),
            ),
    ensures
        count_after(0, es) == num_connects(es) - num_disconnects(es),
    decreases es.len(),
{
    if es.len() == 0 {
    } else {
        let prefix = es.drop_last();
        assert forall|i: int|
            0 <= i <= prefix.len() implies num_disconnects(#[trigger] prefix.take(i))
            <= num_connects(prefix.take(i)) by {
            assert(prefix.take(i) =~= es.take(i));
        }
        lemma_count_is_connects_minus_disconnects(prefix);
        assert(es.take(es.len() as int) =~= es);
        if es.last() is Disconnect {
            // the prefix condition at the full length forces the counter
            // to be positive before a disconnect, so saturation never bites
            assert(num_disconnects(es) <= num_connects(es));
        }
    }
}

} // verus!
