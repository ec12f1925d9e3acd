//! A small real-time synchronization relay, embedded in a host application.
//!
//! Multiple clients on the same network share one evolving document by
//! exchanging full-state snapshots over persistent connections. This library
//! holds the relay's data and decisions: the shared relay state (latest
//! snapshot, live-client counter), the bounded drop-oldest fan-out channel
//! that distributes snapshots to every connected client, the per-connection
//! handler logic, and the construction of the relay's advertised address.
//! The surrounding application owns the sockets and the task scheduler and
//! drives these functions from its accept and message loops.

pub mod channel;
pub mod counting;
pub mod handler;
pub mod relay;
pub mod url;
