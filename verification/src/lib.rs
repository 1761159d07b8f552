//! Replication orchestrator for a set of append-only feeds shared over a
//! dynamic set of connections.
//!
//! The orchestrator keeps the live registry of feeds offered for
//! replication, one subscriber hub for best-effort broadcasts, and one
//! reactive session per connection. Each session merges two event
//! sources — its wire session's events and its private hub subscription —
//! and reacts to them one at a time: on handshake it opens every feed
//! registered at that moment, and a feed registered later is opened when
//! its availability announcement is consumed. Every feed is offered to a
//! session exactly once; the proofs of that and of the other stated
//! properties live in [`laws`].
//!
//! The asynchronous shell that owns transports, locks and tasks calls
//! into this crate for every decision and performs the returned actions
//! on the wire.

pub mod bytes;
pub mod events;
pub mod feed;
pub mod hub;
pub mod keys;
pub mod laws;
pub mod orchestrator;
pub mod registry;
pub mod session;

pub use crate::events::ReplicatorEvent;
pub use crate::orchestrator::Replicator;
