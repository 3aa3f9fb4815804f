//! Status events for the health monitor and for disconnects.
//!
//! The monitor itself is a long-lived loop in the embedding program: on
//! each tick it snapshots the registry's identifiers, probes every
//! session with a trivial statement, and emits the event this module
//! decides. A failing probe becomes an event, never an error, and never
//! removes the session.

use vstd::prelude::*;

verus! {

/// The liveness of one session as last observed.
#[derive(Clone, Copy, PartialEq, Eq, Structural, Debug)]
pub enum ConnStatus {
    Connected,
    Disconnected,
}

/// One emission on the status channel: a session identifier and its
/// observed liveness.
#[derive(Clone, Copy, PartialEq, Eq, Structural, Debug)]
pub struct StatusEvent {
    pub id: u128,
    pub status: ConnStatus,
}

/// The event one probe outcome yields: connected on success,
/// disconnected on failure, always for the probed identifier.
pub fn probe_event(id: u128, probe_ok: bool) -> (e: StatusEvent)
    ensures
        e.id == id,
        e.status == if probe_ok {
            ConnStatus::Connected
        } else {
            ConnStatus::Disconnected
        },
{
    StatusEvent {
        id,
        status: if probe_ok {
            ConnStatus::Connected
        } else {
            ConnStatus::Disconnected
        },
    }
}

/// The event a disconnect emits immediately: disconnected, for the
/// removed identifier.
pub fn disconnect_event(id: u128) -> (e: StatusEvent)
    ensures
        e.id == id,
        e.status == ConnStatus::Disconnected,
{
    StatusEvent { id, status: ConnStatus::Disconnected }
}

} // verus!
