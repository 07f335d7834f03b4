//! Coordination kernel of an environmental sensor node.
//!
//! A fixed set of long-lived cooperative tasks shares one core: a sensor
//! sampling task, a display rendering task and a radio task. They exchange
//! data only through a single-slot, latest-value-wins broadcast cell, and
//! each owns one physical bus exclusively. This crate holds the verified
//! core of that layer: the slot and its broadcast laws, the two task state
//! machines with their transition contracts, the raw-measurement decoding,
//! and the boot-time bring-up sequencer. Driving the actual hardware
//! (bus transfers, timers, the radio stack) is left to the unverified
//! runner around this crate.

use vstd::prelude::*;

pub mod bringup;
pub mod display;
pub mod slot;
pub mod temperature;

verus! {

/// How one transaction on a peripheral bus ended. Transient transport
/// failures are the only failure the collaborators report; what a task does
/// about one is that task's policy.
#[derive(Clone, Copy, Debug, PartialEq, Eq, Structural)]
pub enum BusOutcome {
    /// The transaction completed.
    Done,
    /// The transaction failed in transport.
    TransportFault,
}

} // verus!
