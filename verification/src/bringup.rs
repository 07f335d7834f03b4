//! The bring-up sequencer: boot-time claiming of the physical buses.
//!
//! The sequencer runs once, synchronously, before any task starts. It claims
//! each physical bus exactly once, builds one exclusive handle per bus, and
//! hands one handle to each task. A handle is neither cloneable nor
//! copyable and can only be built by claiming the board, so no two tasks can
//! ever hold a handle to the same physical bus: exclusive ownership is
//! structural, not a runtime lock.

use vstd::prelude::*;

verus! {

/// Identity of one physical communication bus or controller on the board.
#[derive(Clone, Copy, Debug, PartialEq, Eq, Structural)]
pub enum BusId {
    /// The display's serial bus with its chip-select, reset and
    /// data/command lines.
    DisplayBus,
    /// The sensor's two-wire bus.
    SensorBus,
    /// The radio controller.
    RadioCtrl,
}

/// Capability granting sole access to the display bus for the holder's
/// lifetime. Deliberately neither `Clone` nor `Copy`, and constructed only
/// by claiming the board.
#[derive(Debug)]
pub struct DisplayBusHandle {
    bus: BusId,
}

/// Capability granting sole access to the sensor bus. Neither `Clone` nor
/// `Copy`, and constructed only by claiming the board.
#[derive(Debug)]
pub struct SensorBusHandle {
    bus: BusId,
}

/// Capability granting sole access to the radio controller. Neither `Clone`
/// nor `Copy`, and constructed only by claiming the board.
#[derive(Debug)]
pub struct RadioHandle {
    bus: BusId,
}

impl DisplayBusHandle {
    /// The physical bus this handle owns.
    pub closed spec fn bus(&self) -> BusId {
        self.bus
    }

    /// Read the identity of the owned bus.
    pub fn bus_id(&self) -> (b: BusId)
        ensures
            b == self.bus(),
    {
        self.bus
    }
}

impl SensorBusHandle {
    /// The physical bus this handle owns.
    pub closed spec fn bus(&self) -> BusId {
        self.bus
    }

    /// Read the identity of the owned bus.
    pub fn bus_id(&self) -> (b: BusId)
        ensures
            b == self.bus(),
    {
        self.bus
    }
}

impl RadioHandle {
    /// The physical bus this handle owns.
    pub closed spec fn bus(&self) -> BusId {
        self.bus
    }

    /// Read the identity of the owned bus.
    pub fn bus_id(&self) -> (b: BusId)
        ensures
            b == self.bus(),
    {
        self.bus
    }
}

/// The board's peripherals before any task has claimed them. Built once at
/// boot and consumed, whole, by `claim`.
pub struct BoardPeripherals {
    display: DisplayBusHandle,
    sensor: SensorBusHandle,
    radio: RadioHandle,
}

impl BoardPeripherals {
    /// Each embedded handle names the bus it stands for.
    #[verifier::type_invariant]
    spec fn wf(self) -> bool {
        &&& self.display.bus() == BusId::DisplayBus
        &&& self.sensor.bus() == BusId::SensorBus
        &&& self.radio.bus() == BusId::RadioCtrl
    }

    /// Gather the board's peripherals. Done once at boot, before any task
    /// runs; the board is then consumed by `claim`.
    pub fn new() -> Self {
        BoardPeripherals {
            display: DisplayBusHandle { bus: BusId::DisplayBus },
            sensor: SensorBusHandle { bus: BusId::SensorBus },
            radio: RadioHandle { bus: BusId::RadioCtrl },
        }
    }

    /// The sequencer's one-time claim: consume the board and hand out the
    /// three exclusive handles, one per physical bus. The handles are
    /// pairwise for distinct buses, and no further handle can ever be made
    /// from the consumed board.
    pub fn claim(self) -> (h: (DisplayBusHandle, SensorBusHandle, RadioHandle))
        ensures
            h.0.bus() == BusId::DisplayBus,
            h.1.bus() == BusId::SensorBus,
            h.2.bus() == BusId::RadioCtrl,
            h.0.bus() != h.1.bus(),
            h.0.bus() != h.2.bus(),
            h.1.bus() != h.2.bus(),
    {
        proof {
            use_type_invariant(&self);
        }
        let BoardPeripherals { display, sensor, radio } = self;
        (display, sensor, radio)
    }
}

} // verus!
