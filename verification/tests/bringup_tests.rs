use envnode::bringup::{BoardPeripherals, BusId};

#[test]
fn claim_hands_out_distinct_buses() {
    // The one-time claim yields one handle per physical bus, each for a
    // different bus. The handle types are neither cloneable nor copyable,
    // so no two tasks can ever hold the same bus.
    let board = BoardPeripherals::new();
    let (display, sensor, radio) = board.claim();
    assert_eq!(display.bus_id(), BusId::DisplayBus);
    assert_eq!(sensor.bus_id(), BusId::SensorBus);
    assert_eq!(radio.bus_id(), BusId::RadioCtrl);
    assert_ne!(display.bus_id(), sensor.bus_id());
    assert_ne!(display.bus_id(), radio.bus_id());
    assert_ne!(sensor.bus_id(), radio.bus_id());
}
