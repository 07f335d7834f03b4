use envnode::slot::{ReadingSlot, SlotConsumer, TempData};

#[test]
fn new_slot_is_empty() {
    let slot = ReadingSlot::new();
    assert_eq!(slot.seq, 0);
    assert!(slot.value.is_none());
}

#[test]
fn publish_stores_and_counts() {
    let mut slot = ReadingSlot::new();
    slot.publish(TempData { t: 2100, h: 55 });
    assert_eq!(slot.seq, 1);
    assert_eq!(slot.value, Some(TempData { t: 2100, h: 55 }));
}

#[test]
fn slot_overwrite_delivers_latest_only() {
    // Publishing v1 then v2 before the consumer polls wakes it exactly once,
    // delivering v2 only.
    let mut slot = ReadingSlot::new();
    let mut c = SlotConsumer::subscribe(&slot);
    let v1 = TempData { t: 1000, h: 10 };
    let v2 = TempData { t: 2000, h: 20 };
    slot.publish(v1);
    slot.publish(v2);
    assert_eq!(c.poll_next(&slot), Some(v2));
    assert_eq!(c.poll_next(&slot), None);
}

#[test]
fn slot_broadcast_reaches_both_consumers() {
    // Two consumers that begin waiting before a publish both receive the
    // same published value.
    let mut slot = ReadingSlot::new();
    let mut c1 = SlotConsumer::subscribe(&slot);
    let mut c2 = SlotConsumer::subscribe(&slot);
    let v = TempData { t: 2250, h: 41 };
    slot.publish(v);
    assert_eq!(c1.poll_next(&slot), Some(v));
    assert_eq!(c2.poll_next(&slot), Some(v));
}

#[test]
fn slot_staleness_never_redelivers() {
    // A consumer that waits twice with no intervening publish suspends on
    // the second wait: the consumed value is not redelivered.
    let mut slot = ReadingSlot::new();
    let mut c = SlotConsumer::subscribe(&slot);
    let v = TempData { t: -500, h: 80 };
    slot.publish(v);
    assert_eq!(c.poll_next(&slot), Some(v));
    assert_eq!(c.poll_next(&slot), None);
    slot.publish(TempData { t: -400, h: 81 });
    assert_eq!(c.poll_next(&slot), Some(TempData { t: -400, h: 81 }));
}

#[test]
fn fresh_subscriber_waits_for_next_publish() {
    // A wait begun after a publish is satisfied only by the next publish.
    let mut slot = ReadingSlot::new();
    slot.publish(TempData { t: 1, h: 1 });
    let mut c = SlotConsumer::subscribe(&slot);
    assert_eq!(c.poll_next(&slot), None);
    slot.publish(TempData { t: 2, h: 2 });
    assert_eq!(c.poll_next(&slot), Some(TempData { t: 2, h: 2 }));
}

#[test]
fn producer_never_blocks_on_slow_consumer() {
    // Backpressure-free: many publishes with no consumer polls all succeed;
    // the slow consumer then sees only the latest value.
    let mut slot = ReadingSlot::new();
    let mut c = SlotConsumer::subscribe(&slot);
    let mut i: i16 = 0;
    while i < 100 {
        slot.publish(TempData { t: i, h: 0 });
        i += 1;
    }
    assert_eq!(slot.seq, 100);
    assert_eq!(c.poll_next(&slot), Some(TempData { t: 99, h: 0 }));
    assert_eq!(c.poll_next(&slot), None);
}
