use envnode::slot::{ReadingSlot, SlotConsumer, TempData};
use envnode::temperature::{
    decode_humidity, decode_temperature, sensor_step, SensorAction, SensorEvent, SensorState,
};
use envnode::BusOutcome;

#[test]
fn decode_temperature_exact_values() {
    // -45 °C + 175 °C * raw / 65535, in hundredths of a degree.
    assert_eq!(decode_temperature(0), -4500);
    assert_eq!(decode_temperature(65535), 13000);
    assert_eq!(decode_temperature(25278), 2250);
    assert_eq!(decode_temperature(25278) as f64 / 100.0, 22.5);
}

#[test]
fn decode_humidity_exact_values() {
    // 100 % * raw / 65535, rounded down.
    assert_eq!(decode_humidity(0), 0);
    assert_eq!(decode_humidity(65535), 100);
    assert_eq!(decode_humidity(26870), 41);
}

#[test]
fn bring_up_happy_path() {
    let (s, a) = sensor_step(SensorState::Boot, SensorEvent::Start);
    assert_eq!((s, a), (SensorState::Resetting, SensorAction::IssueReset));
    let (s, a) = sensor_step(s, SensorEvent::ResetDone(BusOutcome::Done));
    assert_eq!((s, a), (SensorState::Settling, SensorAction::AwaitSettle));
    let (s, a) = sensor_step(s, SensorEvent::SettleElapsed);
    assert_eq!((s, a), (SensorState::Configuring, SensorAction::IssueConfigure));
    let (s, a) = sensor_step(s, SensorEvent::ConfigureDone(BusOutcome::Done));
    assert_eq!((s, a), (SensorState::Warming, SensorAction::AwaitWarmup));
    let (s, a) = sensor_step(s, SensorEvent::WarmupElapsed);
    assert_eq!((s, a), (SensorState::Measuring, SensorAction::IssueRead));
}

#[test]
fn reset_failure_is_ignored() {
    // Some sensor revisions do not acknowledge reset: a failed reset still
    // moves on to configuration.
    let (s, a) = sensor_step(SensorState::Resetting, SensorEvent::ResetDone(BusOutcome::TransportFault));
    assert_eq!((s, a), (SensorState::Settling, SensorAction::AwaitSettle));
}

#[test]
fn configure_failure_is_fatal() {
    let (s, a) = sensor_step(SensorState::Configuring, SensorEvent::ConfigureDone(BusOutcome::TransportFault));
    assert_eq!((s, a), (SensorState::Failed, SensorAction::ReportFatal));
    // Nothing more is ever done from the failed state.
    let (s, a) = sensor_step(s, SensorEvent::PeriodElapsed);
    assert_eq!((s, a), (SensorState::Failed, SensorAction::Ignore));
}

#[test]
fn successful_sample_publishes_decoded_reading() {
    let (s, a) = sensor_step(SensorState::Measuring, SensorEvent::MeasurementOk(25278, 26870));
    assert_eq!(s, SensorState::Waiting);
    assert_eq!(a, SensorAction::PublishReading(TempData { t: 2250, h: 41 }));
}

#[test]
fn sampling_survives_consecutive_failures() {
    // N consecutive transport failures during the sampling loop do not stop
    // a later successful sample from being published.
    let mut slot = ReadingSlot::new();
    let mut s = SensorState::Measuring;
    let mut n: u32 = 0;
    while n < 8 {
        let (s1, a) = sensor_step(s, SensorEvent::MeasurementFault);
        assert_eq!((s1, a), (SensorState::Waiting, SensorAction::SkipCycle));
        let (s2, a) = sensor_step(s1, SensorEvent::PeriodElapsed);
        assert_eq!((s2, a), (SensorState::Measuring, SensorAction::IssueRead));
        s = s2;
        n += 1;
    }
    assert_eq!(slot.seq, 0);
    let (s, a) = sensor_step(s, SensorEvent::MeasurementOk(25278, 26870));
    assert_eq!(s, SensorState::Waiting);
    match a {
        SensorAction::PublishReading(r) => slot.publish(r),
        _ => panic!("expected a publish after the failures"),
    }
    assert_eq!(slot.seq, 1);
    assert_eq!(slot.value, Some(TempData { t: 2250, h: 41 }));
}

#[test]
fn end_to_end_periodic_sampling() {
    // Period of 5 time units. A measurement of 22.5 °C / 41 % injected at
    // t=0 is published by the read at t=5; a transport failure at t=10
    // publishes nothing then; a normal publish resumes at t=15.
    let mut slot = ReadingSlot::new();
    let mut consumer = SlotConsumer::subscribe(&slot);

    // Bring-up, before the periodic loop starts.
    let (s, _) = sensor_step(SensorState::Boot, SensorEvent::Start);
    let (s, _) = sensor_step(s, SensorEvent::ResetDone(BusOutcome::Done));
    let (s, _) = sensor_step(s, SensorEvent::SettleElapsed);
    let (s, _) = sensor_step(s, SensorEvent::ConfigureDone(BusOutcome::Done));
    let (s, a) = sensor_step(s, SensorEvent::WarmupElapsed);
    assert_eq!(s, SensorState::Measuring);
    assert_eq!(a, SensorAction::IssueRead);

    // The transport's injected behaviour for the reads at t=5, t=10, t=15.
    let outcomes = [
        Some((25278u16, 26870u16)), // injected at t=0, read at t=5
        None,                       // transport failure at t=10
        Some((25278u16, 26870u16)), // normal sample again at t=15
    ];
    let expected_seq = [1u64, 1u64, 2u64];
    let expected_poll = [
        Some(TempData { t: 2250, h: 41 }),
        None,
        Some(TempData { t: 2250, h: 41 }),
    ];

    let mut s = s;
    let mut i: usize = 0;
    while i < 3 {
        // The read issued for this period completes.
        let event = match outcomes[i] {
            Some((rt, rh)) => SensorEvent::MeasurementOk(rt, rh),
            None => SensorEvent::MeasurementFault,
        };
        let (s1, a) = sensor_step(s, event);
        match a {
            SensorAction::PublishReading(r) => slot.publish(r),
            SensorAction::SkipCycle => {}
            _ => panic!("unexpected action in the sampling loop"),
        }
        assert_eq!(slot.seq, expected_seq[i]);
        assert_eq!(consumer.poll_next(&slot), expected_poll[i]);
        // The next period elapses and the next read is issued.
        let (s2, a) = sensor_step(s1, SensorEvent::PeriodElapsed);
        assert_eq!(a, SensorAction::IssueRead);
        s = s2;
        i += 1;
    }
    assert_eq!(slot.value, Some(TempData { t: 2250, h: 41 }));
    assert_eq!(slot.value.unwrap().t as f64 / 100.0, 22.5);
    assert_eq!(slot.value.unwrap().h, 41);
}
