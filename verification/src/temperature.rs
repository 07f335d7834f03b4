//! The sensor sampling task: its bring-up and sampling state machine and the
//! decoding of raw measurement words into a reading.
//!
//! The task owns the sensor bus exclusively and runs initialize → configure →
//! periodic-sample forever. Every bus transaction and timed delay is a
//! suspension point, so the task is modelled as a transition function from a
//! phase and an observed event to the next phase and the action the runner
//! must perform. A reset failure is ignored (some sensor revisions do not
//! acknowledge reset); a configuration failure is fatal to the task; a
//! per-sample transport failure only skips that cycle.

use vstd::prelude::*;
use vstd::arithmetic::div_mod::lemma_div_is_ordered;

use crate::slot::TempData;
use crate::BusOutcome;

verus! {

/// Fixed settle delay between the soft reset and the configure command, in
/// milliseconds.
pub const SETTLE_MS: u64 = 10;

/// Fixed warm-up delay between the configure command and the first
/// measurement read, in milliseconds.
pub const WARMUP_MS: u64 = 100;

/// Fixed sampling period, in milliseconds.
pub const SAMPLE_PERIOD_MS: u64 = 5000;

/// Temperature in hundredths of a degree Celsius decoded from a raw
/// sixteen-bit measurement word: −45 °C + 175 °C · raw / 65535, in
/// hundredths, rounded towards zero.
pub open spec fn temp_centi_of_raw(raw: u16) -> int {
    -4500 + (17500 * raw) / 65535
}

/// Relative humidity in whole percent decoded from a raw sixteen-bit
/// measurement word: 100 % · raw / 65535, rounded down.
pub open spec fn hum_pct_of_raw(raw: u16) -> int {
    (100 * raw) / 65535
}

/// The reading decoded from a raw temperature and humidity word pair.
pub open spec fn decoded_reading(raw_t: u16, raw_h: u16) -> TempData {
    TempData { t: temp_centi_of_raw(raw_t) as i16, h: hum_pct_of_raw(raw_h) as u8 }
}

/// Decode a raw temperature word into hundredths of a degree Celsius.
pub fn decode_temperature(raw: u16) -> (t: i16)
    ensures
        t as int == temp_centi_of_raw(raw),
        -4500 <= t <= 13000,
{
    proof {
        assert(17500 * (raw as int) <= 17500 * 65535) by (nonlinear_arith)
            requires raw <= 65535;
        lemma_div_is_ordered(17500 * (raw as int), 17500int * 65535, 65535);
        assert(17500int * 65535 / 65535 == 17500);
        assert(17500 * (raw as int) >= 0) by (nonlinear_arith)
            requires raw >= 0;
    }
    let scaled: u32 = 17500u32 * (raw as u32) / 65535u32;
    (scaled as i32 - 4500) as i16
}

/// Decode a raw humidity word into whole percent.
pub fn decode_humidity(raw: u16) -> (h: u8)
    ensures
        h as int == hum_pct_of_raw(raw),
        h <= 100,
{
    proof {
        assert(100 * (raw as int) <= 100 * 65535) by (nonlinear_arith)
            requires raw <= 65535;
        lemma_div_is_ordered(100 * (raw as int), 100int * 65535, 65535);
        assert(100int * 65535 / 65535 == 100);
        assert(100 * (raw as int) >= 0) by (nonlinear_arith)
            requires raw >= 0;
    }
    let scaled: u32 = 100u32 * (raw as u32) / 65535u32;
    scaled as u8
}

/// The phases of the sensor sampling task. There is no terminal phase in
/// normal operation: the sampling loop alternates between `Measuring` and
/// `Waiting` forever. `Failed` is reached only by a fatal configuration
/// failure.
#[derive(Clone, Copy, Debug, PartialEq, Eq, Structural)]
pub enum SensorState {
    /// Before anything was issued.
    Boot,
    /// The soft reset command is in flight.
    Resetting,
    /// The settle delay after reset is running.
    Settling,
    /// The begin-continuous-measurement command is in flight.
    Configuring,
    /// The warm-up delay after configuration is running.
    Warming,
    /// A measurement read is in flight.
    Measuring,
    /// The sampling period delay is running.
    Waiting,
    /// A fatal configuration failure stopped the task.
    Failed,
}

/// An event the runner hands back to the sensor task: the completion of a
/// bus transaction or of a timed delay.
#[derive(Clone, Copy, Debug, PartialEq, Eq, Structural)]
pub enum SensorEvent {
    /// The task was started by the bring-up sequencer.
    Start,
    /// The soft reset command completed with this outcome.
    ResetDone(BusOutcome),
    /// The settle delay elapsed.
    SettleElapsed,
    /// The configure command completed with this outcome.
    ConfigureDone(BusOutcome),
    /// The warm-up delay elapsed.
    WarmupElapsed,
    /// A measurement read returned these raw temperature and humidity words.
    MeasurementOk(u16, u16),
    /// A measurement read failed in transport.
    MeasurementFault,
    /// The sampling period elapsed.
    PeriodElapsed,
}

/// What the runner must do next on the sensor task's behalf. Issuing a
/// command or starting a delay suspends the task until the matching event.
#[derive(Clone, Copy, Debug, PartialEq, Eq, Structural)]
pub enum SensorAction {
    /// Issue the soft reset command on the sensor bus.
    IssueReset,
    /// Start the settle delay of `SETTLE_MS`.
    AwaitSettle,
    /// Issue the begin-continuous-measurement command.
    IssueConfigure,
    /// Start the warm-up delay of `WARMUP_MS`.
    AwaitWarmup,
    /// Issue a measurement read.
    IssueRead,
    /// Publish this decoded reading to the shared slot, emit a diagnostic
    /// record for it, then start the sampling period delay.
    PublishReading(TempData),
    /// Emit a diagnostic record for a transient transport failure, publish
    /// nothing, then start the sampling period delay.
    SkipCycle,
    /// Report the fatal configuration failure; the task ends here.
    ReportFatal,
    /// Nothing: the event does not concern the current phase.
    Ignore,
}

/// The sensor task's transition relation: from a phase and an observed event
/// to the next phase and the action the runner must perform. A reset failure
/// is ignored, a configure failure is fatal, and a measurement failure only
/// skips the cycle.
pub open spec fn sensor_transition(s: SensorState, e: SensorEvent) -> (SensorState, SensorAction) {
    match (s, e) {
        (SensorState::Boot, SensorEvent::Start) =>
            (SensorState::Resetting, SensorAction::IssueReset),
        (SensorState::Resetting, SensorEvent::ResetDone(_)) =>
            (SensorState::Settling, SensorAction::AwaitSettle),
        (SensorState::Settling, SensorEvent::SettleElapsed) =>
            (SensorState::Configuring, SensorAction::IssueConfigure),
        (SensorState::Configuring, SensorEvent::ConfigureDone(BusOutcome::Done)) =>
            (SensorState::Warming, SensorAction::AwaitWarmup),
        (SensorState::Configuring, SensorEvent::ConfigureDone(BusOutcome::TransportFault)) =>
            (SensorState::Failed, SensorAction::ReportFatal),
        (SensorState::Warming, SensorEvent::WarmupElapsed) =>
            (SensorState::Measuring, SensorAction::IssueRead),
        (SensorState::Measuring, SensorEvent::MeasurementOk(raw_t, raw_h)) =>
            (SensorState::Waiting, SensorAction::PublishReading(decoded_reading(raw_t, raw_h))),
        (SensorState::Measuring, SensorEvent::MeasurementFault) =>
            (SensorState::Waiting, SensorAction::SkipCycle),
        (SensorState::Waiting, SensorEvent::PeriodElapsed) =>
            (SensorState::Measuring, SensorAction::IssueRead),
        _ => (s, SensorAction::Ignore),
    }
}

/// One step of the sensor task: the runner calls this with the event that
/// woke the task and performs the returned action.
pub fn sensor_step(s: SensorState, e: SensorEvent) -> (r: (SensorState, SensorAction))
    ensures
        r == sensor_transition(s, e),
{
    match (s, e) {
        (SensorState::Boot, SensorEvent::Start) =>
            (SensorState::Resetting, SensorAction::IssueReset),
        (SensorState::Resetting, SensorEvent::ResetDone(_)) =>
            (SensorState::Settling, SensorAction::AwaitSettle),
        (SensorState::Settling, SensorEvent::SettleElapsed) =>
            (SensorState::Configuring, SensorAction::IssueConfigure),
        (SensorState::Configuring, SensorEvent::ConfigureDone(BusOutcome::Done)) =>
            (SensorState::Warming, SensorAction::AwaitWarmup),
        (SensorState::Configuring, SensorEvent::ConfigureDone(BusOutcome::TransportFault)) =>
            (SensorState::Failed, SensorAction::ReportFatal),
        (SensorState::Warming, SensorEvent::WarmupElapsed) =>
            (SensorState::Measuring, SensorAction::IssueRead),
        (SensorState::Measuring, SensorEvent::MeasurementOk(raw_t, raw_h)) => {
            let t = decode_temperature(raw_t);
            let h = decode_humidity(raw_h);
            (SensorState::Waiting, SensorAction::PublishReading(TempData { t, h }))
        },
        (SensorState::Measuring, SensorEvent::MeasurementFault) =>
            (SensorState::Waiting, SensorAction::SkipCycle),
        (SensorState::Waiting, SensorEvent::PeriodElapsed) =>
            (SensorState::Measuring, SensorAction::IssueRead),
        _ => (s, SensorAction::Ignore),
    }
}

/// The sensor phase reached from `s` after the events `es`, oldest first.
pub open spec fn sensor_run(s: SensorState, es: Seq<SensorEvent>) -> SensorState
    decreases es.len(),
{
    if es.len() == 0 {
        s
    } else {
        sensor_run(sensor_transition(s, es[0]).0, es.skip(1))
    }
}

/// The task is in its steady sampling loop: a read is in flight or the
/// period delay is running.
pub open spec fn in_sampling(s: SensorState) -> bool {
    s == SensorState::Measuring || s == SensorState::Waiting
}

/// An event that can occur during the steady sampling loop.
pub open spec fn is_cycle_event(e: SensorEvent) -> bool {
    ||| e matches SensorEvent::MeasurementOk(_, _)
    ||| e == SensorEvent::MeasurementFault
    ||| e == SensorEvent::PeriodElapsed
}

/// `n` sampling cycles that each fail in transport: a failed measurement
/// followed by the next period tick, `n` times over.
pub open spec fn fault_cycles(n: nat) -> Seq<SensorEvent>
    decreases n,
{
    if n == 0 {
        Seq::empty()
    } else {
        seq![SensorEvent::MeasurementFault, SensorEvent::PeriodElapsed] + fault_cycles((n - 1) as nat)
    }
}

/// During the steady sampling loop, no cycle event — measurement success,
/// measurement transport failure, or period tick — ever makes the task
/// fatal: it stays in the sampling loop.
pub proof fn lemma_cycle_events_never_fatal(s: SensorState, es: Seq<SensorEvent>)
    requires
        in_sampling(s),
        forall|i: int| 0 <= i < es.len() ==> is_cycle_event(#[trigger] es[i]),
    ensures
        in_sampling(sensor_run(s, es)),
    decreases es.len(),
{
    if es.len() > 0 {
        let s1 = sensor_transition(s, es[0]).0;
        assert(is_cycle_event(es[0]));
        assert(in_sampling(s1));
        assert(forall|i: int| 0 <= i < es.skip(1).len() ==> is_cycle_event(#[trigger] es.skip(1)[i]));
        lemma_cycle_events_never_fatal(s1, es.skip(1));
    }
}

/// Sampling resilience law: any number of consecutive transport failures in
/// the sampling loop leaves the task still sampling, and the next successful
/// measurement is decoded and published as if no failure had happened.
pub proof fn lemma_sampling_resilience(n: nat, raw_t: u16, raw_h: u16)
    ensures
        sensor_run(SensorState::Measuring, fault_cycles(n)) == SensorState::Measuring,
        sensor_transition(SensorState::Measuring, SensorEvent::MeasurementOk(raw_t, raw_h))
            == (SensorState::Waiting, SensorAction::PublishReading(decoded_reading(raw_t, raw_h))),
    decreases n,
{
    if n > 0 {
        let es = fault_cycles(n);
        let rest = fault_cycles((n - 1) as nat);
        assert(es == seq![SensorEvent::MeasurementFault, SensorEvent::PeriodElapsed] + rest);
        assert(es.len() == 2 + rest.len());
        assert(es[0] == SensorEvent::MeasurementFault);
        let es1 = es.skip(1);
        assert(es1 =~= seq![SensorEvent::PeriodElapsed] + rest);
        assert(es1[0] == SensorEvent::PeriodElapsed);
        assert(es1.skip(1) =~= rest);
        assert(sensor_transition(SensorState::Measuring, es[0]).0 == SensorState::Waiting);
        assert(sensor_run(SensorState::Measuring, es)
            == sensor_run(SensorState::Waiting, es1));
        assert(sensor_transition(SensorState::Waiting, es1[0]).0 == SensorState::Measuring);
        assert(sensor_run(SensorState::Waiting, es1)
            == sensor_run(SensorState::Measuring, rest));
        lemma_sampling_resilience((n - 1) as nat, raw_t, raw_h);
    }
}

} // verus!
