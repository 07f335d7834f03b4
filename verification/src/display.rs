//! The display rendering task: one-time bring-up (reset pulse, controller
//! initialization, splash render, flush) followed by a periodic toggle loop.
//!
//! The task owns the display bus exclusively. Like the sensor task it is
//! modelled as a transition function from a phase and an observed event to
//! the next phase and the action the runner must perform; every bus command
//! and timed delay is a suspension point. Any failure during bring-up or
//! flush is fatal to the task. The bring-up ordering law at the end of this
//! module shows that under every scheduling of events, no draw or flush is
//! ever issued before the reset pulse and the initialization command, in
//! that order.

use vstd::prelude::*;

use crate::BusOutcome;

verus! {

/// Minimum duration the reset line is held low, in milliseconds.
pub const RESET_PULSE_MS: u64 = 10;

/// Fixed period of the toggle/update loop, in milliseconds.
pub const DISPLAY_PERIOD_MS: u64 = 1000;

/// The phases of the display task. The bring-up phases run once, in order;
/// the toggle loop then cycles through `Idle`, `Toggling` and
/// `FlushingToggle` forever. `Failed` is reached by any bus failure and is
/// terminal.
#[derive(Clone, Copy, Debug, PartialEq, Eq, Structural)]
pub enum DisplayState {
    /// Before anything was issued.
    Boot,
    /// The reset line is being driven low.
    AssertingReset,
    /// The reset line is low; the pulse delay is running.
    PulseWait,
    /// The reset line is being driven high again.
    ReleasingReset,
    /// The controller initialization command sequence is in flight.
    Initializing,
    /// The initial fixed message is being drawn into the frame buffer.
    DrawingSplash,
    /// The frame buffer with the splash is being flushed to the display.
    FlushingSplash,
    /// The task's banner text is being drawn.
    DrawingBanner,
    /// The frame buffer with the banner is being flushed.
    FlushingBanner,
    /// The update period delay is running; the payload is the value the
    /// toggled element will take on the next cycle.
    Idle(bool),
    /// The toggled element is being drawn with this value.
    Toggling(bool),
    /// The frame buffer after a toggle is being flushed.
    FlushingToggle(bool),
    /// A bus failure stopped the task.
    Failed,
}

/// An event the runner hands back to the display task.
#[derive(Clone, Copy, Debug, PartialEq, Eq, Structural)]
pub enum DisplayEvent {
    /// The task was started by the bring-up sequencer.
    Start,
    /// The bus command or pin drive last issued completed with this outcome.
    CmdDone(BusOutcome),
    /// The reset pulse delay elapsed.
    ResetPulseElapsed,
    /// The update period elapsed.
    PeriodElapsed,
}

/// What the runner must do next on the display task's behalf.
#[derive(Clone, Copy, Debug, PartialEq, Eq, Structural)]
pub enum DisplayAction {
    /// Drive the reset line low.
    SetResetLow,
    /// Start the reset pulse delay of `RESET_PULSE_MS`.
    AwaitResetPulse,
    /// Drive the reset line high.
    SetResetHigh,
    /// Issue the controller's documented initialization command sequence.
    IssueInit,
    /// Draw the initial fixed message into the frame buffer.
    DrawSplash,
    /// Draw the task's banner text into the frame buffer.
    DrawBanner,
    /// Draw the toggled element with this value.
    DrawToggle(bool),
    /// Flush the frame buffer to the physical display.
    Flush,
    /// Start the update period delay of `DISPLAY_PERIOD_MS`.
    AwaitPeriod,
    /// Report the fatal bus failure; the task ends here.
    ReportFatal,
    /// Nothing: the event does not concern the current phase.
    Ignore,
}

/// The display task's transition relation: from a phase and an observed
/// event to the next phase and the action the runner must perform. Every
/// bus failure is fatal.
pub open spec fn display_transition(s: DisplayState, e: DisplayEvent) -> (DisplayState, DisplayAction) {
    match (s, e) {
        (DisplayState::Boot, DisplayEvent::Start) =>
            (DisplayState::AssertingReset, DisplayAction::SetResetLow),
        (DisplayState::AssertingReset, DisplayEvent::CmdDone(BusOutcome::Done)) =>
            (DisplayState::PulseWait, DisplayAction::AwaitResetPulse),
        (DisplayState::PulseWait, DisplayEvent::ResetPulseElapsed) =>
            (DisplayState::ReleasingReset, DisplayAction::SetResetHigh),
        (DisplayState::ReleasingReset, DisplayEvent::CmdDone(BusOutcome::Done)) =>
            (DisplayState::Initializing, DisplayAction::IssueInit),
        (DisplayState::Initializing, DisplayEvent::CmdDone(BusOutcome::Done)) =>
            (DisplayState::DrawingSplash, DisplayAction::DrawSplash),
        (DisplayState::DrawingSplash, DisplayEvent::CmdDone(BusOutcome::Done)) =>
            (DisplayState::FlushingSplash, DisplayAction::Flush),
        (DisplayState::FlushingSplash, DisplayEvent::CmdDone(BusOutcome::Done)) =>
            (DisplayState::DrawingBanner, DisplayAction::DrawBanner),
        (DisplayState::DrawingBanner, DisplayEvent::CmdDone(BusOutcome::Done)) =>
            (DisplayState::FlushingBanner, DisplayAction::Flush),
        (DisplayState::FlushingBanner, DisplayEvent::CmdDone(BusOutcome::Done)) =>
            (DisplayState::Idle(true), DisplayAction::AwaitPeriod),
        (DisplayState::Idle(b), DisplayEvent::PeriodElapsed) =>
            (DisplayState::Toggling(b), DisplayAction::DrawToggle(b)),
        (DisplayState::Toggling(b), DisplayEvent::CmdDone(BusOutcome::Done)) =>
            (DisplayState::FlushingToggle(b), DisplayAction::Flush),
        (DisplayState::FlushingToggle(b), DisplayEvent::CmdDone(BusOutcome::Done)) =>
            (DisplayState::Idle(!b), DisplayAction::AwaitPeriod),
        (DisplayState::Failed, _) =>
            (DisplayState::Failed, DisplayAction::Ignore),
        (_, DisplayEvent::CmdDone(BusOutcome::TransportFault)) =>
            (DisplayState::Failed, DisplayAction::ReportFatal),
        _ => (s, DisplayAction::Ignore),
    }
}

/// One step of the display task: the runner calls this with the event that
/// woke the task and performs the returned action.
pub fn display_step(s: DisplayState, e: DisplayEvent) -> (r: (DisplayState, DisplayAction))
    ensures
        r == display_transition(s, e),
{
    match (s, e) {
        (DisplayState::Boot, DisplayEvent::Start) =>
            (DisplayState::AssertingReset, DisplayAction::SetResetLow),
        (DisplayState::AssertingReset, DisplayEvent::CmdDone(BusOutcome::Done)) =>
            (DisplayState::PulseWait, DisplayAction::AwaitResetPulse),
        (DisplayState::PulseWait, DisplayEvent::ResetPulseElapsed) =>
            (DisplayState::ReleasingReset, DisplayAction::SetResetHigh),
        (DisplayState::ReleasingReset, DisplayEvent::CmdDone(BusOutcome::Done)) =>
            (DisplayState::Initializing, DisplayAction::IssueInit),
        (DisplayState::Initializing, DisplayEvent::CmdDone(BusOutcome::Done)) =>
            (DisplayState::DrawingSplash, DisplayAction::DrawSplash),
        (DisplayState::DrawingSplash, DisplayEvent::CmdDone(BusOutcome::Done)) =>
            (DisplayState::FlushingSplash, DisplayAction::Flush),
        (DisplayState::FlushingSplash, DisplayEvent::CmdDone(BusOutcome::Done)) =>
            (DisplayState::DrawingBanner, DisplayAction::DrawBanner),
        (DisplayState::DrawingBanner, DisplayEvent::CmdDone(BusOutcome::Done)) =>
            (DisplayState::FlushingBanner, DisplayAction::Flush),
        (DisplayState::FlushingBanner, DisplayEvent::CmdDone(BusOutcome::Done)) =>
            (DisplayState::Idle(true), DisplayAction::AwaitPeriod),
        (DisplayState::Idle(b), DisplayEvent::PeriodElapsed) =>
            (DisplayState::Toggling(b), DisplayAction::DrawToggle(b)),
        (DisplayState::Toggling(b), DisplayEvent::CmdDone(BusOutcome::Done)) =>
            (DisplayState::FlushingToggle(b), DisplayAction::Flush),
        (DisplayState::FlushingToggle(b), DisplayEvent::CmdDone(BusOutcome::Done)) =>
            (DisplayState::Idle(!b), DisplayAction::AwaitPeriod),
        (DisplayState::Failed, _) =>
            (DisplayState::Failed, DisplayAction::Ignore),
        (_, DisplayEvent::CmdDone(BusOutcome::TransportFault)) =>
            (DisplayState::Failed, DisplayAction::ReportFatal),
        _ => (s, DisplayAction::Ignore),
    }
}

/// How far the task has come: the ordinal of the phase in the bring-up
/// order. `Failed` counts as zero — nothing more is ever issued from it.
pub open spec fn phase(s: DisplayState) -> int {
    match s {
        DisplayState::Boot => 0,
        DisplayState::AssertingReset => 1,
        DisplayState::PulseWait => 2,
        DisplayState::ReleasingReset => 3,
        DisplayState::Initializing => 4,
        DisplayState::DrawingSplash => 5,
        DisplayState::FlushingSplash => 6,
        DisplayState::DrawingBanner => 7,
        DisplayState::FlushingBanner => 8,
        DisplayState::Idle(_) => 9,
        DisplayState::Toggling(_) => 9,
        DisplayState::FlushingToggle(_) => 9,
        DisplayState::Failed => 0,
    }
}

/// An action that touches the frame buffer or the physical panel.
pub open spec fn is_draw_or_flush(a: DisplayAction) -> bool {
    ||| a == DisplayAction::DrawSplash
    ||| a == DisplayAction::DrawBanner
    ||| a matches DisplayAction::DrawToggle(_)
    ||| a == DisplayAction::Flush
}

/// The phase reached from `s` after the events `es`, oldest first.
pub open spec fn display_run(s: DisplayState, es: Seq<DisplayEvent>) -> DisplayState
    decreases es.len(),
{
    if es.len() == 0 {
        s
    } else {
        display_transition(display_run(s, es.drop_last()), es.last()).0
    }
}

/// The actions the runner was told to perform, one per event, in order.
pub open spec fn display_trace(s: DisplayState, es: Seq<DisplayEvent>) -> Seq<DisplayAction>
    decreases es.len(),
{
    if es.len() == 0 {
        Seq::empty()
    } else {
        display_trace(s, es.drop_last()).push(
            display_transition(display_run(s, es.drop_last()), es.last()).1)
    }
}

/// A draw or flush is only ever emitted once initialization has been issued
/// (phase at least `Initializing`), and from `Initializing` itself only when
/// the event is the successful completion of that initialization.
proof fn lemma_draw_needs_init(s: DisplayState, e: DisplayEvent)
    ensures
        is_draw_or_flush(display_transition(s, e).1) ==> phase(s) >= 4,
        is_draw_or_flush(display_transition(s, e).1) && phase(s) == 4
            ==> e == DisplayEvent::CmdDone(BusOutcome::Done),
{
}

/// Reaching a phase past `Boot` means the reset line was driven low.
proof fn lemma_step_phase1(s: DisplayState, e: DisplayEvent)
    ensures
        phase(display_transition(s, e).0) >= 1
            ==> phase(s) >= 1 || display_transition(s, e).1 == DisplayAction::SetResetLow,
{
}

/// Reaching `ReleasingReset` or later means the reset line was driven high
/// after the pulse, from a phase that already drove it low.
proof fn lemma_step_phase3(s: DisplayState, e: DisplayEvent)
    ensures
        phase(display_transition(s, e).0) >= 3
            ==> phase(s) >= 3
                || (phase(s) >= 1 && display_transition(s, e).1 == DisplayAction::SetResetHigh),
{
}

/// Reaching `Initializing` or later means initialization was issued from a
/// phase that had completed the reset pulse.
proof fn lemma_step_phase4(s: DisplayState, e: DisplayEvent)
    ensures
        phase(display_transition(s, e).0) >= 4
            ==> phase(s) >= 4
                || (phase(s) >= 3 && display_transition(s, e).1 == DisplayAction::IssueInit),
{
}

/// Reaching a phase past `Initializing` means the initialization command
/// completed successfully.
proof fn lemma_step_phase5(s: DisplayState, e: DisplayEvent)
    ensures
        phase(display_transition(s, e).0) >= 5
            ==> phase(s) >= 5
                || (phase(s) == 4 && e == DisplayEvent::CmdDone(BusOutcome::Done)),
{
}

/// The inductive invariant tying the phase reached to what stands in the
/// action trace: each bring-up milestone, once passed, is witnessed by the
/// ordered actions that passed it, and a phase past `Initializing` is
/// witnessed by the successful completion event of the initialization.
spec fn bringup_inv(s: DisplayState, tr: Seq<DisplayAction>, es: Seq<DisplayEvent>) -> bool {
    &&& tr.len() == es.len()
    &&& phase(s) >= 1 ==> exists|l: int|
            0 <= l < tr.len() && #[trigger] tr[l] == DisplayAction::SetResetLow
    &&& phase(s) >= 3 ==> exists|l: int, k: int|
            0 <= l && l < k && k < tr.len()
            && #[trigger] tr[l] == DisplayAction::SetResetLow
            && #[trigger] tr[k] == DisplayAction::SetResetHigh
    &&& phase(s) >= 4 ==> exists|l: int, k: int, j: int|
            0 <= l && l < k && k < j && j < tr.len()
            && #[trigger] tr[l] == DisplayAction::SetResetLow
            && #[trigger] tr[k] == DisplayAction::SetResetHigh
            && #[trigger] tr[j] == DisplayAction::IssueInit
    &&& phase(s) >= 5 ==> exists|l: int, k: int, j: int, m: int|
            0 <= l && l < k && k < j && j < m && m < es.len()
            && #[trigger] tr[l] == DisplayAction::SetResetLow
            && #[trigger] tr[k] == DisplayAction::SetResetHigh
            && #[trigger] tr[j] == DisplayAction::IssueInit
            && #[trigger] es[m] == DisplayEvent::CmdDone(BusOutcome::Done)
}

/// From boot, every event sequence keeps the bring-up invariant.
#[verifier::rlimit(60)]
proof fn lemma_display_inv(es: Seq<DisplayEvent>)
    ensures
        bringup_inv(display_run(DisplayState::Boot, es), display_trace(DisplayState::Boot, es), es),
    decreases es.len(),
{
    if es.len() > 0 {
        let es0 = es.drop_last();
        lemma_display_inv(es0);
        let s0 = display_run(DisplayState::Boot, es0);
        let tr0 = display_trace(DisplayState::Boot, es0);
        let e = es.last();
        let s1 = display_transition(s0, e).0;
        let a = display_transition(s0, e).1;
        let tr = tr0.push(a);
        let n = tr0.len() as int;
        assert(display_run(DisplayState::Boot, es) == s1);
        assert(display_trace(DisplayState::Boot, es) == tr);
        assert(forall|x: int| 0 <= x < n ==> tr[x] == tr0[x]);
        assert(tr[n] == a);
        assert(forall|x: int| 0 <= x < es0.len() ==> es0[x] == es[x]);
        lemma_step_phase1(s0, e);
        lemma_step_phase3(s0, e);
        lemma_step_phase4(s0, e);
        lemma_step_phase5(s0, e);
        if phase(s1) >= 1 {
            if phase(s0) >= 1 {
                let l = choose|l: int| 0 <= l < tr0.len() && #[trigger] tr0[l] == DisplayAction::SetResetLow;
                assert(tr[l] == DisplayAction::SetResetLow);
            } else {
                assert(tr[n] == DisplayAction::SetResetLow);
            }
        }
        if phase(s1) >= 3 {
            if phase(s0) >= 3 {
                let (l, k) = choose|l: int, k: int|
                    0 <= l && l < k && k < tr0.len()
                    && #[trigger] tr0[l] == DisplayAction::SetResetLow
                    && #[trigger] tr0[k] == DisplayAction::SetResetHigh;
                assert(tr[l] == DisplayAction::SetResetLow && tr[k] == DisplayAction::SetResetHigh);
            } else {
                let l = choose|l: int| 0 <= l < tr0.len() && #[trigger] tr0[l] == DisplayAction::SetResetLow;
                assert(tr[l] == DisplayAction::SetResetLow && tr[n] == DisplayAction::SetResetHigh);
                assert(l < n);
            }
        }
        if phase(s1) >= 4 {
            if phase(s0) >= 4 {
                let (l, k, j) = choose|l: int, k: int, j: int|
                    0 <= l && l < k && k < j && j < tr0.len()
                    && #[trigger] tr0[l] == DisplayAction::SetResetLow
                    && #[trigger] tr0[k] == DisplayAction::SetResetHigh
                    && #[trigger] tr0[j] == DisplayAction::IssueInit;
                assert(tr[l] == DisplayAction::SetResetLow && tr[k] == DisplayAction::SetResetHigh
                    && tr[j] == DisplayAction::IssueInit);
            } else {
                let (l, k) = choose|l: int, k: int|
                    0 <= l && l < k && k < tr0.len()
                    && #[trigger] tr0[l] == DisplayAction::SetResetLow
                    && #[trigger] tr0[k] == DisplayAction::SetResetHigh;
                assert(tr[l] == DisplayAction::SetResetLow && tr[k] == DisplayAction::SetResetHigh
                    && tr[n] == DisplayAction::IssueInit);
                assert(k < n);
            }
        }
        if phase(s1) >= 5 {
            if phase(s0) >= 5 {
                let (l, k, j, m) = choose|l: int, k: int, j: int, m: int|
                    0 <= l && l < k && k < j && j < m && m < es0.len()
                    && #[trigger] tr0[l] == DisplayAction::SetResetLow
                    && #[trigger] tr0[k] == DisplayAction::SetResetHigh
                    && #[trigger] tr0[j] == DisplayAction::IssueInit
                    && #[trigger] es0[m] == DisplayEvent::CmdDone(BusOutcome::Done);
                assert(tr[l] == DisplayAction::SetResetLow && tr[k] == DisplayAction::SetResetHigh
                    && tr[j] == DisplayAction::IssueInit
                    && es[m] == DisplayEvent::CmdDone(BusOutcome::Done));
            } else {
                let (l, k, j) = choose|l: int, k: int, j: int|
                    0 <= l && l < k && k < j && j < tr0.len()
                    && #[trigger] tr0[l] == DisplayAction::SetResetLow
                    && #[trigger] tr0[k] == DisplayAction::SetResetHigh
                    && #[trigger] tr0[j] == DisplayAction::IssueInit;
                assert(tr[l] == DisplayAction::SetResetLow && tr[k] == DisplayAction::SetResetHigh
                    && tr[j] == DisplayAction::IssueInit);
                assert(es[n] == DisplayEvent::CmdDone(BusOutcome::Done));
                assert(j < n && n < es.len());
            }
        }
    }
}

/// Toggle law: one update cycle draws the element with the pending value,
/// flushes, and leaves the opposite value pending — consecutive cycles
/// alternate the element on and off.
pub proof fn lemma_toggle_alternates(b: bool)
    ensures
        display_transition(DisplayState::Idle(b), DisplayEvent::PeriodElapsed)
            == (DisplayState::Toggling(b), DisplayAction::DrawToggle(b)),
        display_transition(DisplayState::Toggling(b), DisplayEvent::CmdDone(BusOutcome::Done))
            == (DisplayState::FlushingToggle(b), DisplayAction::Flush),
        display_transition(DisplayState::FlushingToggle(b), DisplayEvent::CmdDone(BusOutcome::Done))
            == (DisplayState::Idle(!b), DisplayAction::AwaitPeriod),
{
}

/// The trace is as long as the event sequence that produced it.
proof fn lemma_trace_len(s: DisplayState, es: Seq<DisplayEvent>)
    ensures
        display_trace(s, es).len() == es.len(),
    decreases es.len(),
{
    if es.len() > 0 {
        lemma_trace_len(s, es.drop_last());
    }
}

/// The trace of a prefix of the events is the same prefix of the trace.
proof fn lemma_trace_prefix(es: Seq<DisplayEvent>, n: int)
    requires
        0 <= n <= es.len(),
    ensures
        display_trace(DisplayState::Boot, es.take(n)) == display_trace(DisplayState::Boot, es).take(n),
    decreases es.len(),
{
    lemma_trace_len(DisplayState::Boot, es);
    if n == es.len() {
        assert(es.take(n) =~= es);
        assert(display_trace(DisplayState::Boot, es).take(n) =~= display_trace(DisplayState::Boot, es));
    } else {
        let es0 = es.drop_last();
        lemma_trace_len(DisplayState::Boot, es0);
        lemma_trace_prefix(es0, n);
        assert(es0.take(n) =~= es.take(n));
        assert(display_trace(DisplayState::Boot, es0).take(n)
            =~= display_trace(DisplayState::Boot, es).take(n));
    }
}

/// The action at position `i` of the trace is the one the step on event
/// `es[i]` emitted from the phase reached by the first `i` events.
proof fn lemma_trace_index(es: Seq<DisplayEvent>, i: int)
    requires
        0 <= i < es.len(),
    ensures
        display_trace(DisplayState::Boot, es)[i]
            == display_transition(display_run(DisplayState::Boot, es.take(i)), es[i]).1,
    decreases es.len(),
{
    lemma_trace_len(DisplayState::Boot, es);
    let es0 = es.drop_last();
    lemma_trace_len(DisplayState::Boot, es0);
    if i == es.len() - 1 {
        assert(es.take(i) =~= es0);
    } else {
        lemma_trace_index(es0, i);
        assert(es0.take(i) =~= es.take(i));
        assert(es0[i] == es[i]);
    }
}

/// Bring-up ordering law: under every scheduling of events, the display task
/// never issues a draw or flush before it has, in order, driven the reset
/// line low, driven it high again after the pulse, issued the controller
/// initialization, and seen that initialization complete successfully.
pub proof fn lemma_bringup_ordering(es: Seq<DisplayEvent>, i: int)
    requires
        0 <= i < es.len(),
        is_draw_or_flush(display_trace(DisplayState::Boot, es)[i]),
    ensures
        exists|l: int, k: int, j: int, m: int|
            0 <= l && l < k && k < j && j < m && m <= i
            && #[trigger] display_trace(DisplayState::Boot, es)[l] == DisplayAction::SetResetLow
            && #[trigger] display_trace(DisplayState::Boot, es)[k] == DisplayAction::SetResetHigh
            && #[trigger] display_trace(DisplayState::Boot, es)[j] == DisplayAction::IssueInit
            && #[trigger] es[m] == DisplayEvent::CmdDone(BusOutcome::Done),
{
    let tr = display_trace(DisplayState::Boot, es);
    let pre = es.take(i);
    let pre_tr = display_trace(DisplayState::Boot, pre);
    let s_i = display_run(DisplayState::Boot, pre);
    lemma_display_inv(pre);
    lemma_trace_len(DisplayState::Boot, es);
    lemma_trace_len(DisplayState::Boot, pre);
    lemma_trace_prefix(es, i);
    lemma_trace_index(es, i);
    assert(forall|x: int| 0 <= x < i ==> pre_tr[x] == tr[x]);
    assert(forall|x: int| 0 <= x < i ==> pre[x] == es[x]);
    lemma_draw_needs_init(s_i, es[i]);
    if phase(s_i) == 4 {
        let (l, k, j) = choose|l: int, k: int, j: int|
            0 <= l && l < k && k < j && j < pre_tr.len()
            && #[trigger] pre_tr[l] == DisplayAction::SetResetLow
            && #[trigger] pre_tr[k] == DisplayAction::SetResetHigh
            && #[trigger] pre_tr[j] == DisplayAction::IssueInit;
        assert(tr[l] == DisplayAction::SetResetLow && tr[k] == DisplayAction::SetResetHigh
            && tr[j] == DisplayAction::IssueInit);
        assert(es[i] == DisplayEvent::CmdDone(BusOutcome::Done));
        assert(j < i && i <= i);
    } else {
        assert(phase(s_i) >= 5);
        let (l, k, j, m) = choose|l: int, k: int, j: int, m: int|
            0 <= l && l < k && k < j && j < m && m < pre.len()
            && #[trigger] pre_tr[l] == DisplayAction::SetResetLow
            && #[trigger] pre_tr[k] == DisplayAction::SetResetHigh
            && #[trigger] pre_tr[j] == DisplayAction::IssueInit
            && #[trigger] pre[m] == DisplayEvent::CmdDone(BusOutcome::Done);
        assert(tr[l] == DisplayAction::SetResetLow && tr[k] == DisplayAction::SetResetHigh
            && tr[j] == DisplayAction::IssueInit
            && es[m] == DisplayEvent::CmdDone(BusOutcome::Done));
        assert(m <= i);
    }
}

} // verus!
