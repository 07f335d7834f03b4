use envnode::display::{display_step, DisplayAction, DisplayEvent, DisplayState};
use envnode::BusOutcome;

#[test]
fn bring_up_actions_in_order() {
    // With every command completing, the task issues exactly: reset low,
    // pulse wait, reset high, init, splash draw, flush, banner draw, flush,
    // then waits a period. No draw or flush stands before the reset pulse
    // and the init command.
    let mut actions: Vec<DisplayAction> = Vec::new();
    let mut s = DisplayState::Boot;
    let events = [
        DisplayEvent::Start,
        DisplayEvent::CmdDone(BusOutcome::Done),
        DisplayEvent::ResetPulseElapsed,
        DisplayEvent::CmdDone(BusOutcome::Done),
        DisplayEvent::CmdDone(BusOutcome::Done),
        DisplayEvent::CmdDone(BusOutcome::Done),
        DisplayEvent::CmdDone(BusOutcome::Done),
        DisplayEvent::CmdDone(BusOutcome::Done),
        DisplayEvent::CmdDone(BusOutcome::Done),
    ];
    let mut i: usize = 0;
    while i < events.len() {
        let (s1, a) = display_step(s, events[i]);
        actions.push(a);
        s = s1;
        i += 1;
    }
    assert_eq!(
        actions,
        vec![
            DisplayAction::SetResetLow,
            DisplayAction::AwaitResetPulse,
            DisplayAction::SetResetHigh,
            DisplayAction::IssueInit,
            DisplayAction::DrawSplash,
            DisplayAction::Flush,
            DisplayAction::DrawBanner,
            DisplayAction::Flush,
            DisplayAction::AwaitPeriod,
        ]
    );
    assert_eq!(s, DisplayState::Idle(true));
}

#[test]
fn no_draw_before_init_under_odd_scheduling() {
    // Events that do not concern the current phase are ignored and never
    // conjure a draw or flush out of order.
    let mut s = DisplayState::Boot;
    let odd_events = [
        DisplayEvent::PeriodElapsed,
        DisplayEvent::CmdDone(BusOutcome::Done),
        DisplayEvent::ResetPulseElapsed,
    ];
    let mut i: usize = 0;
    while i < odd_events.len() {
        let (s1, a) = display_step(s, odd_events[i]);
        assert_eq!(a, DisplayAction::Ignore);
        assert_eq!(s1, DisplayState::Boot);
        s = s1;
        i += 1;
    }
    // The proper start still begins the bring-up from scratch.
    let (s, a) = display_step(s, DisplayEvent::Start);
    assert_eq!(a, DisplayAction::SetResetLow);
    assert_eq!(s, DisplayState::AssertingReset);
}

#[test]
fn toggle_loop_alternates() {
    let (s, a) = display_step(DisplayState::Idle(true), DisplayEvent::PeriodElapsed);
    assert_eq!(a, DisplayAction::DrawToggle(true));
    let (s, a) = display_step(s, DisplayEvent::CmdDone(BusOutcome::Done));
    assert_eq!(a, DisplayAction::Flush);
    let (s, a) = display_step(s, DisplayEvent::CmdDone(BusOutcome::Done));
    assert_eq!(a, DisplayAction::AwaitPeriod);
    assert_eq!(s, DisplayState::Idle(false));
    let (s, a) = display_step(s, DisplayEvent::PeriodElapsed);
    assert_eq!(a, DisplayAction::DrawToggle(false));
    let (s, a) = display_step(s, DisplayEvent::CmdDone(BusOutcome::Done));
    assert_eq!(a, DisplayAction::Flush);
    let (s, _) = display_step(s, DisplayEvent::CmdDone(BusOutcome::Done));
    assert_eq!(s, DisplayState::Idle(true));
}

#[test]
fn bus_failure_is_fatal_to_display() {
    let (s, a) = display_step(DisplayState::Initializing, DisplayEvent::CmdDone(BusOutcome::TransportFault));
    assert_eq!((s, a), (DisplayState::Failed, DisplayAction::ReportFatal));
    let (s, a) = display_step(s, DisplayEvent::PeriodElapsed);
    assert_eq!((s, a), (DisplayState::Failed, DisplayAction::Ignore));
    let (_, a) = display_step(DisplayState::FlushingToggle(true), DisplayEvent::CmdDone(BusOutcome::TransportFault));
    assert_eq!(a, DisplayAction::ReportFatal);
}
