use supreme_server::indicator::blink_on_pattern;
use supreme_server::indicator::low_battery_pattern;
use supreme_server::indicator::off_pattern;
use supreme_server::indicator::standalone_pattern;
use supreme_server::indicator::streaming_pattern;
use supreme_server::indicator::BlinkPhase;
use supreme_server::indicator::DisplayPattern;
use supreme_server::indicator::IndicatorEvent;
use supreme_server::indicator::IndicatorOutcome;
use supreme_server::indicator::IndicatorState;
use supreme_server::indicator::LineActivity;

#[test]
fn startup_pattern_is_off() {
    let actor = IndicatorState::startup();
    assert_eq!(actor.current, off_pattern());
    assert_eq!(actor.phase, BlinkPhase::OnNext);
    assert!(!actor.current.active);
}

#[test]
fn fixed_patterns_hold_their_documented_timings() {
    assert_eq!(
        streaming_pattern(),
        DisplayPattern { active: true, on_duration: 1200, off_duration: 100 }
    );
    assert_eq!(
        standalone_pattern(),
        DisplayPattern { active: true, on_duration: 100, off_duration: 1200 }
    );
    assert_eq!(
        blink_on_pattern(),
        DisplayPattern { active: true, on_duration: 100, off_duration: 1000 }
    );
    assert_eq!(
        low_battery_pattern(),
        DisplayPattern { active: true, on_duration: 50, off_duration: 50 }
    );
    assert_eq!(off_pattern(), DisplayPattern { active: false, on_duration: 0, off_duration: 0 });
}

#[test]
fn received_pattern_shapes_the_same_step() {
    let mut actor = IndicatorState::startup();
    let outcome = actor.step(IndicatorEvent::Received(streaming_pattern()));
    assert_eq!(actor.current, streaming_pattern());
    assert_eq!(
        outcome,
        IndicatorOutcome::Continue(LineActivity::AssertHold { milliseconds: 1200 })
    );
}

#[test]
fn active_pattern_alternates_its_two_holds() {
    let mut actor = IndicatorState::startup();
    actor.step(IndicatorEvent::Received(standalone_pattern()));
    // the asserted hold was handed out; the deasserted hold follows,
    // skew-compensated, then the cycle repeats
    let off = actor.step(IndicatorEvent::NothingPending);
    assert_eq!(off, IndicatorOutcome::Continue(LineActivity::DeassertHold { milliseconds: 1190 }));
    let on = actor.step(IndicatorEvent::NothingPending);
    assert_eq!(on, IndicatorOutcome::Continue(LineActivity::AssertHold { milliseconds: 100 }));
    assert_eq!(actor.current, standalone_pattern());
}

#[test]
fn pattern_arriving_mid_cycle_is_observed_before_the_next_sub_interval() {
    let mut actor = IndicatorState::startup();
    actor.step(IndicatorEvent::Received(streaming_pattern()));
    // the asserted hold of the old pattern just ran; a new pattern arrives
    // before the deasserted hold, and the very next step belongs to it
    let outcome = actor.step(IndicatorEvent::Received(low_battery_pattern()));
    assert_eq!(actor.current, low_battery_pattern());
    assert_eq!(outcome, IndicatorOutcome::Continue(LineActivity::AssertHold { milliseconds: 50 }));
    let off = actor.step(IndicatorEvent::NothingPending);
    assert_eq!(off, IndicatorOutcome::Continue(LineActivity::DeassertHold { milliseconds: 40 }));
}

#[test]
fn newest_pattern_supersedes_older_ones() {
    let mut actor = IndicatorState::startup();
    actor.step(IndicatorEvent::Received(blink_on_pattern()));
    actor.step(IndicatorEvent::Received(low_battery_pattern()));
    actor.step(IndicatorEvent::NothingPending);
    actor.step(IndicatorEvent::NothingPending);
    assert_eq!(actor.current, low_battery_pattern());
}

#[test]
fn inactive_pattern_idles_with_the_line_deasserted() {
    let mut actor = IndicatorState::startup();
    actor.step(IndicatorEvent::Received(blink_on_pattern()));
    let outcome = actor.step(IndicatorEvent::Received(off_pattern()));
    assert_eq!(outcome, IndicatorOutcome::Continue(LineActivity::Idle { milliseconds: 100 }));
    let again = actor.step(IndicatorEvent::NothingPending);
    assert_eq!(again, IndicatorOutcome::Continue(LineActivity::Idle { milliseconds: 100 }));
}

#[test]
fn short_off_durations_saturate_at_one_millisecond() {
    let mut actor = IndicatorState::startup();
    let pattern = DisplayPattern { active: true, on_duration: 20, off_duration: 5 };
    actor.step(IndicatorEvent::Received(pattern));
    let off = actor.step(IndicatorEvent::NothingPending);
    assert_eq!(off, IndicatorOutcome::Continue(LineActivity::DeassertHold { milliseconds: 1 }));
    let exactly_skew = DisplayPattern { active: true, on_duration: 20, off_duration: 10 };
    actor.step(IndicatorEvent::Received(exactly_skew));
    let off = actor.step(IndicatorEvent::NothingPending);
    assert_eq!(off, IndicatorOutcome::Continue(LineActivity::DeassertHold { milliseconds: 1 }));
}

#[test]
fn disconnect_stops_the_actor() {
    let mut actor = IndicatorState::startup();
    actor.step(IndicatorEvent::Received(streaming_pattern()));
    let outcome = actor.step(IndicatorEvent::Disconnected);
    assert_eq!(outcome, IndicatorOutcome::Stop);
}
