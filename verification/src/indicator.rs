//! The indicator actor: the one owner of the status line.  Producers send
//! `DisplayPattern` messages; the actor replays the most recently received
//! pattern forever until a newer one arrives.  The hardware toggling and the
//! channel live outside the library; this module decides, for each actor
//! step, what the line must do next.
//!
//! Each step performs a single sub-interval of the blink cycle — the
//! asserted hold or the deasserted hold — and the channel is polled before
//! every step.  A newly arriving pattern is therefore observed within the
//! one sub-interval in progress plus the poll slice, never a full on/off
//! cycle.

use vstd::prelude::*;

verus! {

/// A display request: blink forever with these on/off times (milliseconds),
/// or keep the line off.  Immutable once built; the latest one received
/// supersedes all prior ones.
#[derive(Clone, Copy, PartialEq, Eq, Structural, Debug)]
pub struct DisplayPattern {
    pub active: bool,
    pub on_duration: u64,
    pub off_duration: u64,
}

/// Milliseconds of polling overhead deducted from each off interval, so the
/// perceived timing matches the caller's intent.
pub const OFF_SKEW_MILLISECONDS: u64 = 10;

/// Milliseconds the actor idles when the current pattern keeps the line off.
pub const INACTIVE_IDLE_MILLISECONDS: u64 = 100;

/// Milliseconds of the short poll slice between steps.  The channel is
/// polled before every sub-interval, so a new pattern waits at most the
/// sub-interval in progress plus this slice.
pub const POLL_SLICE_MILLISECONDS: u64 = 10;

/// The pattern the actor starts with: line off.
#[verifier::allow_in_spec]
pub fn off_pattern() -> DisplayPattern
    returns
        (DisplayPattern { active: false, on_duration: 0, off_duration: 0 }),
{
    DisplayPattern { active: false, on_duration: 0, off_duration: 0 }
}

/// Streaming mode: long on, short off, visually distinct from standalone.
#[verifier::allow_in_spec]
pub fn streaming_pattern() -> DisplayPattern
    returns
        (DisplayPattern { active: true, on_duration: 1200, off_duration: 100 }),
{
    DisplayPattern { active: true, on_duration: 1200, off_duration: 100 }
}

/// Standalone mode: short on, long off, the inverse duty cycle of streaming.
#[verifier::allow_in_spec]
pub fn standalone_pattern() -> DisplayPattern
    returns
        (DisplayPattern { active: true, on_duration: 100, off_duration: 1200 }),
{
    DisplayPattern { active: true, on_duration: 100, off_duration: 1200 }
}

/// The pattern submitted by an explicit blink-on request.
#[verifier::allow_in_spec]
pub fn blink_on_pattern() -> DisplayPattern
    returns
        (DisplayPattern { active: true, on_duration: 100, off_duration: 1000 }),
{
    DisplayPattern { active: true, on_duration: 100, off_duration: 1000 }
}

/// The fast blink shown while the low-battery shutdown warning holds.
#[verifier::allow_in_spec]
pub fn low_battery_pattern() -> DisplayPattern
    returns
        (DisplayPattern { active: true, on_duration: 50, off_duration: 50 }),
{
    DisplayPattern { active: true, on_duration: 50, off_duration: 50 }
}

/// What the actor found on its channel before one step.
#[derive(Clone, Copy, PartialEq, Eq, Structural, Debug)]
pub enum IndicatorEvent {
    /// a new pattern was pending; it supersedes the current one
    Received(DisplayPattern),
    /// nothing pending: the current pattern's cycle goes on
    NothingPending,
    /// every sender is gone: the actor deasserts the line and terminates
    Disconnected,
}

/// Which sub-interval of the blink cycle comes next.
#[derive(Clone, Copy, PartialEq, Eq, Structural, Debug)]
pub enum BlinkPhase {
    /// the asserted hold comes next
    OnNext,
    /// the deasserted hold comes next
    OffNext,
}

/// What the line does during one step: a single sub-interval.
#[derive(Clone, Copy, PartialEq, Eq, Structural, Debug)]
pub enum LineActivity {
    /// assert the line and hold it asserted
    AssertHold { milliseconds: u64 },
    /// deassert the line and hold it deasserted
    DeassertHold { milliseconds: u64 },
    /// keep the line deasserted: the current pattern is inactive
    Idle { milliseconds: u64 },
}

/// The actor's decision for one step.
#[derive(Clone, Copy, PartialEq, Eq, Structural, Debug)]
pub enum IndicatorOutcome {
    /// perform this activity, take the poll slice, and run another step
    Continue(LineActivity),
    /// deassert the line and stop cleanly
    Stop,
}

/// The deasserted hold of a pattern: the off duration less the polling
/// skew, never below one millisecond.
pub open spec fn skewed_off_hold(p: DisplayPattern) -> u64 {
    if p.off_duration > OFF_SKEW_MILLISECONDS {
        (p.off_duration - OFF_SKEW_MILLISECONDS) as u64
    } else {
        1
    }
}

/// The current pattern after one event: a received pattern supersedes, any
/// other event leaves it in place.
pub open spec fn next_pattern(current: DisplayPattern, event: IndicatorEvent) -> DisplayPattern {
    match event {
        IndicatorEvent::Received(p) => p,
        IndicatorEvent::NothingPending => current,
        IndicatorEvent::Disconnected => current,
    }
}

/// The actor's retained state: the most recently received pattern, and
/// where in its blink cycle the next step stands.
#[derive(Clone, Copy, PartialEq, Eq, Structural, Debug)]
pub struct IndicatorState {
    pub current: DisplayPattern,
    pub phase: BlinkPhase,
}

/// One actor step: the channel's event first, then a single sub-interval of
/// the (possibly new) current pattern.  A received pattern supersedes the
/// old one and restarts the cycle at its asserted hold; an active pattern
/// alternates asserted and deasserted holds; an inactive one idles with the
/// line deasserted; a disconnect stops the actor.
pub open spec fn indicator_step(s: IndicatorState, event: IndicatorEvent) -> (
    IndicatorState,
    IndicatorOutcome,
) {
    if event is Disconnected {
        (s, IndicatorOutcome::Stop)
    } else {
        let current = next_pattern(s.current, event);
        let phase = if event is Received {
            BlinkPhase::OnNext
        } else {
            s.phase
        };
        if !current.active {
            (
                IndicatorState { current, phase: BlinkPhase::OnNext },
                IndicatorOutcome::Continue(
                    LineActivity::Idle { milliseconds: INACTIVE_IDLE_MILLISECONDS },
                ),
            )
        } else if phase is OnNext {
            (
                IndicatorState { current, phase: BlinkPhase::OffNext },
                IndicatorOutcome::Continue(
                    LineActivity::AssertHold { milliseconds: current.on_duration },
                ),
            )
        } else {
            (
                IndicatorState { current, phase: BlinkPhase::OnNext },
                IndicatorOutcome::Continue(
                    LineActivity::DeassertHold { milliseconds: skewed_off_hold(current) },
                ),
            )
        }
    }
}

impl IndicatorState {
    /// The actor before any message: the line stays off.
    pub fn startup() -> (r: IndicatorState)
        ensures
            r.current == off_pattern(),
            r.phase == BlinkPhase::OnNext,
    {
        IndicatorState { current: off_pattern(), phase: BlinkPhase::OnNext }
    }

    /// One actor step.  The activity performed is always derived from the
    /// latest fully received pattern: a pattern found pending before this
    /// step shapes this very step.
    pub fn step(&mut self, event: IndicatorEvent) -> (r: IndicatorOutcome)
        ensures
            *final(self) == indicator_step(*old(self), event).0,
            r == indicator_step(*old(self), event).1,
    {
        match event {
            IndicatorEvent::Received(p) => {
                self.current = p;
                self.phase = BlinkPhase::OnNext;
            },
            IndicatorEvent::NothingPending => {},
            IndicatorEvent::Disconnected => {
                return IndicatorOutcome::Stop;
            },
        }
        let p = self.current;
        if !p.active {
            self.phase = BlinkPhase::OnNext;
            IndicatorOutcome::Continue(
                LineActivity::Idle { milliseconds: INACTIVE_IDLE_MILLISECONDS },
            )
        } else {
            match self.phase {
                BlinkPhase::OnNext => {
                    self.phase = BlinkPhase::OffNext;
                    IndicatorOutcome::Continue(
                        LineActivity::AssertHold { milliseconds: p.on_duration },
                    )
                },
                BlinkPhase::OffNext => {
                    self.phase = BlinkPhase::OnNext;
                    let off = if p.off_duration > OFF_SKEW_MILLISECONDS {
                        p.off_duration - OFF_SKEW_MILLISECONDS
                    } else {
                        1
                    };
                    IndicatorOutcome::Continue(LineActivity::DeassertHold { milliseconds: off })
                },
            }
        }
    }
}

/// The actor's state after a whole sequence of events, applied in order.
pub open spec fn state_after(init: IndicatorState, events: Seq<IndicatorEvent>) -> IndicatorState
    decreases events.len(),
{
    if events.len() == 0 {
        init
    } else {
        indicator_step(state_after(init, events.drop_last()), events.last()).0
    }
}

/// The payload of the last `Received` event in the sequence, or the initial
/// pattern if none was ever received.
pub open spec fn latest_received(init: DisplayPattern, events: Seq<IndicatorEvent>)
    -> DisplayPattern
    decreases events.len(),
{
    if events.len() == 0 {
        init
    } else {
        match events.last() {
            IndicatorEvent::Received(p) => p,
            _ => latest_received(init, events.drop_last()),
        }
    }
}

/// For any sequence of events, the pattern the actor holds — and therefore
/// the activity it applies at any sampling instant — is exactly the latest
/// pattern whose receipt completed before that instant; no older pattern is
/// ever observed after a newer one has been fully received.
pub proof fn lemma_latest_pattern_wins(init: IndicatorState, events: Seq<IndicatorEvent>)
    ensures
        state_after(init, events).current == latest_received(init.current, events),
    decreases events.len(),
{
    if events.len() > 0 {
        lemma_latest_pattern_wins(init, events.drop_last());
    }
}

/// A pattern whose receipt completes during one sub-interval shapes the
/// very next step: whatever the actor was doing, the step after the receipt
/// already belongs to the new pattern, starting at its asserted hold (or
/// its idle, if inactive).  The channel is polled before every sub-interval,
/// so the wait is bounded by the one sub-interval in progress plus the poll
/// slice, never by a full on/off cycle.
pub proof fn lemma_received_pattern_shapes_next_step(s: IndicatorState, p: DisplayPattern)
    ensures
        indicator_step(s, IndicatorEvent::Received(p)).0.current == p,
        p.active ==> indicator_step(s, IndicatorEvent::Received(p)).1
            == IndicatorOutcome::Continue(
            LineActivity::AssertHold { milliseconds: p.on_duration },
        ),
        !p.active ==> indicator_step(s, IndicatorEvent::Received(p)).1
            == IndicatorOutcome::Continue(
            LineActivity::Idle { milliseconds: INACTIVE_IDLE_MILLISECONDS },
        ),
{
}

} // verus!
