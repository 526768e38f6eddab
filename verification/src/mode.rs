//! The mode controller: a timeout-driven state machine deciding between
//! streaming video to a connected client and standalone recording to local
//! storage.  The controller owns every mode transition; the loop that
//! sleeps, drains the signal channel and probes connectivity lives outside
//! the library and feeds events in.

use vstd::prelude::*;
use crate::indicator::DisplayPattern;
use crate::indicator::standalone_pattern;
use crate::indicator::streaming_pattern;

verus! {

/// The two operating modes of the device.
#[derive(Clone, Copy, PartialEq, Eq, Structural, Debug)]
pub enum OperatingMode {
    Streaming,
    Standalone,
}

/// The controller's state: settled in a mode, or inside the grace window
/// that follows a (re)entry into streaming.
#[derive(Clone, Copy, PartialEq, Eq, Structural, Debug)]
pub enum ModeState {
    /// streaming was just commanded; the grace window is running
    AwaitingDecision,
    /// settled operating mode
    Settled(OperatingMode),
}

/// The external video pipelines the controller switches between.
#[derive(Clone, Copy, PartialEq, Eq, Structural, Debug)]
pub enum PipelineService {
    /// streams the camera to a network client
    CameraStream,
    /// records the camera to local storage
    StandaloneRecorder,
}

/// A command to the OS service supervisor.
#[derive(Clone, Copy, PartialEq, Eq, Structural, Debug)]
pub enum SupervisorOp {
    Disable,
    Stop,
    Enable,
    Start,
}

/// One action the controller asks its caller to perform.
#[derive(Clone, Copy, PartialEq, Eq, Structural, Debug)]
pub enum ModeAction {
    /// submit this pattern to the indicator actor
    ShowPattern(DisplayPattern),
    /// issue this command to the OS service supervisor
    Supervisor { op: SupervisorOp, service: PipelineService },
    /// sleep out the grace window, draining and ignoring mode signals
    StartGraceWindow { seconds: u64 },
}

/// One input to the controller's evaluation step.
#[derive(Clone, Copy, PartialEq, Eq, Structural, Debug)]
pub enum ModeEvent {
    /// at least one mode signal was pending (all pending ones collapse here)
    SignalReceived,
    /// the grace window elapsed; the prober reported whether a client holds
    /// an established connection
    GraceElapsed { client_connected: bool },
    /// an idle poll tick, with the prober's report
    IdlePoll { client_connected: bool },
}

/// Length of the grace window in seconds.
pub const GRACE_WINDOW_SECONDS: u64 = 60;

/// The idle poll interval in milliseconds.
pub const IDLE_POLL_MILLISECONDS: u64 = 100;

impl PipelineService {
    /// The OS service unit that runs this pipeline.
    pub fn unit_name(&self) -> (r: &'static str)
        ensures
            *self is CameraStream ==> r@ == "velovision-camera-mjpeg-over-tcp.service"@,
            *self is StandaloneRecorder ==> r@ == "velovision-standalone-mode.service"@,
    {
        match self {
            PipelineService::CameraStream => "velovision-camera-mjpeg-over-tcp.service",
            PipelineService::StandaloneRecorder => "velovision-standalone-mode.service",
        }
    }
}

/// The ordered actions that (re)enter streaming mode: show the streaming
/// pattern, take the standalone recorder out of service, bring the stream
/// up, then open the grace window.
pub open spec fn streaming_entry_plan() -> Seq<ModeAction> {
    seq![
        ModeAction::ShowPattern(streaming_pattern()),
        ModeAction::Supervisor {
            op: SupervisorOp::Disable,
            service: PipelineService::StandaloneRecorder,
        },
        ModeAction::Supervisor {
            op: SupervisorOp::Stop,
            service: PipelineService::StandaloneRecorder,
        },
        ModeAction::Supervisor { op: SupervisorOp::Enable, service: PipelineService::CameraStream },
        ModeAction::Supervisor { op: SupervisorOp::Start, service: PipelineService::CameraStream },
        ModeAction::StartGraceWindow { seconds: GRACE_WINDOW_SECONDS },
    ]
}

/// The ordered actions that enter standalone mode: show the standalone
/// pattern, take the stream out of service, bring the recorder up.
pub open spec fn standalone_entry_plan() -> Seq<ModeAction> {
    seq![
        ModeAction::ShowPattern(standalone_pattern()),
        ModeAction::Supervisor { op: SupervisorOp::Disable, service: PipelineService::CameraStream },
        ModeAction::Supervisor { op: SupervisorOp::Stop, service: PipelineService::CameraStream },
        ModeAction::Supervisor {
            op: SupervisorOp::Enable,
            service: PipelineService::StandaloneRecorder,
        },
        ModeAction::Supervisor {
            op: SupervisorOp::Start,
            service: PipelineService::StandaloneRecorder,
        },
    ]
}

/// The controller's transition function: the next state and the actions the
/// caller must perform, in order.
///
/// A signal always (re)enters streaming and opens the grace window.  At
/// grace expiry the device stays streaming only if a client is connected,
/// else it falls to standalone.  An idle poll re-asserts standalone whenever
/// no client is present, making standalone the resting state; mid-grace
/// polls and stray grace expiries change nothing.
pub open spec fn mode_step(state: ModeState, event: ModeEvent) -> (ModeState, Seq<ModeAction>) {
    match event {
        ModeEvent::SignalReceived => (ModeState::AwaitingDecision, streaming_entry_plan()),
        ModeEvent::GraceElapsed { client_connected } => {
            if state is AwaitingDecision {
                if client_connected {
                    (ModeState::Settled(OperatingMode::Streaming), Seq::empty())
                } else {
                    (ModeState::Settled(OperatingMode::Standalone), standalone_entry_plan())
                }
            } else {
                (state, Seq::empty())
            }
        },
        ModeEvent::IdlePoll { client_connected } => {
            if state is Settled && !client_connected {
                (ModeState::Settled(OperatingMode::Standalone), standalone_entry_plan())
            } else {
                (state, Seq::empty())
            }
        },
    }
}

/// Builds the streaming-entry actions.
pub fn streaming_entry_actions() -> (r: Vec<ModeAction>)
    ensures
        r@ == streaming_entry_plan(),
{
    let mut r: Vec<ModeAction> = Vec::new();
    r.push(ModeAction::ShowPattern(streaming_pattern()));
    r.push(
        ModeAction::Supervisor {
            op: SupervisorOp::Disable,
            service: PipelineService::StandaloneRecorder,
        },
    );
    r.push(
        ModeAction::Supervisor {
            op: SupervisorOp::Stop,
            service: PipelineService::StandaloneRecorder,
        },
    );
    r.push(
        ModeAction::Supervisor { op: SupervisorOp::Enable, service: PipelineService::CameraStream },
    );
    r.push(
        ModeAction::Supervisor { op: SupervisorOp::Start, service: PipelineService::CameraStream },
    );
    r.push(ModeAction::StartGraceWindow { seconds: GRACE_WINDOW_SECONDS });
    proof {
        assert(r@ =~= streaming_entry_plan());
    }
    r
}

/// Builds the standalone-entry actions.
pub fn standalone_entry_actions() -> (r: Vec<ModeAction>)
    ensures
        r@ == standalone_entry_plan(),
{
    let mut r: Vec<ModeAction> = Vec::new();
    r.push(ModeAction::ShowPattern(standalone_pattern()));
    r.push(
        ModeAction::Supervisor { op: SupervisorOp::Disable, service: PipelineService::CameraStream },
    );
    r.push(
        ModeAction::Supervisor { op: SupervisorOp::Stop, service: PipelineService::CameraStream },
    );
    r.push(
        ModeAction::Supervisor {
            op: SupervisorOp::Enable,
            service: PipelineService::StandaloneRecorder,
        },
    );
    r.push(
        ModeAction::Supervisor {
            op: SupervisorOp::Start,
            service: PipelineService::StandaloneRecorder,
        },
    );
    proof {
        assert(r@ =~= standalone_entry_plan());
    }
    r
}

/// The mode controller.  Exactly one exists per process, so mode
/// transitions never race: they all happen inside `handle_event`.
pub struct ModeController {
    pub state: ModeState,
}

impl ModeController {
    /// The controller at boot: the device defaults to attempting streaming
    /// before falling back.
    pub fn startup() -> (r: ModeController)
        ensures
            r.state == ModeState::Settled(OperatingMode::Streaming),
    {
        ModeController { state: ModeState::Settled(OperatingMode::Streaming) }
    }

    /// One evaluation step: applies the transition function and hands back
    /// the actions to perform, in order.
    pub fn handle_event(&mut self, event: ModeEvent) -> (actions: Vec<ModeAction>)
        ensures
            final(self).state == mode_step(old(self).state, event).0,
            actions@ == mode_step(old(self).state, event).1,
    {
        match event {
            ModeEvent::SignalReceived => {
                self.state = ModeState::AwaitingDecision;
                streaming_entry_actions()
            },
            ModeEvent::GraceElapsed { client_connected } => {
                match self.state {
                    ModeState::AwaitingDecision => {
                        if client_connected {
                            self.state = ModeState::Settled(OperatingMode::Streaming);
                            Vec::new()
                        } else {
                            self.state = ModeState::Settled(OperatingMode::Standalone);
                            standalone_entry_actions()
                        }
                    },
                    ModeState::Settled(_) => Vec::new(),
                }
            },
            ModeEvent::IdlePoll { client_connected } => {
                match self.state {
                    ModeState::Settled(_) => {
                        if !client_connected {
                            self.state = ModeState::Settled(OperatingMode::Standalone);
                            standalone_entry_actions()
                        } else {
                            Vec::new()
                        }
                    },
                    ModeState::AwaitingDecision => Vec::new(),
                }
            },
        }
    }
}

/// The controller state after a whole sequence of events, applied in order.
pub open spec fn mode_state_after(init: ModeState, events: Seq<ModeEvent>) -> ModeState
    decreases events.len(),
{
    if events.len() == 0 {
        init
    } else {
        mode_step(mode_state_after(init, events.drop_last()), events.last()).0
    }
}

/// All actions emitted over a whole sequence of events, concatenated in the
/// order they were handed to the caller.
pub open spec fn mode_actions_after(init: ModeState, events: Seq<ModeEvent>) -> Seq<ModeAction>
    decreases events.len(),
{
    if events.len() == 0 {
        Seq::empty()
    } else {
        mode_actions_after(init, events.drop_last()) + mode_step(
            mode_state_after(init, events.drop_last()),
            events.last(),
        ).1
    }
}

/// The boot trace with no client ever connecting: the boot-time signal,
/// then the grace expiry reporting no client.
pub open spec fn boot_without_client_trace() -> Seq<ModeEvent> {
    seq![
        ModeEvent::SignalReceived,
        ModeEvent::GraceElapsed { client_connected: false },
    ]
}

/// Starting from boot with no client ever connecting, the device is settled
/// in standalone mode at the grace expiry — that is, within one grace window
/// plus one poll interval of startup — and the emitted actions are exactly
/// the streaming entry followed by the standalone entry: the streaming
/// supervisor path runs before the standalone path, never concurrently.
pub proof fn lemma_boot_without_client_reaches_standalone(init: ModeState)
    ensures
        mode_state_after(init, boot_without_client_trace()) == ModeState::Settled(
            OperatingMode::Standalone,
        ),
        mode_actions_after(init, boot_without_client_trace()) == streaming_entry_plan()
            + standalone_entry_plan(),
{
    let evs = boot_without_client_trace();
    let pre = evs.drop_last();
    assert(evs.last() == (ModeEvent::GraceElapsed { client_connected: false }));
    assert(pre.len() == 1);
    assert(pre.last() == ModeEvent::SignalReceived);
    assert(pre.drop_last().len() == 0);
    assert(mode_state_after(init, pre.drop_last()) == init);
    assert(mode_state_after(init, pre) == ModeState::AwaitingDecision);
    assert(mode_actions_after(init, pre.drop_last()) == Seq::<ModeAction>::empty());
    assert(mode_actions_after(init, pre) =~= streaming_entry_plan());
    assert(mode_actions_after(init, evs) =~= streaming_entry_plan() + standalone_entry_plan());
}

} // verus!
