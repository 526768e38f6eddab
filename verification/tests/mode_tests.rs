use supreme_server::indicator::standalone_pattern;
use supreme_server::indicator::streaming_pattern;
use supreme_server::mode::standalone_entry_actions;
use supreme_server::mode::streaming_entry_actions;
use supreme_server::mode::ModeAction;
use supreme_server::mode::ModeController;
use supreme_server::mode::ModeEvent;
use supreme_server::mode::ModeState;
use supreme_server::mode::OperatingMode;
use supreme_server::mode::PipelineService;
use supreme_server::mode::SupervisorOp;

#[test]
fn controller_boots_settled_in_streaming() {
    let controller = ModeController::startup();
    assert_eq!(controller.state, ModeState::Settled(OperatingMode::Streaming));
}

#[test]
fn streaming_entry_actions_hold_their_order() {
    let actions = streaming_entry_actions();
    assert_eq!(actions.len(), 6);
    assert_eq!(actions[0], ModeAction::ShowPattern(streaming_pattern()));
    assert_eq!(
        actions[1],
        ModeAction::Supervisor {
            op: SupervisorOp::Disable,
            service: PipelineService::StandaloneRecorder,
        }
    );
    assert_eq!(
        actions[2],
        ModeAction::Supervisor {
            op: SupervisorOp::Stop,
            service: PipelineService::StandaloneRecorder,
        }
    );
    assert_eq!(
        actions[3],
        ModeAction::Supervisor { op: SupervisorOp::Enable, service: PipelineService::CameraStream }
    );
    assert_eq!(
        actions[4],
        ModeAction::Supervisor { op: SupervisorOp::Start, service: PipelineService::CameraStream }
    );
    assert_eq!(actions[5], ModeAction::StartGraceWindow { seconds: 60 });
}

#[test]
fn standalone_entry_actions_hold_their_order() {
    let actions = standalone_entry_actions();
    assert_eq!(actions.len(), 5);
    assert_eq!(actions[0], ModeAction::ShowPattern(standalone_pattern()));
    assert_eq!(
        actions[1],
        ModeAction::Supervisor { op: SupervisorOp::Disable, service: PipelineService::CameraStream }
    );
    assert_eq!(
        actions[2],
        ModeAction::Supervisor { op: SupervisorOp::Stop, service: PipelineService::CameraStream }
    );
    assert_eq!(
        actions[3],
        ModeAction::Supervisor {
            op: SupervisorOp::Enable,
            service: PipelineService::StandaloneRecorder,
        }
    );
    assert_eq!(
        actions[4],
        ModeAction::Supervisor {
            op: SupervisorOp::Start,
            service: PipelineService::StandaloneRecorder,
        }
    );
}

#[test]
fn signal_enters_streaming_and_opens_the_grace_window() {
    let mut controller = ModeController::startup();
    let actions = controller.handle_event(ModeEvent::SignalReceived);
    assert_eq!(controller.state, ModeState::AwaitingDecision);
    assert_eq!(actions, streaming_entry_actions());
}

#[test]
fn boot_without_client_falls_to_standalone_after_grace() {
    let mut controller = ModeController::startup();
    let first = controller.handle_event(ModeEvent::SignalReceived);
    let second = controller.handle_event(ModeEvent::GraceElapsed { client_connected: false });
    assert_eq!(controller.state, ModeState::Settled(OperatingMode::Standalone));
    // the streaming supervisor path ran before the standalone path
    assert_eq!(first, streaming_entry_actions());
    assert_eq!(second, standalone_entry_actions());
}

#[test]
fn connected_client_keeps_streaming_after_grace() {
    let mut controller = ModeController::startup();
    controller.handle_event(ModeEvent::SignalReceived);
    let actions = controller.handle_event(ModeEvent::GraceElapsed { client_connected: true });
    assert_eq!(controller.state, ModeState::Settled(OperatingMode::Streaming));
    assert!(actions.is_empty());
}

#[test]
fn idle_poll_reasserts_standalone_without_a_client() {
    let mut controller = ModeController::startup();
    let actions = controller.handle_event(ModeEvent::IdlePoll { client_connected: false });
    assert_eq!(controller.state, ModeState::Settled(OperatingMode::Standalone));
    assert_eq!(actions, standalone_entry_actions());
    // and keeps re-asserting it on every further empty poll
    let again = controller.handle_event(ModeEvent::IdlePoll { client_connected: false });
    assert_eq!(controller.state, ModeState::Settled(OperatingMode::Standalone));
    assert_eq!(again, standalone_entry_actions());
}

#[test]
fn idle_poll_with_a_client_changes_nothing() {
    let mut controller = ModeController::startup();
    let actions = controller.handle_event(ModeEvent::IdlePoll { client_connected: true });
    assert_eq!(controller.state, ModeState::Settled(OperatingMode::Streaming));
    assert!(actions.is_empty());
}

#[test]
fn service_units_carry_their_names() {
    assert_eq!(
        PipelineService::CameraStream.unit_name(),
        "velovision-camera-mjpeg-over-tcp.service"
    );
    assert_eq!(
        PipelineService::StandaloneRecorder.unit_name(),
        "velovision-standalone-mode.service"
    );
}
