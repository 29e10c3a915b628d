use starknet_adapter::server::{
    initial_phase, next_action, on_event, ServerAction, ServerError, ServerEvent, ServerPhase,
};

#[test]
fn a_clean_run_walks_the_whole_sequence() {
    let phase = initial_phase();
    assert_eq!(phase, ServerPhase::Init);
    assert_eq!(next_action(&phase), ServerAction::SpawnReporter);

    let phase = on_event(phase, ServerEvent::ReporterLaunched);
    assert_eq!(phase, ServerPhase::ReporterSpawned);
    assert_eq!(next_action(&phase), ServerAction::BuildReflection);

    let phase = on_event(phase, ServerEvent::ReflectionBuilt(true));
    assert_eq!(phase, ServerPhase::ReflectionReady);
    assert_eq!(next_action(&phase), ServerAction::ServeUntilCancelled);

    let phase = on_event(phase, ServerEvent::ListenerExited(true));
    assert_eq!(phase, ServerPhase::ListenerStopped);
    assert_eq!(next_action(&phase), ServerAction::CancelAndJoinReporter);

    let phase = on_event(phase, ServerEvent::ReporterJoined(true));
    assert_eq!(phase, ServerPhase::Finished);
    assert_eq!(next_action(&phase), ServerAction::ReturnOk);
}

#[test]
fn the_listener_stops_before_the_reporter_is_joined() {
    let events = [
        ServerEvent::ReporterLaunched,
        ServerEvent::ReflectionBuilt(true),
        ServerEvent::ListenerExited(true),
        ServerEvent::ReporterJoined(true),
    ];
    let mut phase = initial_phase();
    let mut listener_stopped_at: Option<usize> = None;
    let mut reporter_joined_at: Option<usize> = None;
    for (i, event) in events.iter().enumerate() {
        if matches!(event, ServerEvent::ListenerExited(true)) {
            listener_stopped_at = Some(i);
        }
        if matches!(event, ServerEvent::ReporterJoined(_)) {
            // the machine only accepts the join once the listener has stopped
            assert_eq!(phase, ServerPhase::ListenerStopped);
            reporter_joined_at = Some(i);
        }
        phase = on_event(phase, *event);
    }
    assert!(listener_stopped_at.expect("listener stopped") < reporter_joined_at.expect("joined"));
    assert_eq!(phase, ServerPhase::Finished);
}

#[test]
fn a_reflection_build_failure_is_fatal() {
    let phase = on_event(initial_phase(), ServerEvent::ReporterLaunched);
    let phase = on_event(phase, ServerEvent::ReflectionBuilt(false));
    assert_eq!(phase, ServerPhase::Failed(ServerError::ReflectionServer));
    assert_eq!(
        next_action(&phase),
        ServerAction::ReturnErr(ServerError::ReflectionServer)
    );
}

#[test]
fn a_transport_failure_is_fatal_and_skips_the_join() {
    let phase = on_event(initial_phase(), ServerEvent::ReporterLaunched);
    let phase = on_event(phase, ServerEvent::ReflectionBuilt(true));
    let phase = on_event(phase, ServerEvent::ListenerExited(false));
    assert_eq!(phase, ServerPhase::Failed(ServerError::Transport));
    assert_eq!(
        next_action(&phase),
        ServerAction::ReturnErr(ServerError::Transport)
    );
}

#[test]
fn a_join_failure_is_fatal() {
    let phase = on_event(initial_phase(), ServerEvent::ReporterLaunched);
    let phase = on_event(phase, ServerEvent::ReflectionBuilt(true));
    let phase = on_event(phase, ServerEvent::ListenerExited(true));
    let phase = on_event(phase, ServerEvent::ReporterJoined(false));
    assert_eq!(phase, ServerPhase::Failed(ServerError::Task));
    assert_eq!(next_action(&phase), ServerAction::ReturnErr(ServerError::Task));
}
