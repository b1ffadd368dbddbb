use voxbridge::session::{
    backoff_for_attempt, close_wait_step, handle_server_event, CloseWaitStep, now_millis, session_loop_step, ConnectionStatus,
    LoopAction, LoopEvent, ServerAction, SessionManager, SessionNotice, SessionSupervisor,
    SupervisorCommand, SupervisorInput, TranscriptIds, TranscriptRole, MAX_RECONNECT_ATTEMPTS,
};
use voxbridge::websocket::ServerEvent;

fn status(n: &SessionNotice) -> (ConnectionStatus, Option<String>) {
    match n {
        SessionNotice::Status { status, message } => (*status, message.clone()),
        SessionNotice::Error { .. } => panic!("expected a status notice"),
    }
}

fn error(n: &SessionNotice) -> (String, bool) {
    match n {
        SessionNotice::Error { message, recoverable } => (message.clone(), *recoverable),
        SessionNotice::Status { .. } => panic!("expected an error notice"),
    }
}

fn ready(key: Option<&str>) -> SupervisorInput {
    SupervisorInput::Ready { cancelled: false, api_key: key.map(|k| k.to_string()) }
}

fn failed(e: &str) -> SupervisorInput {
    SupervisorInput::Ended { result: Err(e.to_string()), cancelled: false }
}

fn event(kind: Option<&str>, delta: Option<&str>, error_message: Option<&str>) -> ServerEvent {
    ServerEvent {
        event_type: kind.map(|s| s.to_string()),
        delta: delta.map(|s| s.to_string()),
        error_message: error_message.map(|s| s.to_string()),
    }
}

#[test]
fn start_reports_connecting_and_asks_for_key() {
    let (_, step) = SessionSupervisor::start();
    assert_eq!(step.notices.len(), 1);
    assert_eq!(status(&step.notices[0]), (ConnectionStatus::Connecting, None));
    assert!(matches!(step.command, SupervisorCommand::LoadKey));
}

#[test]
fn missing_key_stops_with_error() {
    let (mut sup, _) = SessionSupervisor::start();
    let step = sup.step(ready(None));
    assert_eq!(step.notices.len(), 2);
    assert_eq!(error(&step.notices[0]), ("No OpenAI API key configured. Add one in Settings.".to_string(), false));
    assert_eq!(status(&step.notices[1]), (ConnectionStatus::Error, Some("Missing API key".to_string())));
    assert!(matches!(step.command, SupervisorCommand::Finish));
}

#[test]
fn cancel_before_connecting_disconnects() {
    let (mut sup, _) = SessionSupervisor::start();
    let step = sup.step(SupervisorInput::Ready { cancelled: true, api_key: Some("k".to_string()) });
    assert_eq!(step.notices.len(), 1);
    assert_eq!(status(&step.notices[0]), (ConnectionStatus::Disconnected, None));
    assert!(matches!(step.command, SupervisorCommand::Finish));
}

#[test]
fn clean_end_disconnects() {
    let (mut sup, _) = SessionSupervisor::start();
    let step = sup.step(ready(Some("k")));
    match &step.command {
        SupervisorCommand::Connect(k) => assert_eq!(k, "k"),
        _ => panic!("expected connect"),
    }
    assert!(step.notices.is_empty());
    let step = sup.step(SupervisorInput::Ended { result: Ok(()), cancelled: false });
    assert_eq!(status(&step.notices[0]), (ConnectionStatus::Disconnected, None));
    assert!(matches!(step.command, SupervisorCommand::Finish));
}

#[test]
fn failure_after_cancel_disconnects() {
    let (mut sup, _) = SessionSupervisor::start();
    sup.step(ready(Some("k")));
    let step = sup.step(SupervisorInput::Ended { result: Err("boom".to_string()), cancelled: true });
    assert_eq!(step.notices.len(), 1);
    assert_eq!(status(&step.notices[0]), (ConnectionStatus::Disconnected, None));
}

#[test]
fn cancel_during_backoff_disconnects() {
    let (mut sup, _) = SessionSupervisor::start();
    sup.step(ready(Some("k")));
    sup.step(failed("boom"));
    let step = sup.step(SupervisorInput::Waited { cancelled: true });
    assert_eq!(status(&step.notices[0]), (ConnectionStatus::Disconnected, None));
    assert!(matches!(step.command, SupervisorCommand::Finish));
}

#[test]
fn retries_with_growing_backoff_then_gives_up() {
    let (mut sup, _) = SessionSupervisor::start();
    let mut connects = 0;
    let mut sleeps = Vec::new();
    loop {
        let step = sup.step(ready(Some("k")));
        assert!(matches!(step.command, SupervisorCommand::Connect(_)));
        connects += 1;
        let step = sup.step(failed("boom"));
        match step.command {
            SupervisorCommand::Sleep(secs) => {
                let n = sleeps.len() + 1;
                assert_eq!(status(&step.notices[0]), (ConnectionStatus::Reconnecting, Some(format!("Attempt {n}: boom"))));
                sleeps.push(secs);
                let step = sup.step(SupervisorInput::Waited { cancelled: false });
                assert!(matches!(step.command, SupervisorCommand::LoadKey));
                assert!(step.notices.is_empty());
            }
            SupervisorCommand::Finish => {
                assert_eq!(error(&step.notices[0]), ("Giving up after 6 failed attempts: boom".to_string(), false));
                assert_eq!(status(&step.notices[1]), (ConnectionStatus::Error, Some("boom".to_string())));
                break;
            }
            _ => panic!("unexpected command"),
        }
    }
    assert_eq!(sleeps, vec![2, 4, 8, 16, 30]);
    assert_eq!(connects, MAX_RECONNECT_ATTEMPTS + 1);
}

#[test]
fn supervisor_accepts_only_the_awaited_input() {
    let (sup, _) = SessionSupervisor::start();
    assert!(sup.accepts_input(&ready(None)));
    assert!(!sup.accepts_input(&failed("x")));
    assert!(!sup.accepts_input(&SupervisorInput::Waited { cancelled: false }));
}

#[test]
fn backoff_doubles_up_to_thirty() {
    let waits: Vec<u64> = (0..=5).map(backoff_for_attempt).collect();
    assert_eq!(waits, vec![1, 2, 4, 8, 16, 30]);
}

#[test]
fn transcript_ids_count_up() {
    let mut ids = TranscriptIds::new();
    assert_eq!(ids.next_transcript_id(), "t0");
    assert_eq!(ids.next_transcript_id(), "t1");
    let u = ids.transcript_update(TranscriptRole::Source, "hello".to_string(), false, 1234);
    assert_eq!(u.id, "t2");
    assert_eq!(u.role, TranscriptRole::Source);
    assert_eq!(u.text, "hello");
    assert!(!u.is_final);
    assert_eq!(u.timestamp, 1234);
    let mut seen = std::collections::HashSet::new();
    for _ in 0..1000 {
        assert!(seen.insert(ids.next_transcript_id()));
    }
}

#[test]
fn role_and_status_names() {
    assert_eq!(TranscriptRole::Translated.as_str(), "translated");
    assert_eq!(TranscriptRole::Source.as_str(), "source");
    assert_eq!(ConnectionStatus::Connecting.as_str(), "connecting");
    assert_eq!(ConnectionStatus::Connected.as_str(), "connected");
    assert_eq!(ConnectionStatus::Reconnecting.as_str(), "reconnecting");
    assert_eq!(ConnectionStatus::Disconnected.as_str(), "disconnected");
    assert_eq!(ConnectionStatus::Error.as_str(), "error");
}

#[test]
fn now_millis_truncates_and_defaults() {
    assert_eq!(now_millis(None), 0);
    assert_eq!(now_millis(Some(1_700_000_000_123)), 1_700_000_000_123);
    assert_eq!(now_millis(Some((1u128 << 64) + 5)), 5);
}

#[test]
fn audio_delta_is_decoded_for_playback() {
    // "AQD//w==" is the base64 of 01 00 ff ff.
    match handle_server_event(&event(Some("session.output_audio.delta"), Some("AQD//w=="), None)) {
        ServerAction::Play(samples) => assert_eq!(samples, vec![1, -1]),
        _ => panic!("expected audio"),
    }
    assert!(matches!(handle_server_event(&event(Some("session.output_audio.delta"), Some("not base64!"), None)), ServerAction::Ignore));
    assert!(matches!(handle_server_event(&event(Some("session.output_audio.delta"), None, None)), ServerAction::Ignore));
}

#[test]
fn transcript_deltas_keep_their_role() {
    match handle_server_event(&event(Some("session.output_transcript.delta"), Some("Hello"), None)) {
        ServerAction::Transcript(role, text) => {
            assert_eq!(role, TranscriptRole::Translated);
            assert_eq!(text, "Hello");
        }
        _ => panic!("expected transcript"),
    }
    match handle_server_event(&event(Some("session.input_transcript.delta"), Some("നമസ്കാരം"), None)) {
        ServerAction::Transcript(role, text) => {
            assert_eq!(role, TranscriptRole::Source);
            assert_eq!(text, "നമസ്കാരം");
        }
        _ => panic!("expected transcript"),
    }
}

#[test]
fn error_events_are_recoverable_errors() {
    match handle_server_event(&event(Some("error"), None, Some("rate limited"))) {
        ServerAction::Notify(n) => assert_eq!(error(&n), ("rate limited".to_string(), true)),
        _ => panic!("expected an error"),
    }
    match handle_server_event(&event(Some("error"), None, None)) {
        ServerAction::Notify(n) => assert_eq!(error(&n), ("unknown error from OpenAI Realtime API".to_string(), true)),
        _ => panic!("expected an error"),
    }
}

#[test]
fn other_events_are_ignored() {
    assert!(matches!(handle_server_event(&event(Some("session.created"), Some("x"), None)), ServerAction::Ignore));
    assert!(matches!(handle_server_event(&event(None, Some("x"), None)), ServerAction::Ignore));
}

#[test]
fn loop_steps() {
    assert!(matches!(session_loop_step(LoopEvent::Cancelled), LoopAction::Stop(Ok(()))));
    match session_loop_step(LoopEvent::MicChunk(vec![1, 0, 255, 255])) {
        LoopAction::Send(text) => assert_eq!(text, "{\"audio\":\"AQD//w==\",\"type\":\"session.input_audio_buffer.append\"}"),
        _ => panic!("expected send"),
    }
    match session_loop_step(LoopEvent::MicClosed) {
        LoopAction::Stop(Err(e)) => assert_eq!(e, "microphone channel closed unexpectedly"),
        _ => panic!("expected stop"),
    }
    match session_loop_step(LoopEvent::SendFailed("websocket send failed: x".to_string())) {
        LoopAction::Stop(Err(e)) => assert_eq!(e, "websocket send failed: x"),
        _ => panic!("expected stop"),
    }
    match session_loop_step(LoopEvent::Server(None)) {
        LoopAction::Stop(Err(e)) => assert_eq!(e, "OpenAI Realtime connection closed unexpectedly"),
        _ => panic!("expected stop"),
    }
    match session_loop_step(LoopEvent::Server(Some(Err("websocket read error: y".to_string())))) {
        LoopAction::Stop(Err(e)) => assert_eq!(e, "websocket read error: y"),
        _ => panic!("expected stop"),
    }
    assert!(matches!(
        session_loop_step(LoopEvent::Server(Some(Ok(event(Some("session.closed"), None, None))))),
        LoopAction::Handle(ServerAction::Ignore)
    ));
}

#[test]
fn one_session_at_a_time() {
    let mut m: SessionManager<u32> = SessionManager::new();
    assert!(!m.get_session_status(false));
    assert_eq!(m.start_session(false, || 7), Ok(()));
    assert!(m.get_session_status(false));
    assert_eq!(m.current(), Some(&7));
    let mut spawned_again = false;
    assert_eq!(m.start_session(false, || { spawned_again = true; 8 }), Err("a session is already running".to_string()));
    assert!(!spawned_again);
    assert_eq!(m.stop_session(), Some(7));
    assert!(!m.get_session_status(false));
    assert_eq!(m.current(), None);
    assert_eq!(m.stop_session(), None);
    assert_eq!(m.start_session(false, || 9), Ok(()));
    assert_eq!(m.stop_session(), Some(9));
}

#[test]
fn session_that_ended_on_its_own_is_not_running() {
    let mut m: SessionManager<u32> = SessionManager::new();
    assert_eq!(m.start_session(false, || 1), Ok(()));
    // The stored session's task has finished (no key, or it gave up).
    assert!(!m.get_session_status(true));
    assert_eq!(m.start_session(true, || 2), Ok(()));
    assert_eq!(m.current(), Some(&2));
    assert!(m.get_session_status(false));
}

#[test]
fn close_wait_delivers_buffered_events_until_ack() {
    match close_wait_step(Some(Ok(event(Some("session.output_audio.delta"), Some("AQD//w=="), None)))) {
        CloseWaitStep::Handle(ServerAction::Play(samples)) => assert_eq!(samples, vec![1, -1]),
        _ => panic!("expected buffered audio to be played"),
    }
    match close_wait_step(Some(Ok(event(Some("session.output_transcript.delta"), Some("bye"), None)))) {
        CloseWaitStep::Handle(ServerAction::Transcript(TranscriptRole::Translated, t)) => assert_eq!(t, "bye"),
        _ => panic!("expected transcript"),
    }
    assert!(matches!(close_wait_step(Some(Ok(event(Some("session.closed"), None, None)))), CloseWaitStep::Stop));
    assert!(matches!(close_wait_step(Some(Err("x".to_string()))), CloseWaitStep::Stop));
    assert!(matches!(close_wait_step(None), CloseWaitStep::Stop));
}
