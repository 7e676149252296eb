use elevenlabs_rs::codec::{encode, Frame};
use elevenlabs_rs::error::{ConnectError, DecodeError, ProtocolError, RecvError, SendError};
use elevenlabs_rs::events::{ClientEvent, ServerEvent};
use elevenlabs_rs::session::{Action, Session, SessionState, TerminalEvent};

fn metadata(id: &str) -> ServerEvent {
    ServerEvent::ConversationInitiationMetadata { conversation_id: id.to_string() }
}

fn tool_call(id: &str, name: &str) -> ServerEvent {
    ServerEvent::ClientToolCall {
        tool_call_id: id.to_string(),
        tool_name: name.to_string(),
        parameters: "{}".to_string(),
    }
}

fn tool_result(id: &str) -> ClientEvent {
    ClientEvent::ToolCallResult {
        tool_call_id: id.to_string(),
        result: "sunny".to_string(),
        is_error: false,
    }
}

fn audio(chunk: &str, event_id: u64) -> ServerEvent {
    ServerEvent::Audio { chunk: chunk.to_string(), event_id }
}

fn active_session() -> Session {
    let mut session = Session::new();
    session.handle_event(metadata("conv_123"));
    session
}

#[test]
fn new_session_is_connecting() {
    let session = Session::new();
    assert_eq!(session.state(), SessionState::Connecting);
    assert_eq!(session.conversation_id(), None);
    assert_eq!(session.pending_count(), 0);
    assert_eq!(session.buffered_audio(), 0);
    assert_eq!(session.last_sent(), 0);
    assert_eq!(session.last_activity(), 0);
}

#[test]
fn tool_call_is_resolved_once() {
    let mut session = Session::new();
    assert_eq!(session.state(), SessionState::Connecting);

    let action = session.handle_event(metadata("conv_123"));
    assert_eq!(action, Action::Deliver(metadata("conv_123")));
    assert_eq!(session.state(), SessionState::Active);
    assert_eq!(session.conversation_id().map(|s| s.as_str()), Some("conv_123"));

    let action = session.handle_event(tool_call("tool_1", "get_weather"));
    assert_eq!(action, Action::Deliver(tool_call("tool_1", "get_weather")));
    assert!(session.is_pending("tool_1"));
    assert_eq!(session.pending_count(), 1);

    let sent = session.send(tool_result("tool_1"));
    assert_eq!(sent, Ok(encode(tool_result("tool_1"))));
    assert_eq!(session.pending_count(), 0);
    assert!(!session.is_pending("tool_1"));

    let again = session.send(tool_result("tool_1"));
    assert_eq!(again, Err(ProtocolError::UnknownOrResolvedToolCall));
    assert_eq!(session.pending_count(), 0);
}

#[test]
fn audio_is_handed_out_in_arrival_order() {
    let mut session = active_session();
    for (i, chunk) in ["c", "a", "b", "a", "z"].iter().enumerate() {
        assert_eq!(session.handle_event(audio(chunk, i as u64)), Action::Buffered);
    }
    assert_eq!(session.buffered_audio(), 5);
    assert_eq!(session.take_audio(), vec!["c", "a", "b", "a", "z"]);
    assert_eq!(session.buffered_audio(), 0);
    assert_eq!(session.take_audio(), Vec::<String>::new());
    session.handle_event(audio("next", 5));
    assert_eq!(session.take_audio(), vec!["next"]);
}

#[test]
fn result_for_unissued_id_is_refused() {
    let mut session = active_session();
    session.handle_event(tool_call("tool_1", "get_weather"));
    let sent_before = session.last_sent();
    assert_eq!(session.send(tool_result("tool_9")), Err(ProtocolError::UnknownOrResolvedToolCall));
    assert_eq!(session.pending_count(), 1);
    assert!(session.is_pending("tool_1"));
    assert!(!session.is_pending("tool_9"));
    assert_eq!(session.last_sent(), sent_before);
}

#[test]
fn result_for_resolved_id_is_refused() {
    let mut session = active_session();
    session.handle_event(tool_call("tool_1", "get_weather"));
    session.handle_event(tool_call("tool_2", "get_time"));
    assert!(session.send(tool_result("tool_1")).is_ok());
    assert_eq!(session.send(tool_result("tool_1")), Err(ProtocolError::UnknownOrResolvedToolCall));
    assert!(session.is_pending("tool_2"));
    assert_eq!(session.pending_count(), 1);
}

#[test]
fn repeated_tool_call_request_is_pending_once() {
    let mut session = active_session();
    session.handle_event(tool_call("tool_1", "get_weather"));
    session.handle_event(tool_call("tool_1", "get_weather"));
    assert_eq!(session.pending_count(), 1);
    assert!(session.send(tool_result("tool_1")).is_ok());
    assert!(!session.is_pending("tool_1"));
}

#[test]
fn interruption_then_agent_response() {
    let mut session = active_session();
    session.handle_event(audio("before", 1));
    let action = session.handle_event(ServerEvent::Interruption { event_id: 2 });
    assert_eq!(action, Action::Deliver(ServerEvent::Interruption { event_id: 2 }));
    assert_eq!(session.state(), SessionState::Interrupted);
    assert_eq!(session.buffered_audio(), 0);
    session.handle_event(audio("stale", 3));
    let response = ServerEvent::AgentResponse { text: "As I was saying".to_string() };
    assert_eq!(session.handle_event(response.clone()), Action::Deliver(response));
    assert_eq!(session.state(), SessionState::Active);
    assert_eq!(session.take_audio(), Vec::<String>::new());
}

#[test]
fn agent_response_while_active_keeps_audio() {
    let mut session = active_session();
    session.handle_event(audio("a", 1));
    session.handle_event(ServerEvent::AgentResponse { text: "hi".to_string() });
    assert_eq!(session.state(), SessionState::Active);
    assert_eq!(session.take_audio(), vec!["a"]);
}

#[test]
fn ping_is_answered_with_pong() {
    let mut session = Session::new();
    let action = session.handle_event(ServerEvent::Ping { event_id: 17 });
    assert_eq!(action, Action::Reply(ClientEvent::Pong { event_id: 17 }));
    assert_eq!(session.state(), SessionState::Connecting);
    assert_eq!(session.last_activity(), 1);
}

#[test]
fn closing_twice_gives_one_terminal_event() {
    let mut session = active_session();
    session.handle_event(tool_call("tool_1", "get_weather"));
    assert_eq!(session.close(), Some(TerminalEvent::Closed));
    assert_eq!(session.state(), SessionState::Closed);
    assert_eq!(session.pending_count(), 0);
    assert_eq!(session.close(), None);
    assert_eq!(session.abort(), None);
    assert_eq!(session.state(), SessionState::Closed);
}

#[test]
fn abort_is_reported_once() {
    let mut session = active_session();
    assert_eq!(session.on_receive_error(RecvError::Aborted), Some(TerminalEvent::Aborted));
    assert_eq!(session.on_receive_error(RecvError::Closed), None);
    assert_eq!(session.state(), SessionState::Closed);
    let mut session = Session::new();
    assert_eq!(session.on_receive_error(RecvError::Closed), Some(TerminalEvent::Closed));
}

#[test]
fn request_close_discards_pending_calls() {
    let mut session = active_session();
    session.handle_event(tool_call("tool_1", "get_weather"));
    session.request_close();
    assert_eq!(session.state(), SessionState::Closing);
    assert_eq!(session.pending_count(), 0);
    assert_eq!(session.send(tool_result("tool_1")), Err(ProtocolError::NotActive));
    session.request_close();
    assert_eq!(session.state(), SessionState::Closing);
    assert_eq!(session.close(), Some(TerminalEvent::Closed));
    session.request_close();
    assert_eq!(session.state(), SessionState::Closed);
}

#[test]
fn sending_before_active_is_refused() {
    let mut session = Session::new();
    let event = ClientEvent::UserMessage { text: "hello".to_string() };
    assert_eq!(session.send(event.clone()), Err(ProtocolError::NotActive));
    assert_eq!(session.last_sent(), 0);
    session.handle_event(metadata("conv_1"));
    assert_eq!(session.send(event.clone()), Ok(encode(event.clone())));
    assert_eq!(session.last_sent(), 1);
    session.handle_event(ServerEvent::Interruption { event_id: 1 });
    assert_eq!(session.send(event.clone()), Ok(encode(event.clone())));
    assert_eq!(session.last_sent(), 2);
    session.close();
    assert_eq!(session.send(event), Err(ProtocolError::NotActive));
}

#[test]
fn frames_are_decoded_then_routed() {
    let mut session = Session::new();
    let mut frame = Frame::of_kind("conversation_initiation_metadata");
    frame.conversation_id = Some("conv_123".to_string());
    assert_eq!(session.handle_frame(frame), Action::Deliver(metadata("conv_123")));
    assert_eq!(session.state(), SessionState::Active);

    let mut frame = Frame::of_kind("audio");
    frame.audio = Some("AAEC".to_string());
    frame.event_id = Some(1);
    assert_eq!(session.handle_frame(frame), Action::Buffered);
    assert_eq!(session.take_audio(), vec!["AAEC"]);
    assert_eq!(session.last_activity(), 2);
}

#[test]
fn undecodable_frames_are_diagnostics() {
    let mut session = active_session();
    session.handle_event(tool_call("tool_1", "get_weather"));
    let before = session.last_activity();
    let action = session.handle_frame(Frame::of_kind("agent_mood"));
    assert_eq!(action, Action::Diagnostic(DecodeError::UnknownVariant));
    let action = session.handle_frame(Frame::of_kind("ping"));
    assert_eq!(action, Action::Diagnostic(DecodeError::Malformed));
    assert_eq!(session.state(), SessionState::Active);
    assert_eq!(session.pending_count(), 1);
    assert_eq!(session.last_activity(), before + 2);
}

#[test]
fn metadata_after_start_keeps_state() {
    let mut session = active_session();
    session.handle_event(ServerEvent::Interruption { event_id: 1 });
    session.handle_event(metadata("conv_456"));
    assert_eq!(session.state(), SessionState::Interrupted);
    assert_eq!(session.conversation_id().map(|s| s.as_str()), Some("conv_456"));
}

#[test]
fn only_network_failures_are_retryable() {
    assert!(ConnectError::Network.is_retryable());
    assert!(!ConnectError::AuthorizationRejected.is_retryable());
}

#[test]
fn send_failure_ends_the_session_once() {
    let mut session = active_session();
    assert_eq!(session.on_send_error(SendError::Transport), Some(TerminalEvent::Aborted));
    assert_eq!(session.state(), SessionState::Closed);
    assert_eq!(session.on_send_error(SendError::Transport), None);
}

#[test]
fn markers_count_what_happened() {
    let mut session = Session::new();
    session.handle_event(metadata("conv_1"));
    session.handle_event(audio("a", 1));
    session.handle_event(ServerEvent::VadScore);
    assert_eq!(session.last_activity(), 3);
    assert_eq!(session.last_sent(), 0);
    assert!(session.send(ClientEvent::UserAudioChunk { chunk: "AA==".to_string() }).is_ok());
    assert!(session.send(tool_result("nope")).is_err());
    assert_eq!(session.last_sent(), 1);
}
