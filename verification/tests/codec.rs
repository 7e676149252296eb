use elevenlabs_rs::codec::{decode, decode_client, encode, Frame};
use elevenlabs_rs::error::DecodeError;
use elevenlabs_rs::events::{ClientEvent, ConversationConfigOverride, ServerEvent};

fn round_trip(event: ClientEvent) {
    let frame = encode(event.clone());
    assert_eq!(decode_client(frame), Ok(event));
}

#[test]
fn tool_call_result_round_trips() {
    round_trip(ClientEvent::ToolCallResult {
        tool_call_id: "tool_1".to_string(),
        result: "{\"temperature\": 21}".to_string(),
        is_error: false,
    });
}

#[test]
fn every_client_variant_round_trips() {
    round_trip(ClientEvent::ConversationInitiation {
        overrides: ConversationConfigOverride {
            prompt: Some("You are terse.".to_string()),
            first_message: None,
            language: Some("en".to_string()),
            tool_definitions: Some("[{\"name\":\"get_weather\"}]".to_string()),
        },
    });
    round_trip(ClientEvent::UserAudioChunk { chunk: "AAEC".to_string() });
    round_trip(ClientEvent::UserMessage { text: "hello".to_string() });
    round_trip(ClientEvent::ContextualUpdate { text: "the user opened the cart".to_string() });
    round_trip(ClientEvent::Pong { event_id: 7 });
}

#[test]
fn encode_writes_discriminator_and_fields() {
    let frame = encode(ClientEvent::Pong { event_id: 42 });
    let mut expected = Frame::of_kind("pong");
    expected.event_id = Some(42);
    assert_eq!(frame, expected);

    let frame = encode(ClientEvent::ToolCallResult {
        tool_call_id: "tool_1".to_string(),
        result: "sunny".to_string(),
        is_error: true,
    });
    assert_eq!(frame.kind.as_deref(), Some("tool_call_result"));
    assert_eq!(frame.tool_call_id.as_deref(), Some("tool_1"));
    assert_eq!(frame.result.as_deref(), Some("sunny"));
    assert_eq!(frame.is_error, Some(true));
    assert_eq!(frame.text, None);
}

#[test]
fn of_kind_holds_only_the_discriminator() {
    let frame = Frame::of_kind("ping");
    assert_eq!(frame.kind.as_deref(), Some("ping"));
    assert_eq!(frame.event_id, None);
    assert_eq!(frame.conversation_id, None);
    assert_eq!(frame.audio, None);
}

#[test]
fn decode_reads_each_server_event() {
    let mut frame = Frame::of_kind("conversation_initiation_metadata");
    frame.conversation_id = Some("conv_123".to_string());
    assert_eq!(
        decode(frame),
        Ok(ServerEvent::ConversationInitiationMetadata { conversation_id: "conv_123".to_string() })
    );

    let mut frame = Frame::of_kind("user_transcript");
    frame.text = Some("what is the weather".to_string());
    assert_eq!(
        decode(frame),
        Ok(ServerEvent::UserTranscript { text: "what is the weather".to_string() })
    );

    let mut frame = Frame::of_kind("agent_response");
    frame.text = Some("It is sunny.".to_string());
    assert_eq!(decode(frame), Ok(ServerEvent::AgentResponse { text: "It is sunny.".to_string() }));

    let mut frame = Frame::of_kind("audio");
    frame.audio = Some("UklGRg==".to_string());
    frame.event_id = Some(3);
    assert_eq!(decode(frame), Ok(ServerEvent::Audio { chunk: "UklGRg==".to_string(), event_id: 3 }));

    let mut frame = Frame::of_kind("client_tool_call");
    frame.tool_call_id = Some("tool_1".to_string());
    frame.tool_name = Some("get_weather".to_string());
    frame.parameters = Some("{}".to_string());
    assert_eq!(
        decode(frame),
        Ok(ServerEvent::ClientToolCall {
            tool_call_id: "tool_1".to_string(),
            tool_name: "get_weather".to_string(),
            parameters: "{}".to_string(),
        })
    );

    let mut frame = Frame::of_kind("interruption");
    frame.event_id = Some(9);
    assert_eq!(decode(frame), Ok(ServerEvent::Interruption { event_id: 9 }));

    let mut frame = Frame::of_kind("ping");
    frame.event_id = Some(11);
    assert_eq!(decode(frame), Ok(ServerEvent::Ping { event_id: 11 }));

    assert_eq!(decode(Frame::of_kind("vad_score")), Ok(ServerEvent::VadScore));

    let mut frame = Frame::of_kind("internal_tentative_agent_response");
    frame.text = Some("It is".to_string());
    assert_eq!(
        decode(frame),
        Ok(ServerEvent::InternalTentativeAgentResponse { text: "It is".to_string() })
    );

    let mut frame = Frame::of_kind("internal_error");
    frame.text = Some("boom".to_string());
    assert_eq!(decode(frame), Ok(ServerEvent::InternalError { message: "boom".to_string() }));
}

#[test]
fn unknown_discriminator_is_unknown_variant() {
    let mut frame = Frame::of_kind("agent_mood");
    frame.text = Some("cheerful".to_string());
    assert_eq!(decode(frame), Err(DecodeError::UnknownVariant));
    assert_eq!(decode_client(Frame::of_kind("ping")), Err(DecodeError::UnknownVariant));
    assert_eq!(decode(Frame::of_kind("pong")), Err(DecodeError::UnknownVariant));
}

#[test]
fn missing_field_is_malformed() {
    assert_eq!(decode(Frame::of_kind("ping")), Err(DecodeError::Malformed));
    let mut frame = Frame::of_kind("audio");
    frame.audio = Some("AAEC".to_string());
    assert_eq!(decode(frame), Err(DecodeError::Malformed));
    let mut frame = Frame::of_kind("client_tool_call");
    frame.tool_call_id = Some("tool_1".to_string());
    assert_eq!(decode(frame), Err(DecodeError::Malformed));
    let mut frame = Frame::of_kind("tool_call_result");
    frame.tool_call_id = Some("tool_1".to_string());
    frame.result = Some("ok".to_string());
    assert_eq!(decode_client(frame), Err(DecodeError::Malformed));
}

#[test]
fn missing_discriminator_is_malformed() {
    let mut frame = Frame::of_kind("ping");
    frame.kind = None;
    frame.event_id = Some(1);
    assert_eq!(decode(frame.clone()), Err(DecodeError::Malformed));
    assert_eq!(decode_client(frame), Err(DecodeError::Malformed));
}
